use std::collections::VecDeque;
use std::time::SystemTime;
use vstd::prelude::*;
use vstd::string::*;

verus! {

/// std::time::SystemTime, carried opaquely as the moment an entry was logged.
#[verifier::external_type_specification]
#[verifier::external_body]
pub struct ExSystemTime(SystemTime);

/// Relies on std::time::SystemTime::now for the moment an entry is logged;
/// nothing is assumed of the value.
pub assume_specification[ SystemTime::now ]() -> SystemTime;

/// How many entries a logger keeps unless told otherwise.
pub const DEFAULT_MAX_LOGS: usize = 1000;

/// The severity of a log entry.
#[derive(Debug, Clone, Copy, PartialEq, Eq, Structural)]
pub enum LogLevel {
    Info,
    Warning,
    Error,
    Debug,
}

/// The tag a level is shown with.
pub open spec fn level_label(level: LogLevel) -> Seq<char> {
    match level {
        LogLevel::Info => "INFO"@,
        LogLevel::Warning => "WARN"@,
        LogLevel::Error => "ERROR"@,
        LogLevel::Debug => "DEBUG"@,
    }
}

impl LogLevel {
    /// The tag this level is shown with.
    pub fn label(&self) -> (r: &'static str)
        ensures
            r@ == level_label(*self),
    {
        match self {
            LogLevel::Info => "INFO",
            LogLevel::Warning => "WARN",
            LogLevel::Error => "ERROR",
            LogLevel::Debug => "DEBUG",
        }
    }
}

/// One logged message.
#[derive(Debug)]
pub struct LogEntry {
    timestamp: SystemTime,
    level: LogLevel,
    message: String,
}

/// What a log entry records, apart from its time.
pub open spec fn record_of(e: LogEntry) -> (LogLevel, Seq<char>) {
    (e.level_spec(), e.message_spec())
}

impl LogEntry {
    pub closed spec fn level_spec(&self) -> LogLevel {
        self.level
    }

    pub closed spec fn timestamp_spec(&self) -> SystemTime {
        self.timestamp
    }

    pub closed spec fn message_spec(&self) -> Seq<char> {
        self.message@
    }

    pub fn level(&self) -> (r: LogLevel)
        ensures
            r == self.level_spec(),
    {
        self.level
    }

    pub fn message(&self) -> (r: &str)
        ensures
            r@ == self.message_spec(),
    {
        self.message.as_str()
    }

    /// When the entry was logged.
    pub fn timestamp(&self) -> (r: SystemTime)
        ensures
            r == self.timestamp_spec(),
    {
        self.timestamp
    }
}

/// The last `n` items of `s`, or all of them when there are fewer.
pub open spec fn keep_last<T>(s: Seq<T>, n: nat) -> Seq<T> {
    if s.len() > n {
        s.subrange(s.len() - n, s.len() as int)
    } else {
        s
    }
}

/// The first `n` items of `s` taken from its end, newest first.
pub open spec fn newest_first<T>(s: Seq<T>, n: nat) -> Seq<T> {
    let k = if n < s.len() { n } else { s.len() };
    Seq::new(k, |i: int| s[s.len() - 1 - i])
}

/// Whether `after` is `before` with one entry of `level` and `message`
/// appended, keeping the entries already there as they were and then dropping
/// the oldest beyond the capacity.
pub open spec fn logged(before: Logger, after: Logger, level: LogLevel, message: Seq<char>) -> bool {
    &&& after.wf()
    &&& after.capacity() == before.capacity()
    &&& after.entries() == keep_last(
        before.entries().push(after.entries().last()),
        before.capacity(),
    )
    &&& after.entries().len() > 0 ==> after.entries().last().level_spec() == level
        && after.entries().last().message_spec() == message
    &&& after.records() == keep_last(before.records().push((level, message)), before.capacity())
}

/// A log that keeps its most recent entries, up to a fixed number.
pub struct Logger {
    logs: VecDeque<LogEntry>,
    max_logs: usize,
}

impl Logger {
    /// The entries kept, oldest first.
    pub closed spec fn entries(&self) -> Seq<LogEntry> {
        self.logs@
    }

    /// The level and message of each entry kept, oldest first.
    pub open spec fn records(&self) -> Seq<(LogLevel, Seq<char>)> {
        self.entries().map_values(|e: LogEntry| record_of(e))
    }

    /// The most entries this log keeps.
    pub closed spec fn capacity(&self) -> nat {
        self.max_logs as nat
    }

    pub closed spec fn wf(&self) -> bool {
        self.logs@.len() <= self.max_logs
    }

    /// An empty log that keeps up to [`DEFAULT_MAX_LOGS`] entries.
    pub fn new() -> (r: Logger)
        ensures
            r.wf(),
            r.entries().len() == 0,
            r.capacity() == DEFAULT_MAX_LOGS,
    {
        Logger::with_max_logs(DEFAULT_MAX_LOGS)
    }

    /// An empty log that keeps up to `max_logs` entries.
    pub fn with_max_logs(max_logs: usize) -> (r: Logger)
        ensures
            r.wf(),
            r.entries().len() == 0,
            r.capacity() == max_logs,
    {
        Logger { logs: VecDeque::new(), max_logs }
    }

    /// Appends an entry stamped `timestamp`, then drops the oldest entries
    /// beyond the capacity.
    pub fn log_at(&mut self, level: LogLevel, message: &str, timestamp: SystemTime)
        requires
            old(self).wf(),
        ensures
            logged(*old(self), *final(self), level, message@),
            final(self).entries().len() > 0 ==> final(self).entries().last().timestamp_spec()
                == timestamp,
    {
        let entry = LogEntry { timestamp, level, message: String::from_str(message) };
        let ghost pushed = self.logs@.push(entry);
        self.logs.push_back(entry);
        assert(self.logs@ == pushed);
        let ghost mut dropped: int = 0;
        while self.logs.len() > self.max_logs
            invariant
                0 <= dropped <= pushed.len(),
                self.logs@ == pushed.subrange(dropped, pushed.len() as int),
                pushed.len() <= self.max_logs + 1,
                dropped > 0 ==> pushed.len() - dropped == self.max_logs,
                self.max_logs == old(self).max_logs,
            decreases self.logs@.len(),
        {
            self.logs.pop_front();
            proof {
                dropped = dropped + 1;
            }
        }
        proof {
            let ks = keep_last(pushed, self.max_logs as nat);
            assert(self.logs@ =~= ks);
            let before = old(self).records().push((level, message@));
            assert(before =~= pushed.map_values(|e: LogEntry| record_of(e)));
            assert(self.records() =~= keep_last(before, self.max_logs as nat));
            let x = self.logs@.last();
            if self.logs@.len() > 0 {
                assert(x == entry);
                assert(old(self).logs@.push(x) == pushed);
            } else {
                assert(keep_last(old(self).logs@.push(x), self.max_logs as nat) =~= self.logs@);
            }
        }
    }

    /// Appends an entry stamped with the current time; see [`Logger::log_at`].
    pub fn log(&mut self, level: LogLevel, message: &str)
        requires
            old(self).wf(),
        ensures
            logged(*old(self), *final(self), level, message@),
    {
        let now = SystemTime::now();
        self.log_at(level, message, now);
    }

    pub fn info(&mut self, message: &str)
        requires
            old(self).wf(),
        ensures
            logged(*old(self), *final(self), LogLevel::Info, message@),
    {
        self.log(LogLevel::Info, message);
    }

    pub fn warning(&mut self, message: &str)
        requires
            old(self).wf(),
        ensures
            logged(*old(self), *final(self), LogLevel::Warning, message@),
    {
        self.log(LogLevel::Warning, message);
    }

    pub fn error(&mut self, message: &str)
        requires
            old(self).wf(),
        ensures
            logged(*old(self), *final(self), LogLevel::Error, message@),
    {
        self.log(LogLevel::Error, message);
    }

    pub fn debug(&mut self, message: &str)
        requires
            old(self).wf(),
        ensures
            logged(*old(self), *final(self), LogLevel::Debug, message@),
    {
        self.log(LogLevel::Debug, message);
    }

    /// Up to `count` of the kept entries, newest first.
    pub fn get_recent_logs(&self, count: usize) -> (r: Vec<&LogEntry>)
        ensures
            r@.len() == newest_first(self.entries(), count as nat).len(),
            forall|i: int|
                0 <= i < r@.len() ==> *#[trigger] r@[i] == newest_first(
                    self.entries(),
                    count as nat,
                )[i],
    {
        let n = self.logs.len();
        let mut r: Vec<&LogEntry> = Vec::new();
        let mut i: usize = 0;
        while i < count && i < n
            invariant
                n == self.logs@.len(),
                i <= n,
                i <= count,
                r@.len() == i,
                forall|j: int| 0 <= j < i ==> *#[trigger] r@[j] == self.logs@[n - 1 - j],
            decreases n - i,
        {
            r.push(&self.logs[n - 1 - i]);
            i = i + 1;
        }
        assert(r@.len() == newest_first(self.entries(), count as nat).len());
        r
    }
}

} // verus!
