use vstd::prelude::*;
use vstd::string::*;

verus! {

/// Whether `p` occurs in `s` starting at position `j`.
pub open spec fn occurs_at(s: Seq<char>, p: Seq<char>, j: int) -> bool {
    0 <= j && j + p.len() <= s.len() && s.subrange(j, j + p.len()) == p
}

/// `s` with every occurrence of `p` taken out, scanning from the left and
/// resuming after each one removed.
pub open spec fn strip_all(s: Seq<char>, p: Seq<char>) -> Seq<char>
    decreases s.len(),
{
    if p.len() == 0 || s.len() == 0 {
        s
    } else if occurs_at(s, p, 0) {
        strip_all(s.subrange(p.len() as int, s.len() as int), p)
    } else {
        seq![s[0]] + strip_all(s.subrange(1, s.len() as int), p)
    }
}

/// Skipping positions where `p` does not occur keeps their characters.
proof fn lemma_strip_skip(s: Seq<char>, p: Seq<char>, start: int, i: int)
    requires
        p.len() > 0,
        0 <= start <= i <= s.len(),
        forall|j: int| start <= j < i ==> !occurs_at(s, p, j),
    ensures
        strip_all(s.subrange(start, s.len() as int), p) == s.subrange(start, i) + strip_all(
            s.subrange(i, s.len() as int),
            p,
        ),
    decreases i - start,
{
    let t = s.subrange(start, s.len() as int);
    if start == i {
        assert(s.subrange(start, i) =~= Seq::<char>::empty());
        assert(Seq::<char>::empty() + strip_all(s.subrange(i, s.len() as int), p) =~= strip_all(
            s.subrange(i, s.len() as int),
            p,
        ));
    } else {
        assert(!occurs_at(s, p, start));
        if occurs_at(t, p, 0) {
            assert(t.subrange(0, p.len() as int) =~= s.subrange(start, start + p.len()));
        }
        assert(t.subrange(1, t.len() as int) =~= s.subrange(start + 1, s.len() as int));
        lemma_strip_skip(s, p, start + 1, i);
        assert(s.subrange(start, i) =~= seq![s[start]] + s.subrange(start + 1, i));
    }
}

/// Removing an occurrence at `i` continues after it.
proof fn lemma_strip_match(s: Seq<char>, p: Seq<char>, i: int)
    requires
        p.len() > 0,
        occurs_at(s, p, i),
    ensures
        strip_all(s.subrange(i, s.len() as int), p) == strip_all(
            s.subrange(i + p.len(), s.len() as int),
            p,
        ),
{
    let t = s.subrange(i, s.len() as int);
    assert(t.subrange(0, p.len() as int) =~= s.subrange(i, i + p.len()));
    assert(t.subrange(p.len() as int, t.len() as int) =~= s.subrange(i + p.len(), s.len() as int));
}

fn occurs_here(s: &str, n: usize, p: &str, m: usize, i: usize) -> (r: bool)
    requires
        n == s@.len(),
        m == p@.len(),
        i <= n,
    ensures
        r == occurs_at(s@, p@, i as int),
{
    if m > n - i {
        return false;
    }
    let mut k: usize = 0;
    while k < m
        invariant
            m <= n - i,
            n == s@.len(),
            m == p@.len(),
            k <= m,
            forall|j: int| 0 <= j < k ==> s@[i + j] == p@[j],
        decreases m - k,
    {
        if s.get_char(i + k) != p.get_char(k) {
            assert(s@.subrange(i as int, i + m)[k as int] != p@[k as int]);
            return false;
        }
        k = k + 1;
    }
    assert(s@.subrange(i as int, i + m) =~= p@);
    true
}

/// `s` with every occurrence of `p` removed, as `str::replace(p, "")` does;
/// an empty `p` leaves `s` as it is.
pub fn remove_all(s: &str, p: &str) -> (r: String)
    ensures
        r@ == strip_all(s@, p@),
{
    let n = s.unicode_len();
    let m = p.unicode_len();
    if m == 0 {
        return String::from_str(s);
    }
    let mut out = String::new();
    let mut start: usize = 0;
    let mut i: usize = 0;
    assert(s@.subrange(0, n as int) =~= s@);
    while i < n
        invariant
            n == s@.len(),
            m == p@.len(),
            m > 0,
            start <= i <= n,
            forall|j: int| start <= j < i ==> !occurs_at(s@, p@, j),
            out@ + strip_all(s@.subrange(start as int, n as int), p@) == strip_all(s@, p@),
        decreases n - i,
    {
        if occurs_here(s, n, p, m, i) {
            proof {
                lemma_strip_skip(s@, p@, start as int, i as int);
                lemma_strip_match(s@, p@, i as int);
            }
            let kept = s.substring_char(start, i);
            let ghost before = out@;
            out.append(kept);
            assert(out@ + strip_all(s@.subrange(i + m, n as int), p@) =~= before + (s@.subrange(
                start as int,
                i as int,
            ) + strip_all(s@.subrange(i + m, n as int), p@)));
            i = i + m;
            start = i;
        } else {
            i = i + 1;
        }
    }
    proof {
        lemma_strip_skip(s@, p@, start as int, n as int);
        assert(s@.subrange(n as int, n as int) =~= Seq::<char>::empty());
    }
    let ghost before = out@;
    out.append(s.substring_char(start, n));
    assert(out@ =~= before + (s@.subrange(start as int, n as int) + strip_all(
        s@.subrange(n as int, n as int),
        p@,
    )));
    out
}

/// The legacy printer, which marks its output with a prefix.
pub struct OldPrinter {
    text: String,
}

/// What the legacy printer prints for `text`.
pub open spec fn old_format(text: Seq<char>) -> Seq<char> {
    "OLD: "@ + text
}

/// What the modern printer prints for `text`.
pub open spec fn modern_format(text: Seq<char>) -> Seq<char> {
    "MODERN: "@ + text
}

impl OldPrinter {
    pub closed spec fn text_spec(&self) -> Seq<char> {
        self.text@
    }

    pub fn new(text: &str) -> (r: Self)
        ensures
            r.text_spec() == text@,
    {
        OldPrinter { text: String::from_str(text) }
    }

    pub fn print_old_format(&self) -> (r: String)
        ensures
            r@ == old_format(self.text_spec()),
    {
        let mut s = String::from_str("OLD: ");
        s.append(self.text.as_str());
        s
    }
}

/// The interface new code prints through.
pub trait ModernPrinter {
    spec fn printed(&self) -> Seq<char>;

    fn print(&self) -> (r: String)
        ensures
            r@ == self.printed(),
    ;
}

/// Makes an [`OldPrinter`] usable as a [`ModernPrinter`] by removing the
/// legacy marker from its output.
pub struct PrinterAdapter {
    old_printer: OldPrinter,
}

impl PrinterAdapter {
    pub closed spec fn adaptee(&self) -> OldPrinter {
        self.old_printer
    }

    pub fn new(text: &str) -> (r: Self)
        ensures
            r.adaptee().text_spec() == text@,
    {
        PrinterAdapter { old_printer: OldPrinter::new(text) }
    }
}

impl ModernPrinter for PrinterAdapter {
    open spec fn printed(&self) -> Seq<char> {
        strip_all(old_format(self.adaptee().text_spec()), "OLD: "@)
    }

    fn print(&self) -> (r: String) {
        let old = self.old_printer.print_old_format();
        proof {
            reveal_strlit("OLD: ");
        }
        remove_all(old.as_str(), "OLD: ")
    }
}

/// A printer written for the new interface.
pub struct ModernPrinterImpl {
    text: String,
}

impl ModernPrinterImpl {
    pub closed spec fn text_spec(&self) -> Seq<char> {
        self.text@
    }

    pub fn new(text: &str) -> (r: Self)
        ensures
            r.text_spec() == text@,
    {
        ModernPrinterImpl { text: String::from_str(text) }
    }
}

impl ModernPrinter for ModernPrinterImpl {
    open spec fn printed(&self) -> Seq<char> {
        modern_format(self.text_spec())
    }

    fn print(&self) -> (r: String) {
        let mut s = String::from_str("MODERN: ");
        s.append(self.text.as_str());
        s
    }
}

} // verus!
