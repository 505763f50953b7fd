use vstd::prelude::*;
use vstd::string::*;

verus! {

/// A published news item.
#[derive(Debug, Clone)]
pub struct NewsEvent {
    pub id: u32,
    pub title: String,
    pub content: String,
    pub category: String,
}

/// The text an optional string holds, if any.
pub open spec fn opt_text(o: Option<String>) -> Option<Seq<char>> {
    match o {
        Some(s) => Some(s@),
        None => None,
    }
}

/// Something that is told about every published [`NewsEvent`].
pub trait Observer {
    spec fn name_spec(&self) -> Seq<char>;

    /// The notification this observer sends for an event titled `title` in
    /// `category`, or nothing when it ignores the event.
    spec fn notice(&self, title: Seq<char>, category: Seq<char>) -> Option<Seq<char>>;

    fn update(&self, event: &NewsEvent) -> (r: Option<String>)
        ensures
            opt_text(r) == self.notice(event.title@, event.category@),
    ;

    fn get_name(&self) -> (r: &str)
        ensures
            r@ == self.name_spec(),
    ;
}

/// Whether one of `list` reads `c`.
pub open spec fn lists(list: Seq<String>, c: Seq<char>) -> bool {
    exists|i: int| 0 <= i < list.len() && (#[trigger] list[i])@ == c
}

fn contains_text(list: &Vec<String>, c: &String) -> (r: bool)
    ensures
        r == lists(list@, c@),
{
    let mut i: usize = 0;
    while i < list.len()
        invariant
            i <= list@.len(),
            forall|j: int| 0 <= j < i ==> (#[trigger] list@[j])@ != c@,
        decreases list@.len() - i,
    {
        if list[i] == *c {
            return true;
        }
        i = i + 1;
    }
    false
}

/// `a`, then `b`, then `c`, then `d`, then `e`, then `f` joined.
fn join6(a: &str, b: &String, c: &str, d: &String, e: &str, f: &String) -> (r: String)
    ensures
        r@ == a@ + b@ + c@ + d@ + e@ + f@,
{
    let mut s = String::from_str(a);
    s.append(b.as_str());
    s.append(c);
    s.append(d.as_str());
    s.append(e);
    s.append(f.as_str());
    s
}

/// The e-mail notification about `title` sent to `email` for `name`.
pub open spec fn email_text(email: Seq<char>, name: Seq<char>, title: Seq<char>) -> Seq<char> {
    "📧 Email sent to "@ + email + " ("@ + name + ") about: "@ + title
}

/// The text message about `title` sent to `phone` for `name`.
pub open spec fn sms_text(phone: Seq<char>, name: Seq<char>, title: Seq<char>) -> Seq<char> {
    "📱 SMS sent to "@ + phone + " ("@ + name + ") about: "@ + title
}

/// Mails events in its categories, or every event when it names none.
pub struct EmailNotifier {
    name: String,
    email: String,
    categories: Vec<String>,
}

impl EmailNotifier {
    pub closed spec fn email_spec(&self) -> Seq<char> {
        self.email@
    }

    pub closed spec fn categories_spec(&self) -> Seq<String> {
        self.categories@
    }

    pub fn new(name: &str, email: &str, categories: Vec<String>) -> (r: Self)
        ensures
            r.name_spec() == name@,
            r.email_spec() == email@,
            r.categories_spec() == categories@,
    {
        EmailNotifier {
            name: String::from_str(name),
            email: String::from_str(email),
            categories,
        }
    }
}

impl Observer for EmailNotifier {
    closed spec fn name_spec(&self) -> Seq<char> {
        self.name@
    }

    open spec fn notice(&self, title: Seq<char>, category: Seq<char>) -> Option<Seq<char>> {
        if self.categories_spec().len() == 0 || lists(self.categories_spec(), category) {
            Some(email_text(self.email_spec(), self.name_spec(), title))
        } else {
            None
        }
    }

    fn update(&self, event: &NewsEvent) -> (r: Option<String>) {
        if self.categories.len() == 0 || contains_text(&self.categories, &event.category) {
            Some(join6("📧 Email sent to ", &self.email, " (", &self.name, ") about: ", &event.title))
        } else {
            None
        }
    }

    fn get_name(&self) -> (r: &str) {
        self.name.as_str()
    }
}

/// Texts events in its priority categories only.
pub struct SMSSender {
    name: String,
    phone: String,
    priority_categories: Vec<String>,
}

impl SMSSender {
    pub closed spec fn phone_spec(&self) -> Seq<char> {
        self.phone@
    }

    pub closed spec fn categories_spec(&self) -> Seq<String> {
        self.priority_categories@
    }

    pub fn new(name: &str, phone: &str, priority_categories: Vec<String>) -> (r: Self)
        ensures
            r.name_spec() == name@,
            r.phone_spec() == phone@,
            r.categories_spec() == priority_categories@,
    {
        SMSSender {
            name: String::from_str(name),
            phone: String::from_str(phone),
            priority_categories,
        }
    }
}

impl Observer for SMSSender {
    closed spec fn name_spec(&self) -> Seq<char> {
        self.name@
    }

    open spec fn notice(&self, title: Seq<char>, category: Seq<char>) -> Option<Seq<char>> {
        if lists(self.categories_spec(), category) {
            Some(sms_text(self.phone_spec(), self.name_spec(), title))
        } else {
            None
        }
    }

    fn update(&self, event: &NewsEvent) -> (r: Option<String>) {
        if contains_text(&self.priority_categories, &event.category) {
            Some(join6("📱 SMS sent to ", &self.phone, " (", &self.name, ") about: ", &event.title))
        } else {
            None
        }
    }

    fn get_name(&self) -> (r: &str) {
        self.name.as_str()
    }
}

/// An email or a text-message observer, so that one subject can hold both.
pub enum Subscriber {
    Email(EmailNotifier),
    Sms(SMSSender),
}

impl Observer for Subscriber {
    open spec fn name_spec(&self) -> Seq<char> {
        match self {
            Subscriber::Email(e) => e.name_spec(),
            Subscriber::Sms(s) => s.name_spec(),
        }
    }

    open spec fn notice(&self, title: Seq<char>, category: Seq<char>) -> Option<Seq<char>> {
        match self {
            Subscriber::Email(e) => e.notice(title, category),
            Subscriber::Sms(s) => s.notice(title, category),
        }
    }

    fn update(&self, event: &NewsEvent) -> (r: Option<String>) {
        match self {
            Subscriber::Email(e) => e.update(event),
            Subscriber::Sms(s) => s.update(event),
        }
    }

    fn get_name(&self) -> (r: &str) {
        match self {
            Subscriber::Email(e) => e.get_name(),
            Subscriber::Sms(s) => s.get_name(),
        }
    }
}

/// The notifications `obs` send, in order, for an event titled `title` in `category`.
pub open spec fn notices<O: Observer>(
    obs: Seq<O>,
    title: Seq<char>,
    category: Seq<char>,
) -> Seq<Seq<char>>
    decreases obs.len(),
{
    if obs.len() == 0 {
        Seq::empty()
    } else {
        let before = notices(obs.drop_last(), title, category);
        match obs.last().notice(title, category) {
            Some(m) => before.push(m),
            None => before,
        }
    }
}

/// The observers of `obs` not named `name`, in order.
pub open spec fn without_name<O: Observer>(obs: Seq<O>, name: Seq<char>) -> Seq<O>
    decreases obs.len(),
{
    if obs.len() == 0 {
        Seq::empty()
    } else {
        let before = without_name(obs.drop_last(), name);
        if obs.last().name_spec() == name {
            before
        } else {
            before.push(obs.last())
        }
    }
}

/// Publishes news to the observers attached to it.
pub struct NewsSubject<O: Observer> {
    observers: Vec<O>,
    events: Vec<NewsEvent>,
    next_id: u32,
}

impl<O: Observer> NewsSubject<O> {
    /// The observers attached, in the order they were attached.
    pub closed spec fn watchers(&self) -> Seq<O> {
        self.observers@
    }

    /// The events published so far, oldest first.
    pub closed spec fn published(&self) -> Seq<NewsEvent> {
        self.events@
    }

    /// The id the next published event gets.
    pub closed spec fn next_id_spec(&self) -> u32 {
        self.next_id
    }

    pub fn new() -> (r: Self)
        ensures
            r.watchers().len() == 0,
            r.published().len() == 0,
            r.next_id_spec() == 1,
    {
        NewsSubject { observers: Vec::new(), events: Vec::new(), next_id: 1 }
    }

    /// Adds an observer after those already attached.
    pub fn attach(&mut self, observer: O)
        ensures
            final(self).watchers() == old(self).watchers().push(observer),
            final(self).published() == old(self).published(),
            final(self).next_id_spec() == old(self).next_id_spec(),
    {
        self.observers.push(observer);
    }

    /// How many observers are attached.
    pub fn observer_count(&self) -> (r: usize)
        ensures
            r == self.watchers().len(),
    {
        self.observers.len()
    }

    /// The id the next published event gets.
    pub fn next_id(&self) -> (r: u32)
        ensures
            r == self.next_id_spec(),
    {
        self.next_id
    }

    /// The events published so far, oldest first.
    pub fn events(&self) -> (r: &Vec<NewsEvent>)
        ensures
            r@ == self.published(),
    {
        &self.events
    }

    /// Removes every observer named `observer_name`, keeping the others in order.
    pub fn detach(&mut self, observer_name: &str)
        ensures
            final(self).watchers() == without_name(old(self).watchers(), observer_name@),
            final(self).published() == old(self).published(),
            final(self).next_id_spec() == old(self).next_id_spec(),
    {
        let ghost orig = self.observers@;
        let target = String::from_str(observer_name);
        let mut i: usize = 0;
        let mut done: usize = 0;
        let n = self.observers.len();
        while done < n
            invariant
                n == orig.len(),
                self.events@ == old(self).events@,
                self.next_id == old(self).next_id,
                orig == old(self).observers@,
                target@ == observer_name@,
                done <= orig.len(),
                i == without_name(orig.subrange(0, done as int), observer_name@).len(),
                self.observers@ == without_name(orig.subrange(0, done as int), observer_name@)
                    + orig.subrange(done as int, orig.len() as int),
            decreases orig.len() - done,
        {
            let ghost pre = orig.subrange(0, done as int);
            let ghost next = orig.subrange(0, done as int + 1);
            assert(next.drop_last() =~= pre);
            assert(next.last() == orig[done as int]);
            assert(self.observers@[i as int] == orig[done as int]);
            let len = self.observers.len();
            assert(i < len);
            let name = String::from_str(self.observers[i].get_name());
            if name == target {
                self.observers.remove(i);
                assert(self.observers@ =~= without_name(next, observer_name@) + orig.subrange(
                    done as int + 1,
                    orig.len() as int,
                ));
            } else {
                i = i + 1;
                assert(self.observers@ =~= without_name(next, observer_name@) + orig.subrange(
                    done as int + 1,
                    orig.len() as int,
                ));
            }
            done = done + 1;
        }
        assert(orig.subrange(0, orig.len() as int) =~= orig);
        assert(self.observers@ =~= without_name(orig, observer_name@));
    }

    /// The notifications the attached observers send for `event`, in the
    /// order they were attached.
    pub fn notify(&self, event: &NewsEvent) -> (r: Vec<String>)
        ensures
            r@.map_values(|s: String| s@) == notices(self.watchers(), event.title@, event.category@),
    {
        let mut out: Vec<String> = Vec::new();
        let mut i: usize = 0;
        while i < self.observers.len()
            invariant
                i <= self.observers@.len(),
                out@.map_values(|s: String| s@) == notices(
                    self.observers@.subrange(0, i as int),
                    event.title@,
                    event.category@,
                ),
            decreases self.observers@.len() - i,
        {
            let ghost pre = self.observers@.subrange(0, i as int);
            let ghost next = self.observers@.subrange(0, i as int + 1);
            assert(next.drop_last() =~= pre);
            match self.observers[i].update(event) {
                Some(m) => {
                    out.push(m);
                },
                None => {},
            }
            assert(out@.map_values(|s: String| s@) =~= notices(next, event.title@, event.category@));
            i = i + 1;
        }
        assert(self.observers@.subrange(0, self.observers@.len() as int) =~= self.observers@);
        out
    }

    /// Records a new event under the next id and returns the notifications
    /// the attached observers send for it.
    pub fn publish_news(&mut self, title: &str, content: &str, category: &str) -> (r: Vec<String>)
        requires
            old(self).next_id_spec() < u32::MAX,
        ensures
            final(self).next_id_spec() == old(self).next_id_spec() + 1,
            final(self).published().len() == old(self).published().len() + 1,
            final(self).published().subrange(0, old(self).published().len() as int)
                == old(self).published(),
            final(self).published().last().id == old(self).next_id_spec(),
            final(self).published().last().title@ == title@,
            final(self).published().last().content@ == content@,
            final(self).published().last().category@ == category@,
            final(self).watchers() == old(self).watchers(),
            r@.map_values(|s: String| s@) == notices(old(self).watchers(), title@, category@),
    {
        let event = NewsEvent {
            id: self.next_id,
            title: String::from_str(title),
            content: String::from_str(content),
            category: String::from_str(category),
        };
        self.next_id = self.next_id + 1;
        let sent = self.notify(&event);
        self.events.push(event);
        assert(self.events@.subrange(0, old(self).events@.len() as int) =~= old(self).events@);
        sent
    }
}

} // verus!
