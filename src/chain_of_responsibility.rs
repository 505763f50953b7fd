use vstd::prelude::*;
use vstd::string::*;

verus! {

/// The largest amount a manager approves.
pub const MANAGER_LIMIT: u32 = 1000;

/// The largest amount a director approves.
pub const DIRECTOR_LIMIT: u32 = 10000;

/// The largest amount the CEO approves; anything larger is rejected.
pub const CEO_LIMIT: u32 = 100000;

/// A request for approval of a spending amount.
pub struct Request {
    pub amount: u32,
    pub description: String,
}

impl Request {
    pub fn new(amount: u32, description: &str) -> (r: Request)
        ensures
            r.amount == amount,
            r.description@ == description@,
    {
        Request { amount, description: String::from_str(description) }
    }
}

/// The text an optional string holds, if any.
pub open spec fn opt_text(o: Option<String>) -> Option<Seq<char>> {
    match o {
        Some(s) => Some(s@),
        None => None,
    }
}

/// One link in an approval chain.
pub trait Handler {
    /// The answer this link and the links after it give: an approval or
    /// rejection message, or nothing when no link decides.
    spec fn decision(&self, amount: u32, description: Seq<char>) -> Option<Seq<char>>;

    /// The answer to `request` from this link or the links after it.
    fn handle(&self, request: &Request) -> (r: Option<String>)
        ensures
            opt_text(r) == self.decision(request.amount, request.description@),
    ;
}

/// `a` when it holds an answer, else `b`.
pub open spec fn first_of(a: Option<Seq<char>>, b: Option<Seq<char>>) -> Option<Seq<char>> {
    match a {
        Some(m) => Some(m),
        None => b,
    }
}

/// The answer of a link that approves up to `limit` and otherwise defers.
pub open spec fn approval_below(
    limit: u32,
    approver: Seq<char>,
    amount: u32,
    description: Seq<char>,
) -> Option<Seq<char>> {
    if amount <= limit {
        Some(approval(approver, description))
    } else {
        None
    }
}

/// What the successor `next`, if any, answers.
pub open spec fn successor_decision<N: Handler>(
    next: Option<N>,
    amount: u32,
    description: Seq<char>,
) -> Option<Seq<char>> {
    match next {
        Some(h) => h.decision(amount, description),
        None => None,
    }
}

/// The message of an approval by `approver`.
pub open spec fn approval(approver: Seq<char>, description: Seq<char>) -> Seq<char> {
    "✅ "@ + approver + " approved: "@ + description
}

/// The message of a rejection by the end of the chain.
pub open spec fn rejection() -> Seq<char> {
    "❌ Request rejected: amount too large"@
}

fn approval_message(approver: &str, description: &String) -> (r: String)
    ensures
        r@ == approval(approver@, description@),
{
    let mut s = String::from_str("✅ ");
    s.append(approver);
    s.append(" approved: ");
    s.append(description.as_str());
    s
}

/// Approves amounts up to [`MANAGER_LIMIT`] and passes larger ones to its
/// successor, a handler of type `N`.
pub struct ManagerHandler<N: Handler> {
    next: Option<N>,
}

impl<N: Handler> ManagerHandler<N> {
    /// A manager with no successor yet.
    pub fn new() -> (r: Self)
        ensures
            r.next_spec() is None,
            forall|a: u32, d: Seq<char>| #[trigger]
                r.decision(a, d) == approval_below(MANAGER_LIMIT, "Manager"@, a, d),
    {
        ManagerHandler { next: None }
    }

    /// The successor linked, if any.
    pub closed spec fn next_spec(&self) -> Option<N> {
        self.next
    }

    /// Hands the requests this link does not approve to `next`.
    pub fn set_next(&mut self, next: N)
        ensures
            final(self).next_spec() == Some(next),
            forall|a: u32, d: Seq<char>| #[trigger]
                final(self).decision(a, d) == first_of(
                    approval_below(MANAGER_LIMIT, "Manager"@, a, d),
                    next.decision(a, d),
                ),
    {
        self.next = Some(next);
    }
}

impl<N: Handler> Handler for ManagerHandler<N> {
    closed spec fn decision(&self, amount: u32, description: Seq<char>) -> Option<Seq<char>> {
        first_of(
            approval_below(MANAGER_LIMIT, "Manager"@, amount, description),
            successor_decision(self.next, amount, description),
        )
    }

    fn handle(&self, request: &Request) -> (r: Option<String>) {
        if request.amount <= MANAGER_LIMIT {
            Some(approval_message("Manager", &request.description))
        } else {
            match &self.next {
                Some(h) => h.handle(request),
                None => None,
            }
        }
    }
}

/// Approves amounts up to [`DIRECTOR_LIMIT`] and passes larger ones to its
/// successor, a handler of type `N`.
pub struct DirectorHandler<N: Handler> {
    next: Option<N>,
}

impl<N: Handler> DirectorHandler<N> {
    /// A director with no successor yet.
    pub fn new() -> (r: Self)
        ensures
            r.next_spec() is None,
            forall|a: u32, d: Seq<char>| #[trigger]
                r.decision(a, d) == approval_below(DIRECTOR_LIMIT, "Director"@, a, d),
    {
        DirectorHandler { next: None }
    }

    /// The successor linked, if any.
    pub closed spec fn next_spec(&self) -> Option<N> {
        self.next
    }

    /// Hands the requests this link does not approve to `next`.
    pub fn set_next(&mut self, next: N)
        ensures
            final(self).next_spec() == Some(next),
            forall|a: u32, d: Seq<char>| #[trigger]
                final(self).decision(a, d) == first_of(
                    approval_below(DIRECTOR_LIMIT, "Director"@, a, d),
                    next.decision(a, d),
                ),
    {
        self.next = Some(next);
    }
}

impl<N: Handler> Handler for DirectorHandler<N> {
    closed spec fn decision(&self, amount: u32, description: Seq<char>) -> Option<Seq<char>> {
        first_of(
            approval_below(DIRECTOR_LIMIT, "Director"@, amount, description),
            successor_decision(self.next, amount, description),
        )
    }

    fn handle(&self, request: &Request) -> (r: Option<String>) {
        if request.amount <= DIRECTOR_LIMIT {
            Some(approval_message("Director", &request.description))
        } else {
            match &self.next {
                Some(h) => h.handle(request),
                None => None,
            }
        }
    }
}

/// The end of the chain: approves amounts up to [`CEO_LIMIT`] and rejects the rest.
pub struct CEOHandler;

/// What the CEO answers to a request.
pub open spec fn ceo_decision(amount: u32, description: Seq<char>) -> Seq<char> {
    if amount <= CEO_LIMIT {
        approval("CEO"@, description)
    } else {
        rejection()
    }
}

impl CEOHandler {
    pub fn new() -> (r: Self)
        ensures
            forall|a: u32, d: Seq<char>| #[trigger] r.decision(a, d) == Some(ceo_decision(a, d)),
    {
        CEOHandler
    }

    /// The CEO is the last link: a successor is ignored.
    pub fn set_next<N: Handler>(&mut self, next: N)
        ensures
            *final(self) == *old(self),
    {
    }
}

impl Handler for CEOHandler {
    open spec fn decision(&self, amount: u32, description: Seq<char>) -> Option<Seq<char>> {
        Some(ceo_decision(amount, description))
    }

    fn handle(&self, request: &Request) -> (r: Option<String>) {
        if request.amount <= CEO_LIMIT {
            Some(approval_message("CEO", &request.description))
        } else {
            Some(String::from_str("❌ Request rejected: amount too large"))
        }
    }
}

/// The answer of the full approval chain: the first of the three limits
/// that the amount fits under approves it, and an amount above all three is
/// rejected.
pub open spec fn escalation(amount: u32, description: Seq<char>) -> Seq<char> {
    if amount <= MANAGER_LIMIT {
        approval("Manager"@, description)
    } else if amount <= DIRECTOR_LIMIT {
        approval("Director"@, description)
    } else if amount <= CEO_LIMIT {
        approval("CEO"@, description)
    } else {
        rejection()
    }
}

/// A manager, then a director, then the CEO.
pub fn approval_chain() -> (r: ManagerHandler<DirectorHandler<CEOHandler>>)
    ensures
        forall|a: u32, d: Seq<char>| #[trigger] r.decision(a, d) == Some(escalation(a, d)),
{
    let mut director: DirectorHandler<CEOHandler> = DirectorHandler::new();
    director.set_next(CEOHandler::new());
    let mut manager = ManagerHandler::new();
    manager.set_next(director);
    manager
}

} // verus!
