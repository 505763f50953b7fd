use vstd::prelude::*;
use vstd::string::*;

verus! {

/// The three phases a [`Context`] moves through.
#[derive(Clone, Copy, Debug, PartialEq, Eq, Structural)]
pub enum State {
    Idle,
    Active,
    Processing,
}

/// The phase that follows `s`: idle, active, processing, and back to idle.
pub open spec fn next_state(s: State) -> State {
    match s {
        State::Idle => State::Active,
        State::Active => State::Processing,
        State::Processing => State::Idle,
    }
}

/// The label of the transition out of `s`.
pub open spec fn transition_label(s: State) -> Seq<char> {
    match s {
        State::Idle => "Idle → Active"@,
        State::Active => "Active → Processing"@,
        State::Processing => "Processing → Idle"@,
    }
}

/// Three requests bring a context back to the phase it started in, and no
/// fewer do.
pub proof fn lemma_three_requests_cycle(s: State)
    ensures
        next_state(next_state(next_state(s))) == s,
        next_state(s) != s,
        next_state(next_state(s)) != s,
{
}

/// A holder of a [`State`] that advances on every request.
pub struct Context {
    state: State,
}

impl Context {
    pub closed spec fn current(&self) -> State {
        self.state
    }

    /// A context in the idle phase.
    pub fn new() -> (r: Context)
        ensures
            r.current() == State::Idle,
    {
        Context { state: State::Idle }
    }

    pub fn set_state(&mut self, state: State)
        ensures
            final(self).current() == state,
    {
        self.state = state;
    }

    /// The current phase.
    pub fn state(&self) -> (r: State)
        ensures
            r == self.current(),
    {
        self.state
    }

    /// Moves to the next phase and returns the label of the transition made.
    pub fn request(&mut self) -> (r: String)
        ensures
            final(self).current() == next_state(old(self).current()),
            r@ == transition_label(old(self).current()),
    {
        match self.state {
            State::Idle => {
                self.set_state(State::Active);
                String::from_str("Idle → Active")
            },
            State::Active => {
                self.set_state(State::Processing);
                String::from_str("Active → Processing")
            },
            State::Processing => {
                self.set_state(State::Idle);
                String::from_str("Processing → Idle")
            },
        }
    }
}

} // verus!
