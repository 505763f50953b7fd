use vstd::prelude::*;
use vstd::string::*;

verus! {

/// A saved copy of an [`Originator`]'s state.
pub struct Memento {
    state: String,
}

impl Memento {
    pub closed spec fn saved(&self) -> Seq<char> {
        self.state@
    }

    pub fn new(state: &str) -> (r: Memento)
        ensures
            r.saved() == state@,
    {
        Memento { state: String::from_str(state) }
    }

    pub fn get_state(&self) -> (r: &str)
        ensures
            r@ == self.saved(),
    {
        self.state.as_str()
    }
}

/// An object whose state can be saved to and restored from a [`Memento`].
pub struct Originator {
    state: String,
}

impl Originator {
    pub closed spec fn current(&self) -> Seq<char> {
        self.state@
    }

    pub fn new(state: &str) -> (r: Originator)
        ensures
            r.current() == state@,
    {
        Originator { state: String::from_str(state) }
    }

    pub fn set_state(&mut self, state: &str)
        ensures
            final(self).current() == state@,
    {
        self.state = String::from_str(state);
    }

    pub fn get_state(&self) -> (r: &str)
        ensures
            r@ == self.current(),
    {
        self.state.as_str()
    }

    pub fn create_memento(&self) -> (r: Memento)
        ensures
            r.saved() == self.current(),
    {
        Memento::new(self.state.as_str())
    }

    pub fn restore_from_memento(&mut self, memento: &Memento)
        ensures
            final(self).current() == memento.saved(),
    {
        self.state = String::from_str(memento.get_state());
    }
}

/// Keeps mementos in the order they were saved.
pub struct Caretaker {
    mementos: Vec<Memento>,
}

impl Caretaker {
    /// The states saved, oldest first.
    pub closed spec fn saves(&self) -> Seq<Seq<char>> {
        self.mementos@.map_values(|m: Memento| m.saved())
    }

    pub fn new() -> (r: Caretaker)
        ensures
            r.saves().len() == 0,
    {
        Caretaker { mementos: Vec::new() }
    }

    pub fn add_memento(&mut self, memento: Memento)
        ensures
            final(self).saves() == old(self).saves().push(memento.saved()),
    {
        self.mementos.push(memento);
        assert(self.saves() =~= old(self).saves().push(memento.saved()));
    }

    /// The memento saved `index`-th, counting from zero.
    pub fn get_memento(&self, index: usize) -> (r: Option<&Memento>)
        ensures
            index < self.saves().len() <==> r is Some,
            r is Some ==> r->0.saved() == self.saves()[index as int],
    {
        if index < self.mementos.len() {
            Some(&self.mementos[index])
        } else {
            None
        }
    }

    pub fn get_save_count(&self) -> (r: usize)
        ensures
            r == self.saves().len(),
    {
        self.mementos.len()
    }
}

} // verus!
