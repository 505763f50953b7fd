use vstd::prelude::*;

verus! {

/// A lamp that is either on or off.
pub struct Light {
    is_on: bool,
}

impl Light {
    pub closed spec fn on(&self) -> bool {
        self.is_on
    }

    /// A light that is off.
    pub fn new() -> (r: Light)
        ensures
            !r.on(),
    {
        Light { is_on: false }
    }

    pub fn turn_on(&mut self)
        ensures
            final(self).on(),
    {
        self.is_on = true;
    }

    pub fn turn_off(&mut self)
        ensures
            !final(self).on(),
    {
        self.is_on = false;
    }

    pub fn is_on(&self) -> (r: bool)
        ensures
            r == self.on(),
    {
        self.is_on
    }
}

/// An action on a [`Light`] that can be carried out and taken back.
pub trait Command {
    /// Whether the light is on after this command runs on a light that was `on`.
    spec fn executed(&self, on: bool) -> bool;

    /// Whether the light is on after this command is undone on a light that was `on`.
    spec fn undone(&self, on: bool) -> bool;

    spec fn name_spec(&self) -> Seq<char>;

    fn execute(&self, light: &mut Light)
        ensures
            final(light).on() == self.executed(old(light).on()),
    ;

    fn undo(&self, light: &mut Light)
        ensures
            final(light).on() == self.undone(old(light).on()),
    ;

    fn name(&self) -> (r: &str)
        ensures
            r@ == self.name_spec(),
    ;
}

/// Switches the light on; undoing switches it off.
pub struct TurnOnCommand;

impl TurnOnCommand {
    pub fn new() -> (r: Self) {
        TurnOnCommand
    }
}

impl Command for TurnOnCommand {
    open spec fn executed(&self, on: bool) -> bool {
        true
    }

    open spec fn undone(&self, on: bool) -> bool {
        false
    }

    open spec fn name_spec(&self) -> Seq<char> {
        "Turn On"@
    }

    fn execute(&self, light: &mut Light) {
        light.turn_on();
    }

    fn undo(&self, light: &mut Light) {
        light.turn_off();
    }

    fn name(&self) -> (r: &str) {
        "Turn On"
    }
}

/// Switches the light off; undoing switches it on.
pub struct TurnOffCommand;

impl TurnOffCommand {
    pub fn new() -> (r: Self) {
        TurnOffCommand
    }
}

impl Command for TurnOffCommand {
    open spec fn executed(&self, on: bool) -> bool {
        false
    }

    open spec fn undone(&self, on: bool) -> bool {
        true
    }

    open spec fn name_spec(&self) -> Seq<char> {
        "Turn Off"@
    }

    fn execute(&self, light: &mut Light) {
        light.turn_off();
    }

    fn undo(&self, light: &mut Light) {
        light.turn_on();
    }

    fn name(&self) -> (r: &str) {
        "Turn Off"
    }
}

/// Either light command, so that one remote can hold both.
pub enum LightCommand {
    On(TurnOnCommand),
    Off(TurnOffCommand),
}

impl Command for LightCommand {
    open spec fn executed(&self, on: bool) -> bool {
        match self {
            LightCommand::On(c) => c.executed(on),
            LightCommand::Off(c) => c.executed(on),
        }
    }

    open spec fn undone(&self, on: bool) -> bool {
        match self {
            LightCommand::On(c) => c.undone(on),
            LightCommand::Off(c) => c.undone(on),
        }
    }

    open spec fn name_spec(&self) -> Seq<char> {
        match self {
            LightCommand::On(c) => c.name_spec(),
            LightCommand::Off(c) => c.name_spec(),
        }
    }

    fn execute(&self, light: &mut Light) {
        match self {
            LightCommand::On(c) => c.execute(light),
            LightCommand::Off(c) => c.execute(light),
        }
    }

    fn undo(&self, light: &mut Light) {
        match self {
            LightCommand::On(c) => c.undo(light),
            LightCommand::Off(c) => c.undo(light),
        }
    }

    fn name(&self) -> (r: &str) {
        match self {
            LightCommand::On(c) => c.name(),
            LightCommand::Off(c) => c.name(),
        }
    }
}

/// The state of the light after each of `steps` in turn, starting from `on`;
/// each step is carried out, or undone when `undo` holds.
pub open spec fn trace<C: Command>(steps: Seq<C>, on: bool, undo: bool) -> Seq<bool>
    decreases steps.len(),
{
    if steps.len() == 0 {
        Seq::empty()
    } else {
        let before = trace(steps.drop_last(), on, undo);
        let prev = if before.len() == 0 {
            on
        } else {
            before.last()
        };
        before.push(if undo { steps.last().undone(prev) } else { steps.last().executed(prev) })
    }
}

/// The state a trace ends in, `on` when it is empty.
pub open spec fn end_state(t: Seq<bool>, on: bool) -> bool {
    if t.len() == 0 {
        on
    } else {
        t.last()
    }
}

/// Holds commands and runs them as a batch.
pub struct RemoteControl<C: Command> {
    commands: Vec<C>,
}

impl<C: Command> RemoteControl<C> {
    /// The commands held, in the order they were added.
    pub closed spec fn held(&self) -> Seq<C> {
        self.commands@
    }

    pub fn new() -> (r: Self)
        ensures
            r.held().len() == 0,
    {
        RemoteControl { commands: Vec::new() }
    }

    pub fn add_command(&mut self, command: C)
        ensures
            final(self).held() == old(self).held().push(command),
    {
        self.commands.push(command);
    }

    /// Carries out every command in the order added; returns whether the
    /// light was on after each one.
    pub fn execute_all(&self, light: &mut Light) -> (r: Vec<bool>)
        ensures
            r@ == trace(self.held(), old(light).on(), false),
            final(light).on() == end_state(r@, old(light).on()),
    {
        let ghost start = light.on();
        let mut out: Vec<bool> = Vec::new();
        let mut i: usize = 0;
        while i < self.commands.len()
            invariant
                i <= self.commands@.len(),
                out@ == trace(self.commands@.subrange(0, i as int), start, false),
                light.on() == end_state(out@, start),
            decreases self.commands@.len() - i,
        {
            let ghost next = self.commands@.subrange(0, i as int + 1);
            assert(next.drop_last() =~= self.commands@.subrange(0, i as int));
            self.commands[i].execute(light);
            out.push(light.is_on());
            i = i + 1;
        }
        assert(self.commands@.subrange(0, self.commands@.len() as int) =~= self.commands@);
        out
    }

    /// Undoes every command, the last added first; returns whether the light
    /// was on after each one.
    pub fn undo_all(&self, light: &mut Light) -> (r: Vec<bool>)
        ensures
            r@ == trace(self.held().reverse(), old(light).on(), true),
            final(light).on() == end_state(r@, old(light).on()),
    {
        let ghost start = light.on();
        let ghost rev = self.commands@.reverse();
        let n = self.commands.len();
        let mut out: Vec<bool> = Vec::new();
        let mut k: usize = 0;
        while k < n
            invariant
                n == self.commands@.len(),
                rev == self.commands@.reverse(),
                k <= n,
                out@ == trace(rev.subrange(0, k as int), start, true),
                light.on() == end_state(out@, start),
            decreases n - k,
        {
            let ghost next = rev.subrange(0, k as int + 1);
            assert(next.drop_last() =~= rev.subrange(0, k as int));
            assert(next.last() == self.commands@[n - 1 - k]);
            self.commands[n - 1 - k].undo(light);
            out.push(light.is_on());
            k = k + 1;
        }
        assert(rev.subrange(0, n as int) =~= rev);
        out
    }
}

} // verus!
