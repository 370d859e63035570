use vstd::prelude::*;

verus! {

/// Where diagnostic log output is written.
#[derive(Clone, Copy, Debug, PartialEq, Eq, Structural)]
pub enum Sink {
    Terminal,
    File,
}

/// The sink on the other side of `s`.
pub open spec fn opposite(s: Sink) -> Sink {
    match s {
        Sink::Terminal => Sink::File,
        Sink::File => Sink::Terminal,
    }
}

/// The key that switches the log sink while a line is being composed.
pub const TOGGLE_KEY: char = '`';

/// Two-state machine that decides where log output goes.
#[derive(Clone, Copy, Debug, PartialEq, Eq, Structural)]
pub struct OutputToggle {
    pub sink: Sink,
}

impl OutputToggle {
    /// A fresh toggle writes to the terminal.
    pub fn new() -> (r: OutputToggle)
        ensures
            r.sink == Sink::Terminal,
    {
        OutputToggle { sink: Sink::Terminal }
    }

    /// Switches to the other sink and returns the sink now in use.
    pub fn toggle(&mut self) -> (r: Sink)
        ensures
            final(self).sink == opposite(old(self).sink),
            r == final(self).sink,
    {
        let next = match self.sink {
            Sink::Terminal => Sink::File,
            Sink::File => Sink::Terminal,
        };
        self.sink = next;
        next
    }

    /// Reacts to the first key of an input event. The toggle key flips the
    /// sink and yields the sink entered; any other key leaves the state as it
    /// is and yields `None`, so that the editor handles it as usual.
    pub fn handle_key(&mut self, key: char) -> (r: Option<Sink>)
        ensures
            key == TOGGLE_KEY ==> final(self).sink == opposite(old(self).sink) && r == Some(
                final(self).sink,
            ),
            key != TOGGLE_KEY ==> *final(self) == *old(self) && r is None,
    {
        if key == TOGGLE_KEY {
            Some(self.toggle())
        } else {
            None
        }
    }
}

/// Switching the sink twice in a row brings back the sink one started with.
pub proof fn lemma_toggle_twice(t: OutputToggle)
    ensures
        opposite(opposite(t.sink)) == t.sink,
{
}

} // verus!
