use vstd::prelude::*;

verus! {

/// What one read of the line editor produced.
#[derive(Debug)]
pub enum ReadEvent {
    /// A complete line was entered.
    Line(String),
    /// The user cancelled input (interrupt).
    Interrupted,
    /// The input stream ended.
    EndOfInput,
    /// The editor failed otherwise; the text describes the failure.
    Failed(String),
}

/// Why the shell stops.
#[derive(Clone, Copy, Debug, PartialEq, Eq, Structural)]
pub enum ExitCause {
    Interrupted,
    EndOfInput,
}

/// What the read loop does next.
#[derive(Debug)]
pub enum LoopAction {
    /// Record the line in the history, dispatch it, and read again.
    Submit(String),
    /// Print a notice and end the process.
    Exit(ExitCause),
    /// Show the failure and read again.
    Report(String),
}

/// The read loop's decision for one event: a line is submitted, an
/// interrupt or the end of input ends the session, any other failure is
/// reported and the loop goes on.
pub fn next_action(event: ReadEvent) -> (r: LoopAction)
    ensures
        match event {
            ReadEvent::Line(l) => r == LoopAction::Submit(l),
            ReadEvent::Interrupted => r == LoopAction::Exit(ExitCause::Interrupted),
            ReadEvent::EndOfInput => r == LoopAction::Exit(ExitCause::EndOfInput),
            ReadEvent::Failed(e) => r == LoopAction::Report(e),
        },
{
    match event {
        ReadEvent::Line(l) => LoopAction::Submit(l),
        ReadEvent::Interrupted => LoopAction::Exit(ExitCause::Interrupted),
        ReadEvent::EndOfInput => LoopAction::Exit(ExitCause::EndOfInput),
        ReadEvent::Failed(e) => LoopAction::Report(e),
    }
}

/// The label shown in every prompt.
pub const SHELL_LABEL: &'static str = "SHELL";

/// The prompt for a read at the time `time`: `[<time>/SHELL] >>` and a tab.
pub fn prompt_text(time: &str) -> (r: String)
    ensures
        r@ == "["@ + time@ + "/"@ + SHELL_LABEL@ + "] >>\t"@,
{
    let mut p = String::from_str("[");
    p.append(time);
    p.append("/");
    p.append(SHELL_LABEL);
    p.append("] >>\t");
    p
}

} // verus!
