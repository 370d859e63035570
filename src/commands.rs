use vstd::prelude::*;

use crate::registry::{description_view, Callable, CommandList};

verus! {

/// The shell's built-in commands; the host maps each one to its handler.
#[derive(Clone, Copy, Debug, PartialEq, Eq, Structural)]
pub enum Builtin {
    Hello,
    Exit,
    Clear,
    Echo,
    Help,
}

/// The registry the shell starts with: five commands in this order, `echo`
/// asking for at least one argument, and `cls` as another name for `clear`.
pub fn register_commands() -> (r: CommandList<Builtin>)
    ensures
        r.wf(),
        r.names() == seq!["hello"@, "exit"@, "clear"@, "echo"@, "help"@],
        r.commands@[0].callable == Callable::Simple(Builtin::Hello),
        r.commands@[1].callable == Callable::Simple(Builtin::Exit),
        r.commands@[2].callable == Callable::Simple(Builtin::Clear),
        r.commands@[3].callable == Callable::WithArgs(Builtin::Echo),
        r.commands@[4].callable == Callable::Simple(Builtin::Help),
        forall|i: int| 0 <= i < 5 && i != 3 ==> r.commands@[i].min_args is None,
        r.commands@[3].min_args == Some(1usize),
        forall|i: int| 0 <= i < 5 ==> description_view(#[trigger] r.commands@[i].description) is Some,
        r.alias_names() == seq!["cls"@],
        r.alias_targets() == seq!["clear"@],
{
    proof {
        reveal_strlit("hello");
        reveal_strlit("exit");
        reveal_strlit("clear");
        reveal_strlit("echo");
        reveal_strlit("help");
        reveal_strlit("cls");
        assert("hello"@.len() != "exit"@.len());
        assert("hello"@[0] != "clear"@[0]);
        assert("hello"@.len() != "echo"@.len());
        assert("hello"@.len() != "help"@.len());
        assert("hello"@.len() != "cls"@.len());
        assert("exit"@.len() != "clear"@.len());
        assert("exit"@[1] != "echo"@[1]);
        assert("exit"@[0] != "help"@[0]);
        assert("exit"@.len() != "cls"@.len());
        assert("clear"@.len() != "echo"@.len());
        assert("clear"@.len() != "help"@.len());
        assert("clear"@.len() != "cls"@.len());
        assert("echo"@[0] != "help"@[0]);
        assert("echo"@.len() != "cls"@.len());
        assert("help"@.len() != "cls"@.len());
    }
    let mut list: CommandList<Builtin> = CommandList::new();
    let _ = list.add_command(
        "hello",
        Some("Displays \"Hello World\"!"),
        Callable::Simple(Builtin::Hello),
        None,
    );
    assert(list.names() =~= seq!["hello"@]);
    let _ = list.add_command(
        "exit",
        Some("Exits the application gracefully."),
        Callable::Simple(Builtin::Exit),
        None,
    );
    assert(list.names() =~= seq!["hello"@, "exit"@]);
    let _ = list.add_command(
        "clear",
        Some("Clears the terminal screen."),
        Callable::Simple(Builtin::Clear),
        None,
    );
    assert(list.names() =~= seq!["hello"@, "exit"@, "clear"@]);
    let _ = list.add_command(
        "echo",
        Some("Prints the provided arguments back to the terminal."),
        Callable::WithArgs(Builtin::Echo),
        Some(1),
    );
    assert(list.names() =~= seq!["hello"@, "exit"@, "clear"@, "echo"@]);
    let _ = list.add_command(
        "help",
        Some("Displays a list of all available commands."),
        Callable::Simple(Builtin::Help),
        None,
    );
    assert(list.names() =~= seq!["hello"@, "exit"@, "clear"@, "echo"@, "help"@]);
    let _ = list.add_alias("cls", "clear");
    assert(list.alias_names() =~= seq!["cls"@]);
    list
}

} // verus!
