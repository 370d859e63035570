use repl::commands::{register_commands, Builtin};
use repl::registry::{AliasError, Callable, CommandList, DuplicateCommandError, Outcome};

fn args(v: &[&str]) -> Vec<String> {
    v.iter().map(|s| s.to_string()).collect()
}

#[test]
fn registered_name_invokes_once() {
    let list = register_commands();
    assert_eq!(
        list.execute_command(&"hello".to_string(), &args(&[])),
        Outcome::Invoke { index: 0 }
    );
    assert_eq!(
        list.execute_command(&"echo".to_string(), &args(&["x", "y"])),
        Outcome::Invoke { index: 3 }
    );
    assert_eq!(
        list.execute_command(&"help".to_string(), &args(&[])),
        Outcome::Invoke { index: 4 }
    );
}

#[test]
fn alias_behaves_like_target() {
    let list = register_commands();
    for a in [args(&[]), args(&["x"])] {
        let via_alias = list.execute_command(&"cls".to_string(), &a);
        let direct = list.execute_command(&"clear".to_string(), &a);
        assert_eq!(via_alias, direct);
        assert_eq!(via_alias, Outcome::Invoke { index: 2 });
    }
}

#[test]
fn unknown_name_invokes_nothing() {
    let list = register_commands();
    assert_eq!(
        list.execute_command(&"frobnicate".to_string(), &args(&["a"])),
        Outcome::Unknown
    );
    assert_eq!(
        list.execute_command(&"".to_string(), &args(&[])),
        Outcome::Unknown
    );
    assert_eq!(
        list.execute_command(&"Hello".to_string(), &args(&[])),
        Outcome::Unknown
    );
}

#[test]
fn min_one_arg_checked() {
    let list = register_commands();
    assert_eq!(
        list.execute_command(&"echo".to_string(), &args(&[])),
        Outcome::TooFewArgs { required: 1, given: 0 }
    );
    assert_eq!(
        list.execute_command(&"echo".to_string(), &args(&["a"])),
        Outcome::Invoke { index: 3 }
    );
}

#[test]
fn min_args_above_one() {
    let mut list: CommandList<u8> = CommandList::new();
    assert_eq!(list.add_command("pair", None, Callable::WithArgs(7), Some(2)), Ok(()));
    assert_eq!(
        list.execute_command(&"pair".to_string(), &args(&["a"])),
        Outcome::TooFewArgs { required: 2, given: 1 }
    );
    assert_eq!(
        list.execute_command(&"pair".to_string(), &args(&["a", "b", "c"])),
        Outcome::Invoke { index: 0 }
    );
}

#[test]
fn register_commands_table() {
    let list = register_commands();
    let names: Vec<&str> = list.commands.iter().map(|c| c.name.as_str()).collect();
    assert_eq!(names, vec!["hello", "exit", "clear", "echo", "help"]);
    assert!(matches!(list.commands[3].callable, Callable::WithArgs(Builtin::Echo)));
    assert!(matches!(list.commands[1].callable, Callable::Simple(Builtin::Exit)));
    assert_eq!(list.commands[3].min_args, Some(1));
    assert_eq!(list.commands[0].min_args, None);
    assert_eq!(list.aliases.len(), 1);
    assert_eq!(list.aliases[0].name, "cls");
    assert_eq!(list.aliases[0].target, "clear");
}

#[test]
fn duplicate_command_rejected() {
    let mut list = register_commands();
    assert_eq!(
        list.add_command("echo", None, Callable::Simple(Builtin::Hello), None),
        Err(DuplicateCommandError)
    );
    assert_eq!(
        list.add_command("cls", None, Callable::Simple(Builtin::Hello), None),
        Err(DuplicateCommandError)
    );
    assert_eq!(list.commands.len(), 5);
    assert!(matches!(list.commands[3].callable, Callable::WithArgs(Builtin::Echo)));
}

#[test]
fn alias_errors() {
    let mut list = register_commands();
    assert_eq!(list.add_alias("hello", "exit"), Err(AliasError::NameTaken));
    assert_eq!(list.add_alias("cls", "exit"), Err(AliasError::NameTaken));
    assert_eq!(list.add_alias("c", "cls"), Err(AliasError::Chained));
    assert_eq!(list.add_alias("loop", "loop"), Err(AliasError::Chained));
    assert_eq!(list.aliases.len(), 1);
}

#[test]
fn alias_to_alias_name_later_rejected() {
    let mut list: CommandList<u8> = CommandList::new();
    assert_eq!(list.add_alias("b", "c"), Ok(()));
    // "c" is the target of "b", and "b" is an alias: either would chain.
    assert_eq!(list.add_alias("c", "d"), Err(AliasError::Chained));
    assert_eq!(list.add_alias("a", "b"), Err(AliasError::Chained));
}

#[test]
fn forward_declared_alias() {
    let mut list: CommandList<u8> = CommandList::new();
    assert_eq!(list.add_alias("q", "quit"), Ok(()));
    assert_eq!(
        list.execute_command(&"q".to_string(), &args(&[])),
        Outcome::Unknown
    );
    assert_eq!(list.add_command("quit", None, Callable::Simple(1), None), Ok(()));
    assert_eq!(
        list.execute_command(&"q".to_string(), &args(&[])),
        Outcome::Invoke { index: 0 }
    );
    assert_eq!(list.add_command("q", None, Callable::Simple(2), None), Err(DuplicateCommandError));
}

#[test]
fn help_lists_in_order_with_placeholder() {
    let mut list = register_commands();
    assert_eq!(list.add_command("ping", None, Callable::Simple(Builtin::Hello), None), Ok(()));
    let h = list.help();
    assert_eq!(h.len(), 6);
    assert_eq!(h[0], ("hello".to_string(), "Displays \"Hello World\"!".to_string()));
    assert_eq!(
        h[3],
        (
            "echo".to_string(),
            "Prints the provided arguments back to the terminal.".to_string()
        )
    );
    assert_eq!(h[5], ("ping".to_string(), "No description available.".to_string()));
}

#[test]
fn empty_registry_help() {
    let list: CommandList<u8> = CommandList::new();
    assert!(list.help().is_empty());
}
