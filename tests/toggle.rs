use repl::session::{next_action, prompt_text, ExitCause, LoopAction, ReadEvent};
use repl::toggle::{OutputToggle, Sink, TOGGLE_KEY};

#[test]
fn toggle_twice_restores_sink() {
    let mut t = OutputToggle::new();
    assert_eq!(t.sink, Sink::Terminal);
    assert_eq!(t.toggle(), Sink::File);
    assert_eq!(t.toggle(), Sink::Terminal);
    assert_eq!(t.sink, Sink::Terminal);
}

#[test]
fn toggle_key_flips_other_keys_pass() {
    let mut t = OutputToggle::new();
    assert_eq!(TOGGLE_KEY, '`');
    assert_eq!(t.handle_key('a'), None);
    assert_eq!(t.sink, Sink::Terminal);
    assert_eq!(t.handle_key('`'), Some(Sink::File));
    assert_eq!(t.sink, Sink::File);
    assert_eq!(t.handle_key('x'), None);
    assert_eq!(t.sink, Sink::File);
    assert_eq!(t.handle_key('`'), Some(Sink::Terminal));
}

#[test]
fn loop_decisions() {
    assert!(matches!(next_action(ReadEvent::Line("echo a".to_string())), LoopAction::Submit(l) if l == "echo a"));
    assert!(matches!(next_action(ReadEvent::Interrupted), LoopAction::Exit(ExitCause::Interrupted)));
    assert!(matches!(next_action(ReadEvent::EndOfInput), LoopAction::Exit(ExitCause::EndOfInput)));
    assert!(matches!(next_action(ReadEvent::Failed("boom".to_string())), LoopAction::Report(e) if e == "boom"));
}

#[test]
fn prompt_embeds_time_and_label() {
    assert_eq!(prompt_text("12:00:01.250"), "[12:00:01.250/SHELL] >>\t");
    assert_eq!(prompt_text(""), "[/SHELL] >>\t");
}
