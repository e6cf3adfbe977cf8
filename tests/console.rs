use mc_cli::console::{ConsoleAction, ConsoleLoop, ConsoleState};

/// Runs the loop over `lines`, with every command failing, and gives the
/// commands that were sent.
fn run(lines: &[&str]) -> (Vec<String>, ConsoleLoop) {
    let mut console = ConsoleLoop::new();
    let mut sent = Vec::new();
    let mut input = lines.iter();
    while !console.is_finished() {
        match console.on_line(input.next().copied()) {
            ConsoleAction::Execute(cmd) => {
                sent.push(cmd);
                console.on_reply();
            }
            ConsoleAction::EndOfInput | ConsoleAction::Quit | ConsoleAction::Reprompt => {}
        }
    }
    (sent, console)
}

#[test]
fn empty_then_quit_sends_nothing() {
    let (sent, console) = run(&["", "Q"]);
    assert!(sent.is_empty());
    assert!(console.is_finished());
}

#[test]
fn stop_ends_after_its_reply() {
    let (sent, _) = run(&["say hi", "stop", "list"]);
    assert_eq!(sent, vec!["say hi", "stop"]);
}

#[test]
fn lines_are_trimmed() {
    let mut console = ConsoleLoop::new();
    assert!(matches!(console.on_line(Some("   \t\n")), ConsoleAction::Reprompt));
    assert_eq!(console.state(), ConsoleState::Prompting);
    match console.on_line(Some("  say hi \r\n")) {
        ConsoleAction::Execute(cmd) => assert_eq!(cmd, "say hi"),
        other => panic!("unexpected {:?}", other),
    }
    assert_eq!(console.state(), ConsoleState::AwaitingReply { stop_after: false });
}

#[test]
fn quit_ignores_case() {
    let mut console = ConsoleLoop::new();
    assert!(matches!(console.on_line(Some(" q ")), ConsoleAction::Quit));
    assert!(console.is_finished());
}

#[test]
fn stop_ignores_case() {
    let mut console = ConsoleLoop::new();
    assert!(matches!(console.on_line(Some("StOp")), ConsoleAction::Execute(_)));
    assert_eq!(console.state(), ConsoleState::AwaitingReply { stop_after: true });
    console.on_reply();
    assert!(console.is_finished());
}

#[test]
fn stop_with_argument_is_a_command() {
    let mut console = ConsoleLoop::new();
    console.on_line(Some("stop now"));
    assert_eq!(console.state(), ConsoleState::AwaitingReply { stop_after: false });
}

#[test]
fn end_of_input_ends() {
    let (sent, console) = run(&["list"]);
    assert_eq!(sent, vec!["list"]);
    assert!(console.is_finished());
    let mut fresh = ConsoleLoop::new();
    assert!(matches!(fresh.on_line(None), ConsoleAction::EndOfInput));
}

#[test]
fn lost_connection_ends() {
    let mut console = ConsoleLoop::new();
    console.on_line(Some("list"));
    console.on_connection_lost();
    assert!(console.is_finished());
}
