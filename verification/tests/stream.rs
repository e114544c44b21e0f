use hyperexecute::stream::{
    compile_error_message, exit_message, StreamAction, StreamEvent, StreamPhase, StreamSession,
};

fn sent(a: StreamAction) -> String {
    match a {
        StreamAction::SendToClient(t) => t,
        _ => panic!("expected a send"),
    }
}

#[test]
fn exit_messages() {
    assert_eq!(exit_message(0), "\r\n[Process exited with code 0]\r\n");
    assert_eq!(exit_message(-1), "\r\n[Process exited with code -1]\r\n");
    assert_eq!(exit_message(137), "\r\n[Process exited with code 137]\r\n");
}

#[test]
fn compile_error_message_has_heading() {
    assert_eq!(compile_error_message(b"bad"), "Compilation Error:\r\nbad");
}

#[test]
fn running_session_forwards_both_ways() {
    let mut s = StreamSession::new();
    assert_eq!(sent(s.step(StreamEvent::Output(b"hello".to_vec()))), "hello");
    match s.step(StreamEvent::ClientText("42\n".to_string())) {
        StreamAction::WriteToProcess(t) => assert_eq!(t, "42\n"),
        _ => panic!("expected a write"),
    }
    assert!(matches!(s.step(StreamEvent::ClientOther), StreamAction::Nothing));
    assert!(!s.is_closed());
}

#[test]
fn exit_drains_then_reports_once() {
    let mut s = StreamSession::new();
    assert!(matches!(s.step(StreamEvent::ProcessExited(Some(2))), StreamAction::Nothing));
    assert_eq!(s.phase, StreamPhase::Draining(2));
    assert_eq!(sent(s.step(StreamEvent::Output(b"tail".to_vec()))), "tail");
    assert!(matches!(s.step(StreamEvent::ClientText("x".to_string())), StreamAction::Nothing));
    assert!(matches!(s.step(StreamEvent::SendFailed), StreamAction::Nothing));
    assert_eq!(sent(s.step(StreamEvent::Drained)), "\r\n[Process exited with code 2]\r\n");
    assert!(s.is_closed());
    assert!(matches!(s.step(StreamEvent::Drained), StreamAction::Nothing));
    assert!(matches!(s.step(StreamEvent::Output(b"late".to_vec())), StreamAction::Nothing));
}

#[test]
fn exit_without_code_reports_minus_one() {
    let mut s = StreamSession::new();
    s.step(StreamEvent::ProcessExited(None));
    assert_eq!(sent(s.step(StreamEvent::Drained)), "\r\n[Process exited with code -1]\r\n");
}

#[test]
fn failures_close_the_session() {
    for ev in [StreamEvent::SendFailed, StreamEvent::StdinFailed, StreamEvent::ClientClosed] {
        let mut s = StreamSession::new();
        assert!(matches!(s.step(ev), StreamAction::Close));
        assert!(s.is_closed());
        assert!(matches!(s.step(StreamEvent::ClientText("x".to_string())), StreamAction::Nothing));
    }
}
