use passepartout::events::EventSink;
use passepartout::executor::{
    command_args, command_program, copy_login, copy_otp, copy_password, fetch_entry, fetch_otp,
    ProcessOutcome,
};
use passepartout::{ChannelEvent, PasswordError};

fn exited(success: bool, stdout: &str, stderr: &str, status_text: &str) -> ProcessOutcome {
    ProcessOutcome::Exited {
        success,
        stdout: stdout.to_string(),
        stderr: stderr.to_string(),
        status_text: status_text.to_string(),
    }
}

#[test]
fn program_and_argument_grammar() {
    assert_eq!(command_program(), "pass");
    assert_eq!(command_args(passepartout::registry::OpKind::CopyPassword, "a/b"), vec![
        "a/b", "--clip"
    ]);
    assert_eq!(command_args(passepartout::registry::OpKind::CopyLogin, "a/b"), vec![
        "a/b", "--clip=2"
    ]);
    assert_eq!(command_args(passepartout::registry::OpKind::CopyOtp, "a/b"), vec![
        "otp", "code", "a/b", "--clip"
    ]);
    assert_eq!(command_args(passepartout::registry::OpKind::FetchOtp, "a/b"), vec![
        "otp", "code", "a/b"
    ]);
    assert_eq!(command_args(passepartout::registry::OpKind::FetchEntry, "a/b"), vec!["a/b"]);
}

#[test]
fn copy_password_success_emits_one_status() {
    let mut sink = EventSink::new();
    let r = copy_password("a".to_string(), exited(true, "", "", "exit status: 0"), &mut sink);
    assert!(r.is_ok());
    let events = sink.drain();
    assert_eq!(
        events,
        vec![ChannelEvent::Status(
            "Password copied to clipboard, clears after 45 seconds".to_string()
        )]
    );
}

#[test]
fn copy_password_failure_reports_exit_status() {
    let mut sink = EventSink::new();
    let r = copy_password("a".to_string(), exited(false, "", "noise", "exit status: 1"), &mut sink);
    assert!(matches!(r, Err(PasswordError::PassError(ref m)) if m == "exit status: 1"));
    let events = sink.drain();
    assert_eq!(events, vec![ChannelEvent::Status("exit status: 1".to_string())]);
}

#[test]
fn copy_password_launch_failure_is_reported_not_a_crash() {
    let mut sink = EventSink::new();
    let outcome = ProcessOutcome::LaunchFailed("no such program".to_string());
    let r = copy_password("a".to_string(), outcome, &mut sink);
    assert!(matches!(r, Err(PasswordError::PassError(ref m)) if m == "no such program"));
    assert_eq!(sink.drain(), vec![ChannelEvent::Status("no such program".to_string())]);
}

#[test]
fn copy_login_success_emits_one_status() {
    let mut sink = EventSink::new();
    let r = copy_login("a".to_string(), exited(true, "", "", "exit status: 0"), &mut sink);
    assert!(r.is_ok());
    assert_eq!(
        sink.drain(),
        vec![ChannelEvent::Status(
            "Login copied to clipboard, clears after 45 seconds".to_string()
        )]
    );
}

#[test]
fn copy_otp_success_emits_one_status() {
    let mut sink = EventSink::new();
    let r = copy_otp("a".to_string(), exited(true, "", "", "exit status: 0"), &mut sink);
    assert!(r.is_ok());
    assert_eq!(
        sink.drain(),
        vec![ChannelEvent::Status("One-time password copied to clipboard".to_string())]
    );
}

#[test]
fn fetch_otp_success_emits_payload_then_reset() {
    let mut sink = EventSink::new();
    let r = fetch_otp("a".to_string(), exited(true, "123456", "", "exit status: 0"), &mut sink);
    let expected = ChannelEvent::OneTimePassword {
        pass_id: "a".to_string(),
        one_time_password: "123456".to_string(),
    };
    assert_eq!(r.unwrap(), expected);
    assert_eq!(sink.drain(), vec![expected, ChannelEvent::ResetStatus]);
}

#[test]
fn fetch_otp_failure_reports_error_output() {
    let mut sink = EventSink::new();
    let r = fetch_otp("a".to_string(), exited(false, "", "no otp secret", "exit status: 1"), &mut sink);
    assert!(matches!(r, Err(PasswordError::PassError(ref m)) if m == "no otp secret"));
    assert_eq!(sink.drain(), vec![ChannelEvent::Status("no otp secret".to_string())]);
}

#[test]
fn fetch_entry_success_emits_payload_then_reset() {
    let mut sink = EventSink::new();
    let r = fetch_entry(
        "a".to_string(),
        exited(true, "secret\nuser\n", "", "exit status: 0"),
        &mut sink,
    );
    let expected = ChannelEvent::PasswordInfo {
        pass_id: "a".to_string(),
        file_contents: "secret\nuser\n".to_string(),
    };
    assert_eq!(r.unwrap(), expected);
    assert_eq!(sink.drain(), vec![expected, ChannelEvent::ResetStatus]);
}

#[test]
fn fetch_entry_failure_reports_error_output() {
    let mut sink = EventSink::new();
    let outcome = ProcessOutcome::LaunchFailed("spawn denied".to_string());
    let r = fetch_entry("a".to_string(), outcome, &mut sink);
    assert!(matches!(r, Err(PasswordError::PassError(ref m)) if m == "spawn denied"));
    assert_eq!(sink.drain(), vec![ChannelEvent::Status("spawn denied".to_string())]);
}

#[test]
fn every_branch_emits_exactly_one_terminal_event() {
    let outcomes = vec![
        ProcessOutcome::LaunchFailed("gone".to_string()),
        exited(false, "", "err", "exit status: 1"),
        exited(true, "out", "", "exit status: 0"),
    ];
    for outcome in outcomes {
        let mut sink = EventSink::new();
        let _ = fetch_otp("a".to_string(), outcome.clone(), &mut sink);
        let terminal = sink
            .drain()
            .into_iter()
            .filter(|e| !matches!(e, ChannelEvent::ResetStatus))
            .count();
        assert_eq!(terminal, 1);

        let mut sink = EventSink::new();
        let _ = copy_password("a".to_string(), outcome, &mut sink);
        let terminal = sink
            .drain()
            .into_iter()
            .filter(|e| !matches!(e, ChannelEvent::ResetStatus))
            .count();
        assert_eq!(terminal, 1);
    }
}
