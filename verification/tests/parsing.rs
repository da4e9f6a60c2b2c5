use passepartout::details::{parse_entry, Action, Message, PasswordDetails};
use passepartout::text::split_lines;
use passepartout::PasswordInfo;

#[test]
fn parse_full_payload() {
    let parsed = parse_entry("secret\nuser\notpauth://totp/x\n");
    assert_eq!(parsed.password.as_deref(), Some("secret"));
    assert_eq!(parsed.login.as_deref(), Some("user"));
    assert_eq!(parsed.line_count, 3);
    assert!(parsed.has_otp);
}

#[test]
fn parse_password_only_payload() {
    let parsed = parse_entry("secret\n");
    assert_eq!(parsed.password.as_deref(), Some("secret"));
    assert_eq!(parsed.login, None);
    assert_eq!(parsed.line_count, 1);
    assert!(!parsed.has_otp);
}

#[test]
fn parse_empty_payload() {
    let parsed = parse_entry("");
    assert_eq!(parsed.password, None);
    assert_eq!(parsed.login, None);
    assert_eq!(parsed.line_count, 0);
    assert!(!parsed.has_otp);
}

#[test]
fn parse_counts_trailing_blank_lines() {
    let parsed = parse_entry("secret\nuser\n\n\n");
    assert_eq!(parsed.line_count, 4);
    assert!(!parsed.has_otp);
}

#[test]
fn parse_ignores_otp_marker_on_password_line() {
    let parsed = parse_entry("otpauth://totp/x\n");
    assert_eq!(parsed.password.as_deref(), Some("otpauth://totp/x"));
    assert!(!parsed.has_otp);
}

#[test]
fn split_lines_handles_carriage_returns() {
    assert_eq!(split_lines("a\r\nb\r\n"), vec!["a", "b"]);
    assert_eq!(split_lines("a\rb\n"), vec!["a\rb"]);
    assert_eq!(split_lines("tail\r"), vec!["tail\r"]);
}

#[test]
fn split_lines_final_newline_is_optional() {
    assert_eq!(split_lines("a\nb"), vec!["a", "b"]);
    assert_eq!(split_lines("a\nb\n"), vec!["a", "b"]);
    assert_eq!(split_lines("\n"), vec![""]);
    assert!(split_lines("").is_empty());
}

fn entry(id: &str) -> PasswordInfo {
    PasswordInfo::new(id.to_string())
}

#[test]
fn select_asks_for_the_entry_file() {
    let mut details = PasswordDetails::new();
    let action = details.update(Message::SelectEntry(entry("email/personal")), "/s");
    match action {
        Action::FetchEntryFile { pass_id, file_path } => {
            assert_eq!(pass_id, "email/personal");
            assert_eq!(file_path, "/s/email/personal.gpg");
        },
        _ => panic!("selecting must fetch the entry file"),
    }
    assert_eq!(details.status.as_deref(), Some("Fetching password entry..."));
    assert!(!details.show_secrets);
}

#[test]
fn fetched_payload_fills_the_fields() {
    let mut details = PasswordDetails::new();
    let _ = details.update(Message::SelectEntry(entry("a")), "/s");
    let action = details.update(
        Message::EntryFetched("a".to_string(), "secret\nuser\notpauth://totp/x\n".to_string()),
        "/s",
    );
    assert_eq!(details.password.as_deref(), Some("secret"));
    assert_eq!(details.login.as_deref(), Some("user"));
    assert_eq!(details.line_count, Some(3));
    assert_eq!(details.otp.as_deref(), Some("******"));
    assert_eq!(details.status, None);
    match action {
        Action::GenerateOtp { pass_id, file_path } => {
            assert_eq!(pass_id, "a");
            assert_eq!(file_path, "/s/a.gpg");
        },
        _ => panic!("an otpauth line must ask for code derivation"),
    }
}

#[test]
fn fetched_payload_without_otp_is_idle() {
    let mut details = PasswordDetails::new();
    let _ = details.update(Message::SelectEntry(entry("a")), "/s");
    let action = details.update(Message::EntryFetched("a".to_string(), "secret\n".to_string()), "/s");
    assert!(matches!(action, Action::Idle));
    assert_eq!(details.otp, None);
    assert_eq!(details.line_count, Some(1));
}

#[test]
fn mismatched_fetch_reports_and_keeps_fields() {
    let mut details = PasswordDetails::new();
    let _ = details.update(Message::SelectEntry(entry("a")), "/s");
    let action = details.update(
        Message::EntryFetched("other".to_string(), "secret\n".to_string()),
        "/s",
    );
    assert!(matches!(action, Action::Idle));
    assert_eq!(details.status.as_deref(), Some("Something went wrong"));
    assert_eq!(details.password, None);
}

#[test]
fn show_file_also_unmasks() {
    let mut details = PasswordDetails::new();
    let _ = details.update(Message::ShowFile, "/s");
    assert!(details.show_file);
    assert!(details.show_secrets);
    let _ = details.update(Message::ShowFile, "/s");
    assert!(!details.show_file);
    assert!(details.show_secrets);
}

#[test]
fn show_secrets_refreshes_the_code() {
    let mut details = PasswordDetails::new();
    let _ = details.update(Message::SelectEntry(entry("a")), "/s");
    let action = details.update(Message::ShowSecrets, "/s");
    assert!(details.show_secrets);
    assert!(matches!(action, Action::GenerateOtp { .. }));
    let action = details.update(Message::HideSecrets, "/s");
    assert!(!details.show_secrets);
    assert!(matches!(action, Action::Idle));
}

#[test]
fn copy_outcomes_set_the_status() {
    let mut details = PasswordDetails::new();
    let _ = details.update(Message::PasswordCopied(true), "/s");
    assert_eq!(details.status.as_deref(), Some("Password copied to clipboard"));
    let _ = details.update(Message::PasswordCopied(false), "/s");
    assert_eq!(details.status.as_deref(), Some("Something went wrong"));
    let _ = details.update(Message::LoginCopied(true), "/s");
    assert_eq!(details.status.as_deref(), Some("Login copied to clipboard"));
    let _ = details.update(Message::OtpCopied(true), "/s");
    assert_eq!(details.status.as_deref(), Some("One-time password (OTP) copied to clipboard"));
    let _ = details.update(Message::IdCopied(true), "/s");
    assert_eq!(details.status.as_deref(), Some("Password ID copied to clipboard"));
}

#[test]
fn fetched_code_lands_on_the_matching_entry() {
    let mut details = PasswordDetails::new();
    let _ = details.update(Message::SelectEntry(entry("a")), "/s");
    let _ = details.update(Message::OtpFetched("a".to_string(), "654321".to_string()), "/s");
    assert_eq!(details.otp.as_deref(), Some("654321"));
    assert_eq!(details.status, None);
    let _ = details.update(Message::OtpFetched("other".to_string(), "999999".to_string()), "/s");
    assert_eq!(details.otp.as_deref(), Some("654321"));
}

#[test]
fn split_lines_agrees_with_the_standard_library() {
    let samples = [
        "",
        "\n",
        "one",
        "one\n",
        "a\nb\nc",
        "a\r\nb\rc\n\n",
        "secret\nuser\notpauth://totp/x\n",
        "trailing\r",
        "\r\n\r\n",
    ];
    for sample in samples {
        let expected: Vec<&str> = sample.lines().collect();
        assert_eq!(split_lines(sample), expected);
    }
}

#[test]
fn secret_fields_stay_masked_until_unmasked() {
    let mut details = PasswordDetails::new();
    let _ = details.update(Message::SelectEntry(entry("a")), "/s");
    let _ = details.update(
        Message::EntryFetched("a".to_string(), "secret\nuser\notpauth://totp/x\n".to_string()),
        "/s",
    );
    let _ = details.update(Message::OtpFetched("a".to_string(), "654321".to_string()), "/s");
    assert_eq!(details.password_display(), "********");
    assert_eq!(details.login_display(), "####");
    assert_eq!(details.otp_display(), "******");
    let _ = details.update(Message::ShowSecrets, "/s");
    assert_eq!(details.password_display(), "secret");
    assert_eq!(details.login_display(), "user");
    assert_eq!(details.otp_display(), "654321");
    let _ = details.update(Message::HideSecrets, "/s");
    assert_eq!(details.password_display(), "********");
}
