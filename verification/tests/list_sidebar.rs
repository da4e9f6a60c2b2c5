use passepartout::password_list::{matches_search, Action, Message, PasswordList};
use passepartout::sidebar;
use passepartout::{copy_id, ChannelEvent, PasswordError, PasswordInfo};

fn entry(id: &str) -> PasswordInfo {
    PasswordInfo::new(id.to_string())
}

#[test]
fn asdf() {
    let result = PasswordList::new(vec![entry("a")]).visible().len();
    assert_eq!(result, 1);
}

#[test]
fn search_is_case_insensitive() {
    assert!(matches_search("Email/Personal", "email"));
    assert!(matches_search("email/personal", "EMAIL"));
    assert!(!matches_search("email/personal", "work"));
}

#[test]
fn empty_search_matches_everything() {
    assert!(matches_search("anything", ""));
}

#[test]
fn visible_keeps_matching_entries_in_order() {
    let list = PasswordList::new(vec![entry("Bank/One"), entry("email/a"), entry("Email/b")]);
    let mut list = list;
    let _ = list.update(Message::SearchChanged("email".to_string()));
    let shown: Vec<String> = list.visible().into_iter().map(|p| p.pass_id).collect();
    assert_eq!(shown, vec!["email/a".to_string(), "Email/b".to_string()]);
}

#[test]
fn list_update_routes_messages() {
    let mut list = PasswordList::new(vec![entry("a")]);
    assert!(matches!(list.update(Message::SearchChanged("x".to_string())), Action::UpdateSearch));
    assert_eq!(list.search, "x");
    match list.update(Message::SelectEntry(entry("a"))) {
        Action::SelectEntry(e) => assert_eq!(e.pass_id, "a"),
        _ => panic!("selecting must pass the entry on"),
    }
}

#[test]
fn sidebar_maps_presses_to_actions() {
    let mut bar = sidebar::Sidebar::new();
    assert_eq!(bar.update(sidebar::Message::ShowDashboard), sidebar::Action::ShowDashboard);
    assert_eq!(bar.update(sidebar::Message::ShowSettings), sidebar::Action::ShowSettings);
    assert_eq!(bar.update(sidebar::Message::Quit), sidebar::Action::Quit);
}

#[test]
fn copy_id_without_clipboard_is_recoverable() {
    let mut clipboard = None;
    let r = copy_id(&mut clipboard, "email/personal".to_string());
    assert!(matches!(r, Err(PasswordError::ClipboardUnavailable)));
}

#[test]
fn events_compare_by_content() {
    let a = ChannelEvent::Status("hello".to_string());
    let b = ChannelEvent::Status("hello".to_string());
    let c = ChannelEvent::Status("other".to_string());
    assert_eq!(a, b);
    assert_ne!(a, c);
    assert_ne!(a, ChannelEvent::ResetStatus);
    let p = ChannelEvent::PasswordInfo {
        pass_id: "a".to_string(),
        file_contents: "c".to_string(),
    };
    let q = ChannelEvent::PasswordInfo {
        pass_id: "a".to_string(),
        file_contents: "c".to_string(),
    };
    assert_eq!(p, q);
}

#[test]
fn errors_compare_by_content() {
    assert_eq!(
        PasswordError::PassError("x".to_string()),
        PasswordError::PassError("x".to_string())
    );
    assert_ne!(
        PasswordError::PassError("x".to_string()),
        PasswordError::ClipboardError("x".to_string())
    );
    assert_eq!(PasswordError::StoreUnresolvable, PasswordError::StoreUnresolvable);
    assert_eq!(
        PasswordError::DecryptionFailed("bad key".to_string()),
        PasswordError::DecryptionFailed("bad key".to_string())
    );
    assert_ne!(
        PasswordError::DecryptionFailed("bad key".to_string()),
        PasswordError::PassError("bad key".to_string())
    );
}

use passepartout::dashboard::{Dashboard, Message as DashboardMessage};
use passepartout::details;
use passepartout::password_list::card_title;

#[test]
fn dashboard_routes_selection_into_details() {
    let mut dashboard = Dashboard::new(vec![entry("email/a")]);
    assert_eq!(dashboard.title(), "Partout");
    let action = dashboard.update(
        DashboardMessage::PasswordList(Message::SelectEntry(entry("email/a"))),
        "/s",
    );
    match action {
        details::Action::FetchEntryFile { pass_id, file_path } => {
            assert_eq!(pass_id, "email/a");
            assert_eq!(file_path, "/s/email/a.gpg");
        },
        _ => panic!("choosing an entry must fetch its file"),
    }
    assert_eq!(
        dashboard.password_details.entry.as_ref().map(|e| e.pass_id.clone()),
        Some("email/a".to_string())
    );
    let action = dashboard.update(
        DashboardMessage::PasswordList(Message::SearchChanged("em".to_string())),
        "/s",
    );
    assert!(matches!(action, details::Action::Idle));
    assert_eq!(dashboard.password_list.search, "em");
}

#[test]
fn card_title_truncates_long_identifiers() {
    assert_eq!(card_title("short/name"), "short/name");
    let long = "abcdefghij".repeat(4);
    assert_eq!(card_title(&long), format!("{long}..."));
    let longer = format!("{long}xyz");
    assert_eq!(card_title(&longer), format!("{long}..."));
}

use passepartout::text::{str_contains, str_has_prefix, str_has_suffix, str_lex_le};

#[test]
fn text_helpers_decide_exactly() {
    assert!(str_has_prefix("otpauth://totp/x", "otpauth://"));
    assert!(!str_has_prefix("otp", "otpauth://"));
    assert!(str_has_suffix("email/a.gpg", ".gpg"));
    assert!(!str_has_suffix("email/a.txt", ".gpg"));
    assert!(str_contains("email/personal", "l/pe"));
    assert!(!str_contains("email/personal", "work"));
    assert!(str_contains("anything", ""));
    assert!(str_lex_le("alpha", "beta"));
    assert!(str_lex_le("a", "ab"));
    assert!(!str_lex_le("ab", "a"));
    assert!(str_lex_le("same", "same"));
}
