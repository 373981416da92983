use knowledge::cli::{
    read_session_file, resolve_username, session_file_contents, status_report, user_added_message,
    user_listing, AuthError,
};
use knowledge::users::User;

#[test]
fn session_file_holds_id_and_newline() {
    let id: u128 = 0x67e5504410b1426f9247bb680e5fe0c8;
    assert_eq!(session_file_contents(id), "67e55044-10b1-426f-9247-bb680e5fe0c8\n");
}

#[test]
fn session_file_reads_back_what_was_written() {
    for id in [0u128, 1, 0xffff_ffff_ffff_ffff_ffff_ffff_ffff_ffff, 0x0123456789abcdef0123456789abcdef] {
        let written = session_file_contents(id);
        assert_eq!(read_session_file(&written).ok(), Some(id));
    }
}

#[test]
fn session_file_tolerates_surrounding_whitespace() {
    assert_eq!(
        read_session_file("  550E8400-E29B-41D4-A716-446655440000 \r\n").ok(),
        Some(0x550e8400e29b41d4a716446655440000)
    );
}

#[test]
fn session_file_with_garbage_is_refused() {
    let err = read_session_file("hello").unwrap_err();
    assert_eq!(err.to_string(), uuid::Uuid::parse_str("hello").unwrap_err().to_string());
    assert!(read_session_file("").is_err());
}

#[test]
fn status_report_for_known_and_unknown_user() {
    let id: u128 = 0x67e5504410b1426f9247bb680e5fe0c8;
    assert_eq!(
        status_report(id, Some("ada".to_string())),
        Ok("Logged in with Username: ada, User ID: 67e55044-10b1-426f-9247-bb680e5fe0c8".to_string())
    );
    assert_eq!(status_report(id, None), Err(AuthError::UnknownUser));
}

#[test]
fn auth_error_messages() {
    assert_eq!(AuthError::NotLoggedIn.message(), "Not logged in.");
    assert_eq!(AuthError::UnknownUser.message(), "User ID not found in database.");
}

#[test]
fn username_from_flag_or_prompt() {
    assert_eq!(resolve_username(Some("testuser".to_string()), "ignored\n"), "testuser");
    assert_eq!(resolve_username(None, "  typed name \n"), "typed name");
}

#[test]
fn user_added_line() {
    assert_eq!(
        user_added_message("testuser", 1),
        "User testuser added successfully with ID 00000000-0000-0000-0000-000000000001!"
    );
}

#[test]
fn listing_of_users() {
    assert_eq!(user_listing(&vec![]), vec!["Nothing to display".to_string()]);
    let users = vec![
        User { user_id: 1, user_name: "a".to_string(), password_hash: None },
        User { user_id: 2, user_name: "b".to_string(), password_hash: Some("h".to_string()) },
    ];
    assert_eq!(
        user_listing(&users),
        vec![
            "User ID: 00000000-0000-0000-0000-000000000001, Username: a".to_string(),
            "User ID: 00000000-0000-0000-0000-000000000002, Username: b".to_string(),
        ]
    );
}
