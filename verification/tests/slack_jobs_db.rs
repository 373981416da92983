use knowledge::db::{unlock_message, MAX_CONNECTIONS, MIGRATION_LOCK_ID};
use knowledge::jobs::{cleanup_interval, cron_enabled, hours, Cleanup, ProcessArticle};
use knowledge::slack::{
    article_command_reply, classify_command, login_command_reply, slack_login_done,
    slack_login_link, unknown_command_reply, SlackCommand, SlackLoginQuery,
};

#[test]
fn slack_commands() {
    assert_eq!(classify_command("/login"), SlackCommand::Login);
    assert_eq!(classify_command("/article"), SlackCommand::Article);
    assert_eq!(classify_command("/other"), SlackCommand::Unknown);
    assert_eq!(classify_command("/login "), SlackCommand::Unknown);
    let r = unknown_command_reply();
    assert_eq!((r.response_type.as_str(), r.text.as_str()), ("in_channel", "Unknown command"));
    let r = article_command_reply();
    assert_eq!((r.response_type.as_str(), r.text.as_str()), ("in_channel", "Article command"));
    let r = login_command_reply(5);
    assert_eq!(
        r.text,
        "To Login please visit: https://guiding-raptor-infinitely.ngrok-free.app/slack/login?slack_user_link=00000000-0000-0000-0000-000000000005"
    );
    assert_eq!(slack_login_done(), "Login Worked");
}

#[test]
fn slack_login_link_is_a_uuid() {
    let q = SlackLoginQuery { slack_user_link: "00000000-0000-0000-0000-000000000005".to_string() };
    assert_eq!(slack_login_link(&q), Some(5));
    let bad = SlackLoginQuery { slack_user_link: "five".to_string() };
    assert_eq!(slack_login_link(&bad), None);
}

#[test]
fn schedule() {
    assert_eq!(hours(1), 3600);
    assert_eq!(hours(0), 0);
    assert_eq!(hours(24), 86400);
    assert_eq!(cleanup_interval(), 3600);
    assert_eq!(Cleanup.name(), "sessions::cleanup");
    assert_eq!(ProcessArticle { page_id: 1 }.name(), "process_article::ProcessArticle");
}

#[test]
fn cron_switch() {
    assert!(cron_enabled(None, "false"));
    assert!(!cron_enabled(None, "true"));
    assert!(!cron_enabled(Some("true"), "false"));
    assert!(cron_enabled(Some("TRUE"), "true"));
    assert!(cron_enabled(Some("1"), "true"));
}

#[test]
fn migration_lock() {
    assert_eq!(unlock_message(Some(true)), Some("Migration lock unlocked".to_string()));
    assert_eq!(unlock_message(Some(false)), Some("Failed to unlock migration lock".to_string()));
    assert_eq!(unlock_message(None), None);
    assert_eq!(MIGRATION_LOCK_ID, 0xDB_DB_DB_DB_DB_DB_DB);
    assert_eq!(MAX_CONNECTIONS, 5);
}
