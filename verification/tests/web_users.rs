use knowledge::responses::{RedirectKind, Reply};
use knowledge::users::{
    admin_check, is_admin, login_decision, logout_target, name_login_decision, resolve_session,
    session_lookup_key, session_user_id, signup_decision, ExtractAdminError, ExtractUserError,
    FormData, FromData, LoginOutcome, Session, SessionError, SignupOutcome, User,
    SESSION_LIFETIME_DAYS,
};

fn user(name: &str, hash: Option<String>) -> User {
    User { user_id: 42, user_name: name.to_string(), password_hash: hash }
}

fn form(password: &str) -> FromData {
    FromData { username: "ada".to_string(), password: password.to_string() }
}

#[test]
fn signup_then_login_with_the_same_password() {
    let signup = FormData { username: "ada".to_string(), password: "hunter2".to_string() };
    let hash = match signup_decision(false, &signup) {
        SignupOutcome::Create { password_hash } => password_hash,
        SignupOutcome::UsernameTaken => panic!("name was free"),
    };
    assert_ne!(hash, "hunter2");
    let outcome = login_decision(Some(user("ada", Some(hash.clone()))), &form("hunter2"));
    assert_eq!(outcome, LoginOutcome::LoggedIn { user_id: 42 });
    assert_eq!(outcome.redirect_target(), "/dashboard");
    let wrong = login_decision(Some(user("ada", Some(hash))), &form("hunter3"));
    assert_eq!(wrong, LoginOutcome::WrongPassword);
    assert_eq!(wrong.redirect_target(), "/login?flash[error]=Invalid Password");
}

#[test]
fn login_without_user_or_hash_goes_back_to_login() {
    let none = login_decision(None, &form("x"));
    assert_eq!(none, LoginOutcome::NoSuchUser);
    assert_eq!(none.redirect_target(), "/login");
    let no_hash = login_decision(Some(user("ada", None)), &form("x"));
    assert_eq!(no_hash, LoginOutcome::NoPassword);
    assert_eq!(no_hash.redirect_target(), "/login");
}

#[test]
fn unreadable_hash_is_an_internal_error() {
    let o = login_decision(Some(user("ada", Some("not a phc string".to_string()))), &form("x"));
    assert_eq!(o, LoginOutcome::UnreadableHash { user_id: 42 });
    assert_eq!(
        o.redirect_target(),
        "/login?flash[error]=Internal Error, Please try again. Team has been notified"
    );
}

#[test]
fn taken_username_is_refused() {
    let f = FormData { username: "ada".to_string(), password: "p".to_string() };
    let o = signup_decision(true, &f);
    let other = FormData { username: "ada".to_string(), password: "x".repeat(16) };
    assert!(matches!(signup_decision(true, &other), SignupOutcome::UsernameTaken));
    assert!(matches!(o, SignupOutcome::UsernameTaken));
    assert_eq!(o.redirect_target(), "/signup?flash[error]=Sorry this username is taken.");
    let created = signup_decision(false, &f);
    assert_eq!(created.redirect_target(), "/dashboard");
}

#[test]
fn older_login_needs_only_a_known_name() {
    match name_login_decision(None) {
        Reply::Redirect { kind, location } => {
            assert_eq!(kind, RedirectKind::SeeOther);
            assert_eq!(location, "/login");
        }
        other => panic!("{:?}", other),
    }
    match name_login_decision(Some(user("ada", None))) {
        Reply::Redirect { location, .. } => assert_eq!(location, "/dashboard"),
        other => panic!("{:?}", other),
    }
    assert_eq!(logout_target(), "/");
}

#[test]
fn session_cookie_and_lookup() {
    assert_eq!(session_lookup_key(None), None);
    assert_eq!(session_lookup_key(Some("garbage")), None);
    assert_eq!(session_lookup_key(Some("00000000-0000-0000-0000-000000000007")), Some(7));
    let s = Session { session_id: 7, user_id: Some(3) };
    assert_eq!(resolve_session(Ok(Some(s))), Some(s));
    assert_eq!(resolve_session(Ok(None)), None);
    assert_eq!(resolve_session(Err(())), None);
    assert_eq!(SESSION_LIFETIME_DAYS, 7);
}

#[test]
fn session_user() {
    assert!(matches!(session_user_id(&Session { session_id: 1, user_id: Some(3) }), Ok(3)));
    assert!(matches!(
        session_user_id(&Session { session_id: 1, user_id: None }),
        Err(ExtractUserError::NoUserId)
    ));
}

#[test]
fn extract_user_error_responses() {
    for e in [ExtractUserError::NoSession, ExtractUserError::NoUserId] {
        match e.response() {
            Reply::Redirect { kind, location } => {
                assert_eq!(kind, RedirectKind::Temporary);
                assert_eq!(location, "/login");
            }
            other => panic!("{:?}", other),
        }
    }
    assert!(matches!(ExtractUserError::SqlxError("boom".to_string()).response(), Reply::Status(500)));
    let from_session: ExtractUserError = SessionError.into();
    assert!(matches!(from_session, ExtractUserError::NoSession));
    assert_eq!(SessionError.status_code(), 500);
}

#[test]
fn admins_are_listed_exactly() {
    assert!(is_admin("alice,bob", &user("bob", None)));
    assert!(!is_admin("alice, bob", &user("bob", None)));
    assert!(!is_admin("alice,bob", &user("bo", None)));
    assert!(!is_admin("", &user("bob", None)));
    assert!(!is_admin(",,", &user("", None)));
    assert!(admin_check("bob", user("bob", None)).is_ok());
    assert!(matches!(admin_check("alice", user("bob", None)), Err(ExtractAdminError::NotAdmin)));
}

#[test]
fn admin_refusals_are_unauthorized() {
    let not_admin = ExtractAdminError::NotAdmin;
    assert_eq!(not_admin.status_code(), 401);
    assert!(!not_admin.is_reported());
    let sql = ExtractAdminError::ExtractUserError(ExtractUserError::SqlxError("x".to_string()));
    assert_eq!(sql.status_code(), 401);
    assert!(sql.is_reported());
    let no_session = ExtractAdminError::ExtractUserError(ExtractUserError::NoSession);
    assert_eq!(no_session.status_code(), 401);
    assert!(!no_session.is_reported());
}
