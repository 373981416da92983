//! Users, sessions and the decisions behind logging in, signing up,
//! logging out and the admin area.
use vstd::prelude::*;
use crate::ids::{parse_uuid, uuid_parse};
use crate::responses::{see_other, temporary_redirect, RedirectKind, Reply};
use crate::text::{contains_field, has_field};

verus! {

/// A user as stored in the `Users` table.
#[derive(Debug, Clone)]
pub struct User {
    pub user_id: u128,
    pub user_name: String,
    /// PHC-format password hash; users created from the command line have none.
    pub password_hash: Option<String>,
}

/// A browser session as stored in the `Sessions` table (the fields the
/// logic reads).
#[derive(Debug, Clone, Copy, PartialEq, Eq, Structural)]
pub struct Session {
    pub session_id: u128,
    /// The logged-in user, if any.
    pub user_id: Option<u128>,
}

/// A session could not be read or created.
#[derive(Debug, Clone, Copy, PartialEq, Eq, Structural)]
pub struct SessionError;

/// How long a new session lives, in days.
pub const SESSION_LIFETIME_DAYS: i64 = 7;

impl SessionError {
    /// `500 Internal Server Error`.
    pub fn status_code(&self) -> (r: u16)
        ensures
            r == 500,
    {
        500
    }
}

/// Why the logged-in user could not be found for a request.
#[derive(Debug, Clone)]
pub enum ExtractUserError {
    NoSession,
    NoUserId,
    /// The database failed; the message describes the failure.
    SqlxError(String),
}

impl ExtractUserError {
    /// The answer to a request whose user could not be found: back to the
    /// login page, or `500` when the database failed.
    pub fn response(&self) -> (r: Reply)
        ensures
            self is SqlxError ==> r == Reply::Status(500),
            !(self is SqlxError) ==> (r matches Reply::Redirect { kind, location }
                && kind == RedirectKind::Temporary && location@ == "/login"@),
    {
        match self {
            ExtractUserError::NoSession | ExtractUserError::NoUserId => temporary_redirect("/login"),
            ExtractUserError::SqlxError(_) => Reply::Status(500),
        }
    }
}

impl From<SessionError> for ExtractUserError {
    fn from(e: SessionError) -> (r: Self) {
        ExtractUserError::NoSession
    }
}

impl vstd::std_specs::convert::FromSpecImpl<SessionError> for ExtractUserError {
    open spec fn obeys_from_spec() -> bool {
        true
    }

    open spec fn from_spec(e: SessionError) -> Self {
        ExtractUserError::NoSession
    }
}

/// The session id that a session cookie names, if any: a missing cookie or
/// one that is not a UUID means a new session must be created.
pub fn session_lookup_key(cookie_value: Option<&str>) -> (r: Option<u128>)
    ensures
        cookie_value is None ==> r is None,
        cookie_value matches Some(v) ==> r == uuid_parse(v@),
{
    match cookie_value {
        None => None,
        Some(v) => match parse_uuid(v) {
            Ok(id) => Some(id),
            Err(_) => None,
        },
    }
}

/// The session to use once the database was asked for the cookie's
/// session: the stored one, or `None` when a new one must be created (the
/// lookup failed or found nothing).
pub fn resolve_session(lookup: Result<Option<Session>, ()>) -> (r: Option<Session>)
    ensures
        lookup matches Ok(Some(s)) ==> r == Some(s),
        !(lookup matches Ok(Some(_))) ==> r is None,
{
    match lookup {
        Ok(Some(s)) => Some(s),
        _ => None,
    }
}

/// The logged-in user of a session, or `NoUserId` when nobody is logged in.
pub fn session_user_id(session: &Session) -> (r: Result<u128, ExtractUserError>)
    ensures
        session.user_id matches Some(id) ==> (r matches Ok(v) && v == id),
        session.user_id is None ==> r matches Err(ExtractUserError::NoUserId),
{
    match session.user_id {
        Some(id) => Ok(id),
        None => Err(ExtractUserError::NoUserId),
    }
}

// ---------------------------------------------------------------------------
// Forms

/// The login form of the name-only login.
#[derive(Debug, Clone)]
pub struct LoginFromData {
    pub username: String,
    pub password: String,
}

/// The login form checked against the password hash.
#[derive(Debug, Clone)]
pub struct FromData {
    pub username: String,
    pub password: String,
}

/// The sign-up form.
#[derive(Debug, Clone)]
pub struct FormData {
    pub username: String,
    pub password: String,
}

/// The dashboard's form for saving a URL.
#[derive(Debug, Clone)]
pub struct ArticleForm {
    pub url: String,
}

// ---------------------------------------------------------------------------
// Passwords

/// What `password_auth::verify_password` answers for a password and a
/// stored hash: `None` when the hash does not parse, else whether the
/// password matches it.
pub uninterp spec fn password_verification(password: Seq<char>, hash: Seq<char>) -> Option<bool>;

/// Outcome of checking a password against a stored hash.
#[derive(Debug, Clone, Copy, PartialEq, Eq, Structural)]
pub enum PasswordCheck {
    Verified,
    PasswordInvalid,
    HashUnreadable,
}

/// The check that corresponds to a verification answer.
pub open spec fn check_of(v: Option<bool>) -> PasswordCheck {
    match v {
        None => PasswordCheck::HashUnreadable,
        Some(true) => PasswordCheck::Verified,
        Some(false) => PasswordCheck::PasswordInvalid,
    }
}

/// Checks a password with `password_auth::verify_password`.
///
/// Trusted: the answer is `password_verification` of the two strings
/// (`Ok(())` is a match, `VerifyError::PasswordInvalid` a mismatch,
/// `VerifyError::Parse` an unreadable hash); verification is deterministic.
#[verifier::external_body]
fn verify_password(password: &str, hash: &str) -> (r: PasswordCheck)
    ensures
        r == check_of(password_verification(password@, hash@)),
{
    match password_auth::verify_password(password, hash) {
        Ok(()) => PasswordCheck::Verified,
        Err(password_auth::VerifyError::PasswordInvalid) => PasswordCheck::PasswordInvalid,
        Err(password_auth::VerifyError::Parse(_)) => PasswordCheck::HashUnreadable,
    }
}

/// Whether Argon2 accepts a password of this length: at most `0xFFFF_FFFF`
/// bytes in UTF-8.
pub open spec fn password_fits(password: Seq<char>) -> bool {
    vstd::utf8::encode_utf8(password).len() <= 0xFFFF_FFFF
}

/// Hashes a password with `password_auth::generate_hash` (Argon2 with a
/// random salt).
///
/// Trusted: the salt is random, so only this is stated of the result:
/// `verify_password` accepts the same password against it (the hash is
/// the PHC string of an Argon2 hash of this password, which
/// `verify_password` parses and checks with Argon2). Nothing is stated of
/// which salt was drawn.
#[verifier::external_body]
fn hash_password(password: &str) -> (r: String)
    requires
        password_fits(password@),
    ensures
        password_verification(password@, r@) == Some(true),
{
    password_auth::generate_hash(password)
}

// ---------------------------------------------------------------------------
// Logging in

/// The outcome of a login attempt.
#[derive(Debug, Clone, Copy, PartialEq, Eq, Structural)]
pub enum LoginOutcome {
    /// No user has this name.
    NoSuchUser,
    /// The user has no password hash.
    NoPassword,
    /// The password is right: the session is given to this user.
    LoggedIn { user_id: u128 },
    /// The password is wrong.
    WrongPassword,
    /// The stored hash cannot be read; the user is named for the error log.
    UnreadableHash { user_id: u128 },
}

/// The outcome of logging in as `user` (the user found by name, if any)
/// with `password`.
pub open spec fn login_outcome(user: Option<User>, password: Seq<char>) -> LoginOutcome {
    match user {
        None => LoginOutcome::NoSuchUser,
        Some(u) => match u.password_hash {
            None => LoginOutcome::NoPassword,
            Some(h) => match password_verification(password, h@) {
                Some(true) => LoginOutcome::LoggedIn { user_id: u.user_id },
                Some(false) => LoginOutcome::WrongPassword,
                None => LoginOutcome::UnreadableHash { user_id: u.user_id },
            },
        },
    }
}

/// Where the browser is sent after a login attempt.
pub open spec fn login_target(o: LoginOutcome) -> Seq<char> {
    match o {
        LoginOutcome::NoSuchUser | LoginOutcome::NoPassword => "/login"@,
        LoginOutcome::LoggedIn { .. } => "/dashboard"@,
        LoginOutcome::WrongPassword => "/login?flash[error]=Invalid Password"@,
        LoginOutcome::UnreadableHash { .. } =>
            "/login?flash[error]=Internal Error, Please try again. Team has been notified"@,
    }
}

/// Decides a login attempt once the user with the
/// form's name has been looked up.
pub fn login_decision(user: Option<User>, form: &FromData) -> (r: LoginOutcome)
    ensures
        r == login_outcome(user, form.password@),
{
    let password = form.password.as_str();
    match user {
        None => LoginOutcome::NoSuchUser,
        Some(u) => match u.password_hash {
            None => LoginOutcome::NoPassword,
            Some(h) => match verify_password(password, h.as_str()) {
                PasswordCheck::Verified => LoginOutcome::LoggedIn { user_id: u.user_id },
                PasswordCheck::PasswordInvalid => LoginOutcome::WrongPassword,
                PasswordCheck::HashUnreadable => LoginOutcome::UnreadableHash { user_id: u.user_id },
            },
        },
    }
}

impl LoginOutcome {
    /// Where the browser is sent after this outcome.
    pub fn redirect_target(&self) -> (r: String)
        ensures
            r@ == login_target(*self),
    {
        match self {
            LoginOutcome::NoSuchUser | LoginOutcome::NoPassword => String::from_str("/login"),
            LoginOutcome::LoggedIn { .. } => String::from_str("/dashboard"),
            LoginOutcome::WrongPassword => String::from_str("/login?flash[error]=Invalid Password"),
            LoginOutcome::UnreadableHash { .. } => String::from_str(
                "/login?flash[error]=Internal Error, Please try again. Team has been notified",
            ),
        }
    }
}

/// The name-only login: a known user name is enough.
pub fn name_login_decision(user: Option<User>) -> (r: Reply)
    ensures
        user is None ==> (r matches Reply::Redirect { kind, location } && kind
            == RedirectKind::SeeOther && location@ == "/login"@),
        user is Some ==> (r matches Reply::Redirect { kind, location } && kind
            == RedirectKind::SeeOther && location@ == "/dashboard"@),
{
    match user {
        None => see_other("/login"),
        Some(_) => see_other("/dashboard"),
    }
}

/// Where the browser is sent after logging out.
pub fn logout_target() -> (r: String)
    ensures
        r@ == "/"@,
{
    String::from_str("/")
}

// ---------------------------------------------------------------------------
// Signing up

/// The outcome of a sign-up attempt.
#[derive(Debug, Clone)]
pub enum SignupOutcome {
    /// The name is taken; the browser goes back to the form with a message.
    UsernameTaken,
    /// A user is created with this password hash and the session is given to it.
    Create { password_hash: String },
}

/// Where the browser is sent when the name is taken.
pub open spec fn username_taken_target() -> Seq<char> {
    "/signup?flash[error]=Sorry this username is taken."@
}

/// Decides a sign-up attempt once the database has
/// said whether the form's name is taken.
pub fn signup_decision(username_taken: bool, form: &FormData) -> (r: SignupOutcome)
    requires
        !username_taken ==> password_fits(form.password@),
    ensures
        username_taken ==> r is UsernameTaken,
        !username_taken ==> (r matches SignupOutcome::Create { password_hash }
            && password_verification(form.password@, password_hash@) == Some(true)),
{
    if username_taken {
        SignupOutcome::UsernameTaken
    } else {
        SignupOutcome::Create { password_hash: hash_password(form.password.as_str()) }
    }
}

impl SignupOutcome {
    /// Where the browser is sent after this outcome.
    pub fn redirect_target(&self) -> (r: String)
        ensures
            self is UsernameTaken ==> r@ == username_taken_target(),
            self is Create ==> r@ == "/dashboard"@,
    {
        match self {
            SignupOutcome::UsernameTaken => String::from_str(
                "/signup?flash[error]=Sorry this username is taken.",
            ),
            SignupOutcome::Create { .. } => String::from_str("/dashboard"),
        }
    }
}

/// A user who signed up with a password logs in with that same password.
pub proof fn lemma_signup_then_login(user: User, password: Seq<char>, hash: String)
    requires
        password_verification(password, hash@) == Some(true),
        user.password_hash == Some(hash),
    ensures
        login_outcome(Some(user), password) == (LoginOutcome::LoggedIn { user_id: user.user_id }),
        login_target(login_outcome(Some(user), password)) == "/dashboard"@,
{
}

// ---------------------------------------------------------------------------
// Admin area

/// A logged-in user who is an administrator.
#[derive(Debug, Clone)]
pub struct AdminUser(pub User);

/// Why a request was refused the admin area.
#[derive(Debug, Clone)]
pub enum ExtractAdminError {
    ExtractUserError(ExtractUserError),
    NotAdmin,
}

/// `user_name` is listed in the comma-separated administrator names
/// (empty entries are ignored, so an empty name never is).
pub open spec fn listed_admin(admin_usernames: Seq<char>, user_name: Seq<char>) -> bool {
    user_name.len() > 0 && has_field(admin_usernames, ',', user_name)
}

/// Every non-empty entry of the administrator list admits the user with
/// exactly that name, wherever it stands in the list: the entry runs from
/// the list's start or a comma to the next comma or the list's end.
pub proof fn lemma_every_listed_name_is_admin(admin_usernames: Seq<char>, user_name: Seq<char>, i: int, j: int)
    requires
        0 <= i <= j <= admin_usernames.len(),
        i == 0 || admin_usernames[i - 1] == ',',
        j == admin_usernames.len() || admin_usernames[j] == ',',
        forall|k: int| i <= k < j ==> admin_usernames[k] != ',',
        admin_usernames.subrange(i, j) == user_name,
        user_name.len() > 0,
    ensures
        listed_admin(admin_usernames, user_name),
{
    assert(crate::text::is_field(admin_usernames, ',', i, j));
}

/// Only listed names are admitted: an admitted name is non-empty, holds no
/// comma, and is one whole entry of the list.
pub proof fn lemma_admin_is_a_listed_name(admin_usernames: Seq<char>, user_name: Seq<char>)
    requires
        listed_admin(admin_usernames, user_name),
    ensures
        user_name.len() > 0,
        !user_name.contains(','),
        exists|i: int, j: int|
            0 <= i <= j <= admin_usernames.len() && (i == 0 || admin_usernames[i - 1] == ',') && (j
                == admin_usernames.len() || admin_usernames[j] == ',') && #[trigger] admin_usernames.subrange(
                i,
                j,
            ) == user_name,
{
    let (i, j) = choose|i: int, j: int|
        crate::text::is_field(admin_usernames, ',', i, j) && #[trigger] admin_usernames.subrange(i, j)
            == user_name;
    assert forall|k: int| 0 <= k < user_name.len() implies user_name[k] != ',' by {
        assert(user_name[k] == admin_usernames[i + k]);
    }
}

/// Whether `user` is an administrator according to the comma-separated
/// list of names in `ADMIN_USERNAMES` (`admin_usernames`, empty when unset).
pub fn is_admin(admin_usernames: &str, user: &User) -> (r: bool)
    ensures
        r == listed_admin(admin_usernames@, user.user_name@),
{
    if user.user_name.as_str().unicode_len() == 0 {
        return false;
    }
    contains_field(admin_usernames, ',', user.user_name.as_str())
}

/// Admits `user` to the admin area, or refuses with `NotAdmin`.
pub fn admin_check(admin_usernames: &str, user: User) -> (r: Result<AdminUser, ExtractAdminError>)
    ensures
        listed_admin(admin_usernames@, user.user_name@) ==> (r matches Ok(a) && a.0 == user),
        !listed_admin(admin_usernames@, user.user_name@) ==> r matches Err(ExtractAdminError::NotAdmin),
{
    if is_admin(admin_usernames, &user) {
        Ok(AdminUser(user))
    } else {
        Err(ExtractAdminError::NotAdmin)
    }
}

impl ExtractAdminError {
    /// Every refusal is answered `401 Unauthorized`.
    pub fn status_code(&self) -> (r: u16)
        ensures
            r == 401,
    {
        401
    }

    /// Only a database failure is reported to the error log.
    pub fn is_reported(&self) -> (r: bool)
        ensures
            r == (self matches ExtractAdminError::ExtractUserError(ExtractUserError::SqlxError(_))),
    {
        match self {
            ExtractAdminError::ExtractUserError(ExtractUserError::SqlxError(_)) => true,
            _ => false,
        }
    }
}

} // verus!
