//! The command-line client's logic: the session file that remembers who is
//! logged in, the status report, sign-up names and the user listing.
use vstd::prelude::*;
use crate::ids::{lemma_uuid_text_chars, parse_uuid, uuid_parse, uuid_text, uuid_to_string};
use crate::text::{is_white_space, trim, trimmed};
use crate::users::User;

verus! {

/// Why the command line does not know who is logged in.
#[derive(Debug, Clone, Copy, PartialEq, Eq, Structural)]
pub enum AuthError {
    /// There is no session file.
    NotLoggedIn,
    /// The session file names a user that the database does not know.
    UnknownUser,
}

/// What the session file holds once a user is remembered: the user id
/// in hyphenated form and a line break.
pub open spec fn session_file_text(user_id: u128) -> Seq<char> {
    uuid_text(user_id).push('\n')
}

/// The user id that a session file's contents name, if any.
pub open spec fn session_file_user(contents: Seq<char>) -> Option<u128> {
    uuid_parse(trimmed(contents))
}

/// The report printed for a logged-in user.
pub open spec fn status_line(username: Seq<char>, user_id: u128) -> Seq<char> {
    "Logged in with Username: "@ + username + ", User ID: "@ + uuid_text(user_id)
}

/// The line printed after a user was created.
pub open spec fn user_added_line(username: Seq<char>, user_id: u128) -> Seq<char> {
    "User "@ + username + " added successfully with ID "@ + uuid_text(user_id) + "!"@
}

/// One line of the user listing.
pub open spec fn user_line(user: User) -> Seq<char> {
    "User ID: "@ + uuid_text(user.user_id) + ", Username: "@ + user.user_name@
}

/// The lines of the user listing for a list of users.
pub open spec fn listing(users: Seq<User>) -> Seq<Seq<char>> {
    if users.len() == 0 {
        seq!["Nothing to display"@]
    } else {
        Seq::new(users.len(), |i: int| user_line(users[i]))
    }
}

impl AuthError {
    /// The message the command line reports for this error.
    pub fn message(&self) -> (r: String)
        ensures
            r@ == match *self {
                AuthError::NotLoggedIn => "Not logged in."@,
                AuthError::UnknownUser => "User ID not found in database."@,
            },
    {
        match self {
            AuthError::NotLoggedIn => String::from_str("Not logged in."),
            AuthError::UnknownUser => String::from_str("User ID not found in database."),
        }
    }
}

/// The session file's contents that remember `user_id`.
pub fn session_file_contents(user_id: u128) -> (r: String)
    ensures
        r@ == session_file_text(user_id),
{
    let mut r = uuid_to_string(user_id);
    crate::text::push_char(&mut r, '\n');
    r
}

/// Reads the user id out of a session file's contents, ignoring
/// surrounding whitespace; contents that are not a UUID give the UUID
/// parser's own error.
///
/// A file written by `session_file_contents(id)` reads back as `id`.
pub fn read_session_file(contents: &str) -> (r: Result<u128, uuid::Error>)
    ensures
        r is Ok <==> session_file_user(contents@) is Some,
        r matches Ok(v) ==> session_file_user(contents@) == Some(v),
        forall|id: u128| contents@ == #[trigger] session_file_text(id) ==> (r matches Ok(v) && v == id),
{
    let t = trim(contents);
    proof {
        assert forall|id: u128| contents@ == #[trigger] session_file_text(id) implies t@ == uuid_text(id) by {
            lemma_written_session_is_trimmed(id);
        }
    }
    parse_uuid(t.as_str())
}

/// Trimming the written session file gives back exactly the hyphenated id.
pub proof fn lemma_written_session_is_trimmed(id: u128)
    ensures
        trimmed(session_file_text(id)) == uuid_text(id),
{
    lemma_uuid_text_chars(id);
    let s = session_file_text(id);
    assert forall|k: int| 0 <= k < 36 implies !is_white_space(#[trigger] s[k]) by {
        assert(s[k] == uuid_text(id)[k]);
    }
    assert(s[36] == '\n');
    crate::text::lemma_trimmed_bounds(s, 0, 36);
    assert(s.subrange(0, 36) =~= uuid_text(id));
}

/// The status report once the database has answered
/// whether a user with the session's id exists: the status report, or
/// `UnknownUser`.
pub fn status_report(user_id: u128, username: Option<String>) -> (r: Result<String, AuthError>)
    ensures
        username is None ==> r == Err::<String, AuthError>(AuthError::UnknownUser),
        username matches Some(name) ==> (r matches Ok(line) && line@ == status_line(name@, user_id)),
{
    match username {
        Some(name) => {
            let mut line = String::from_str("Logged in with Username: ");
            line.append(name.as_str());
            line.append(", User ID: ");
            let id = uuid_to_string(user_id);
            line.append(id.as_str());
            Ok(line)
        },
        None => Err(AuthError::UnknownUser),
    }
}

/// The name a new user signs up with: the one given on the command line,
/// else the line typed at the prompt without surrounding whitespace.
pub fn resolve_username(given: Option<String>, typed: &str) -> (r: String)
    ensures
        given matches Some(name) ==> r@ == name@,
        given is None ==> r@ == trimmed(typed@),
{
    match given {
        Some(name) => name,
        None => trim(typed),
    }
}

/// The line printed after creating a user.
pub fn user_added_message(username: &str, user_id: u128) -> (r: String)
    ensures
        r@ == user_added_line(username@, user_id),
{
    let mut line = String::from_str("User ");
    line.append(username);
    line.append(" added successfully with ID ");
    let id = uuid_to_string(user_id);
    line.append(id.as_str());
    line.append("!");
    line
}

/// The user listing: one line per user, or a notice that there
/// is nothing to display.
pub fn user_listing(users: &Vec<User>) -> (r: Vec<String>)
    ensures
        r@.len() == listing(users@).len(),
        forall|i: int| 0 <= i < r@.len() ==> #[trigger] r@[i]@ == listing(users@)[i],
{
    let mut r: Vec<String> = Vec::new();
    if users.len() == 0 {
        r.push(String::from_str("Nothing to display"));
        return r;
    }
    let mut i: usize = 0;
    while i < users.len()
        invariant
            0 < users@.len(),
            i <= users@.len(),
            r@.len() == i,
            forall|k: int| 0 <= k < i ==> #[trigger] r@[k]@ == user_line(users@[k]),
        decreases users@.len() - i,
    {
        let user = &users[i];
        let mut line = String::from_str("User ID: ");
        let id = uuid_to_string(user.user_id);
        line.append(id.as_str());
        line.append(", Username: ");
        line.append(user.user_name.as_str());
        r.push(line);
        i = i + 1;
    }
    r
}

} // verus!
