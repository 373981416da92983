//! What a web handler answers, as plain values: a redirect, a bare status
//! code, or an HTML page.
use vstd::prelude::*;

verus! {

/// How a redirect is sent.
#[derive(Debug, Clone, Copy, PartialEq, Eq, Structural)]
pub enum RedirectKind {
    /// `303 See Other` (`Redirect::to`).
    SeeOther,
    /// `307 Temporary Redirect` (`Redirect::temporary`).
    Temporary,
}

/// The answer of a web handler.
#[derive(Debug, Clone)]
pub enum Reply {
    /// A redirect to `location`.
    Redirect { kind: RedirectKind, location: String },
    /// A response with this status code and an empty body.
    Status(u16),
    /// A `200 OK` HTML page.
    Page(String),
}

/// `303 See Other` to `location`.
pub fn see_other(location: &str) -> (r: Reply)
    ensures
        r matches Reply::Redirect { kind, location: l } && kind == RedirectKind::SeeOther && l@
            == location@,
{
    Reply::Redirect { kind: RedirectKind::SeeOther, location: String::from_str(location) }
}

/// `307 Temporary Redirect` to `location`.
pub fn temporary_redirect(location: &str) -> (r: Reply)
    ensures
        r matches Reply::Redirect { kind, location: l } && kind == RedirectKind::Temporary && l@
            == location@,
{
    Reply::Redirect { kind: RedirectKind::Temporary, location: String::from_str(location) }
}

} // verus!
