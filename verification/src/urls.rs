//! Saved pages: what adding a URL for a user results in.
use vstd::prelude::*;
use crate::ids::{uuid_text, uuid_to_string};

verus! {

/// A URL saved by a user (a row of the `Pages` table).
#[derive(Debug, Clone, PartialEq, Eq)]
pub struct Page {
    pub page_id: u128,
    pub user_id: u128,
    pub url: String,
}

/// Whether adding a URL created a new page or found the user's existing one.
#[derive(Debug, Clone)]
pub enum AddUrlOutcome {
    Created(Page),
    Existing(Page),
}

/// Adding a URL was refused.
#[derive(Debug, Clone)]
pub enum AddUrlError {
    /// The user already saved this URL and re-adding was not allowed.
    AlreadyExists { url: String },
}

/// The page an outcome carries.
pub open spec fn outcome_page(o: AddUrlOutcome) -> Page {
    match o {
        AddUrlOutcome::Created(p) => p,
        AddUrlOutcome::Existing(p) => p,
    }
}

impl AddUrlOutcome {
    /// The page that was created or found.
    pub fn page(&self) -> (r: &Page)
        ensures
            *r == outcome_page(*self),
    {
        match self {
            AddUrlOutcome::Created(page) | AddUrlOutcome::Existing(page) => page,
        }
    }

    /// The line printed for this outcome.
    pub fn message(&self) -> (r: String)
        ensures
            self is Created ==> r@ == "URL '"@ + outcome_page(*self).url@ + "' added successfully."@,
            self is Existing ==> r@ == "URL '"@ + outcome_page(*self).url@
                + "' exists but re-adding is allowed."@,
    {
        let mut r = String::from_str("URL '");
        match self {
            AddUrlOutcome::Created(page) => {
                r.append(page.url.as_str());
                r.append("' added successfully.");
            },
            AddUrlOutcome::Existing(page) => {
                r.append(page.url.as_str());
                r.append("' exists but re-adding is allowed.");
            },
        }
        r
    }
}

impl AddUrlError {
    /// The error message.
    pub fn message(&self) -> (r: String)
        ensures
            r@ == "URL '"@ + self->url@ + "' already exists and re-adding is not allowed."@,
    {
        match self {
            AddUrlError::AlreadyExists { url } => {
                let mut r = String::from_str("URL '");
                r.append(url.as_str());
                r.append("' already exists and re-adding is not allowed.");
                r
            },
        }
    }
}

/// What adding a URL answers once the upsert into `Pages` returned `upserted`,
/// the upsert having been tried with the fresh id `new_page_id`.
pub open spec fn upsert_result(new_page_id: u128, upserted: Page, allow_existing: bool) -> Result<
    AddUrlOutcome,
    AddUrlError,
> {
    if upserted.page_id == new_page_id {
        Ok(AddUrlOutcome::Created(upserted))
    } else if allow_existing {
        Ok(AddUrlOutcome::Existing(upserted))
    } else {
        Err(AddUrlError::AlreadyExists { url: upserted.url })
    }
}

/// The outcome of adding a URL once the upsert into `Pages` returned a row.
///
/// The row carries the fresh id `new_page_id` exactly when the URL was new
/// for the user. A new URL is always created; an existing one is returned
/// only when `allow_existing`, else refused.
pub fn upsert_outcome(new_page_id: u128, upserted: Page, allow_existing: bool) -> (r: Result<
    AddUrlOutcome,
    AddUrlError,
>)
    ensures
        r == upsert_result(new_page_id, upserted, allow_existing),
{
    if upserted.page_id == new_page_id {
        Ok(AddUrlOutcome::Created(upserted))
    } else if allow_existing {
        Ok(AddUrlOutcome::Existing(upserted))
    } else {
        Err(AddUrlError::AlreadyExists { url: upserted.url })
    }
}

/// Adding a URL succeeds exactly when it is new or re-adding is allowed;
/// it reports `Created` exactly for a new URL; and the page it reports is
/// the row the upsert returned.
pub proof fn lemma_add_url_outcome(new_page_id: u128, upserted: Page, allow_existing: bool)
    ensures
        upsert_result(new_page_id, upserted, allow_existing) is Ok <==> (upserted.page_id
            == new_page_id || allow_existing),
        upsert_result(new_page_id, upserted, allow_existing) matches Ok(o) ==> outcome_page(o)
            == upserted && (o is Created <==> upserted.page_id == new_page_id),
        upsert_result(new_page_id, upserted, allow_existing) matches Err(e) ==> e->url
            == upserted.url,
{
}

/// What the URL-only insert into `Page` does once it has asked
/// whether the URL exists.
#[derive(Debug, Clone, Copy, PartialEq, Eq, Structural)]
pub enum UrlInsertDecision {
    /// The URL exists and re-adding is allowed: nothing is inserted.
    ExistsAllowed,
    /// The URL exists and re-adding is not allowed: an error.
    ExistsRefused,
    /// The URL is new: it is inserted.
    Insert,
}

/// Decides the URL-only insert from the `EXISTS` answer (`NULL` counts as
/// not existing).
pub fn url_insert_decision(exists: Option<bool>, allow_existing: bool) -> (r: UrlInsertDecision)
    ensures
        exists == Some(true) && allow_existing ==> r == UrlInsertDecision::ExistsAllowed,
        exists == Some(true) && !allow_existing ==> r == UrlInsertDecision::ExistsRefused,
        exists != Some(true) ==> r == UrlInsertDecision::Insert,
{
    match exists {
        Some(true) => if allow_existing {
            UrlInsertDecision::ExistsAllowed
        } else {
            UrlInsertDecision::ExistsRefused
        },
        _ => UrlInsertDecision::Insert,
    }
}

impl UrlInsertDecision {
    /// The message of the two answers given without inserting.
    pub fn message(&self) -> (r: Option<String>)
        ensures
            *self == UrlInsertDecision::ExistsAllowed ==> (r matches Some(m) && m@
                == "URL already exists and re-adding is allowed."@),
            *self == UrlInsertDecision::ExistsRefused ==> (r matches Some(m) && m@
                == "URL already exists and re-adding is not allowed."@),
            *self == UrlInsertDecision::Insert ==> r is None,
    {
        match self {
            UrlInsertDecision::ExistsAllowed => Some(
                String::from_str("URL already exists and re-adding is allowed."),
            ),
            UrlInsertDecision::ExistsRefused => Some(
                String::from_str("URL already exists and re-adding is not allowed."),
            ),
            UrlInsertDecision::Insert => None,
        }
    }
}

/// Path of a saved page's detail view.
pub open spec fn article_path(page_id: u128) -> Seq<char> {
    "/articles/"@ + uuid_text(page_id)
}

/// Path of a saved page's detail view, `/articles/{page_id}`.
pub fn article_location(page_id: u128) -> (r: String)
    ensures
        r@ == article_path(page_id),
{
    let mut r = String::from_str("/articles/");
    let id = uuid_to_string(page_id);
    r.append(id.as_str());
    r
}

/// Where the browser goes after a URL was submitted on the dashboard: the
/// page's detail view, with a success message.
pub fn article_added_location(page_id: u128) -> (r: String)
    ensures
        r@ == article_path(page_id) + "?flash[success]=Article added"@,
{
    let mut r = article_location(page_id);
    r.append("?flash[success]=Article added");
    r
}

} // verus!
