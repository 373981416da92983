use knowledge::prompts::{
    categories_prompt, completion_text, first_category, model, summary_prompt, CATEGORY_MAX_TOKENS,
    SUMMARY_MAX_TOKENS,
};
use knowledge::urls::{
    article_added_location, article_location, upsert_outcome, url_insert_decision, AddUrlError,
    AddUrlOutcome, Page, UrlInsertDecision,
};

fn page(id: u128) -> Page {
    Page { page_id: id, user_id: 9, url: "http://example.com".to_string() }
}

#[test]
fn new_url_is_created_whatever_allow_existing_says() {
    for allow in [true, false] {
        match upsert_outcome(5, page(5), allow) {
            Ok(AddUrlOutcome::Created(p)) => assert_eq!(p, page(5)),
            other => panic!("unexpected {:?}", other),
        }
    }
}

#[test]
fn existing_url_is_returned_only_when_allowed() {
    match upsert_outcome(5, page(7), true) {
        Ok(AddUrlOutcome::Existing(p)) => assert_eq!(p, page(7)),
        other => panic!("unexpected {:?}", other),
    }
    match upsert_outcome(5, page(7), false) {
        Err(AddUrlError::AlreadyExists { url }) => assert_eq!(url, "http://example.com"),
        other => panic!("unexpected {:?}", other),
    }
}

#[test]
fn outcome_page_and_messages() {
    let created = AddUrlOutcome::Created(page(1));
    assert_eq!(created.page(), &page(1));
    assert_eq!(created.message(), "URL 'http://example.com' added successfully.");
    let existing = AddUrlOutcome::Existing(page(2));
    assert_eq!(existing.page(), &page(2));
    assert_eq!(existing.message(), "URL 'http://example.com' exists but re-adding is allowed.");
    let err = AddUrlError::AlreadyExists { url: "x".to_string() };
    assert_eq!(err.message(), "URL 'x' already exists and re-adding is not allowed.");
}

#[test]
fn older_add_url_decisions() {
    assert_eq!(url_insert_decision(Some(true), true), UrlInsertDecision::ExistsAllowed);
    assert_eq!(url_insert_decision(Some(true), false), UrlInsertDecision::ExistsRefused);
    assert_eq!(url_insert_decision(Some(false), false), UrlInsertDecision::Insert);
    assert_eq!(url_insert_decision(None, true), UrlInsertDecision::Insert);
    assert_eq!(
        UrlInsertDecision::ExistsAllowed.message(),
        Some("URL already exists and re-adding is allowed.".to_string())
    );
    assert_eq!(
        UrlInsertDecision::ExistsRefused.message(),
        Some("URL already exists and re-adding is not allowed.".to_string())
    );
    assert_eq!(UrlInsertDecision::Insert.message(), None);
}

#[test]
fn article_locations() {
    assert_eq!(article_location(1), "/articles/00000000-0000-0000-0000-000000000001");
    assert_eq!(
        article_added_location(1),
        "/articles/00000000-0000-0000-0000-000000000001?flash[success]=Article added"
    );
}

#[test]
fn prompts_embed_the_content() {
    assert_eq!(
        summary_prompt("TEXT"),
        "Provide a concise summary of the following article that can be read and understood in 2 minutes, focusing on the main points and essential details: TEXT"
    );
    assert_eq!(
        categories_prompt("TEXT"),
        "Provide unique categories for the following article. Do not exceed two words per category. Separate categories with commas:\n: TEXT"
    );
    assert_eq!(model(), "gpt-4o");
    assert_eq!(SUMMARY_MAX_TOKENS, 4096);
    assert_eq!(CATEGORY_MAX_TOKENS, 100);
}

#[test]
fn first_category_is_trimmed_and_comma_free() {
    assert_eq!(first_category(" Machine Learning , Rust, Web"), "Machine Learning");
    assert_eq!(first_category("Cooking"), "Cooking");
    assert_eq!(first_category(""), "");
    assert_eq!(first_category(",Later"), "");
    let c = first_category("\n Databases\t,x");
    assert!(!c.contains(','));
    assert_eq!(c.trim(), c);
}

#[test]
fn completion_text_of_first_choice() {
    assert_eq!(completion_text(&vec![Some("hi".to_string()), Some("no".to_string())]), "hi");
    assert_eq!(completion_text(&vec![None]), "");
}
