use knowledge::markdown::{
    checked_markdown_content, checked_markdown_draft, contains_list_item_tag, markdown_content,
    markdown_draft,
};
use knowledge::page_snapshot::{clean_raw_html, extract_title, page_url, PageError};

const ARTICLE: &str = "<html><head><title>My Article</title></head><body><nav><a href=\"/\">Home</a></nav><div id=\"content\"><p>This is the first paragraph of a long article about reading lists, written with enough words to look like content, commas, and more commas, so that it scores well.</p><p>This is the second paragraph of the article, again long enough, with commas, clauses, and plenty of text to be considered the main content of the page.</p></div></body></html>";

#[test]
fn url_parsing() {
    assert!(page_url("http://example.com/a").is_ok());
    assert_eq!(page_url("not a url").err(), Some(PageError::InvalidUrl));
}

#[test]
fn readability_keeps_the_article() {
    let url = page_url("http://example.com/article").unwrap();
    let cleaned = clean_raw_html(ARTICLE, &url).unwrap();
    assert_ne!(cleaned, ARTICLE);
    assert!(cleaned.contains("first paragraph"));
    assert!(!cleaned.contains("<title>"));
}

#[test]
fn title_of_a_page() {
    assert_eq!(extract_title(ARTICLE).unwrap(), Some("My Article".to_string()));
    assert_eq!(extract_title("<p>no title</p>").unwrap(), None);
    assert!(extract_title("").is_ok());
}

#[test]
fn markdown_of_cleaned_html() {
    let md = markdown_content("<h1>Head</h1><p>Body <b>bold</b></p>");
    assert_ne!(md, "<h1>Head</h1><p>Body <b>bold</b></p>");
    assert!(md.contains("Head"));
    assert!(md.contains("**bold**"));
    let draft = markdown_draft("<p>Body</p>", ARTICLE);
    assert_eq!(draft.title, Some("My Article".to_string()));
    assert!(draft.content_md.contains("Body"));
}

#[test]
fn list_item_tags_are_detected() {
    assert!(contains_list_item_tag("<br><b><li>x</li></b>"));
    assert!(contains_list_item_tag("<ul><LI class=\"a\">x</ul>"));
    assert!(contains_list_item_tag("<li/>"));
    assert!(contains_list_item_tag("text <li"));
    assert!(!contains_list_item_tag("<link rel=\"x\"><p>list</p></li>"));
    assert!(!contains_list_item_tag(""));
}

#[test]
fn checked_conversion_refuses_list_items() {
    assert_eq!(checked_markdown_content("<br><b><li>x</li></b>"), None);
    assert!(checked_markdown_draft("<ul><li>a</li></ul>", ARTICLE).is_none());
    let md = checked_markdown_content("<p>Body <i>it</i></p>").unwrap();
    assert_eq!(md, markdown_content("<p>Body <i>it</i></p>"));
    let d = checked_markdown_draft("<p>Body</p>", ARTICLE).unwrap();
    assert_eq!(d.title, Some("My Article".to_string()));
}
