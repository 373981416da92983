//! Markdown versions of snapshots.
use vstd::prelude::*;
use crate::page_snapshot::{extract_title, first_match_text, opt_view};
use crate::text::chars_of;

verus! {

/// The Markdown that `html2md::parse_html` makes of `html`.
pub uninterp spec fn markdown_of(html: Seq<char>) -> Seq<char>;

/// A character that ends a tag name in HTML's tokenizer (whitespace, `/`
/// or `>`; a carriage return counts, as the parser reads it as a line feed).
pub open spec fn ends_tag_name(c: char) -> bool {
    c == ' ' || c == '\t' || c == '\n' || c == '\r' || c == '\x0C' || c == '/' || c == '>'
}

/// An `li` start tag (in any letter case) begins at position `i` of `s`.
pub open spec fn list_item_tag_at(s: Seq<char>, i: int) -> bool {
    &&& 0 <= i
    &&& i + 3 <= s.len()
    &&& s[i] == '<'
    &&& (s[i + 1] == 'l' || s[i + 1] == 'L')
    &&& (s[i + 2] == 'i' || s[i + 2] == 'I')
    &&& (i + 3 == s.len() || ends_tag_name(s[i + 3]))
}

/// `s` holds an `li` start tag somewhere. Without one, the parsed document
/// has no `li` element.
pub open spec fn has_list_item_tag(s: Seq<char>) -> bool {
    exists|i: int| list_item_tag_at(s, i)
}

/// The conversion is refused exactly for HTML that holds `<`, then `l` or
/// `L`, then `i` or `I`, then the end of the text or one of space, tab,
/// line feed, carriage return, form feed, `/` and `>`. Any other HTML (with
/// links, emphasis, headings, tables, ...) is converted.
pub proof fn lemma_refused_only_for_list_items(html: Seq<char>)
    ensures
        has_list_item_tag(html) <==> exists|i: int|
            0 <= i && i + 3 <= html.len() && #[trigger] html[i] == '<' && (html[i + 1] == 'l'
                || html[i + 1] == 'L') && (html[i + 2] == 'i' || html[i + 2] == 'I') && (i + 3
                == html.len() || html[i + 3] == ' ' || html[i + 3] == '\t' || html[i + 3] == '\n'
                || html[i + 3] == '\r' || html[i + 3] == '\x0C' || html[i + 3] == '/' || html[i + 3]
                == '>'),
{
    if has_list_item_tag(html) {
        let i = choose|i: int| list_item_tag_at(html, i);
        assert(html[i] == '<');
    }
    assert forall|i: int|
        0 <= i && i + 3 <= html.len() && #[trigger] html[i] == '<' && (html[i + 1] == 'l'
            || html[i + 1] == 'L') && (html[i + 2] == 'i' || html[i + 2] == 'I') && (i + 3
            == html.len() || html[i + 3] == ' ' || html[i + 3] == '\t' || html[i + 3] == '\n'
            || html[i + 3] == '\r' || html[i + 3] == '\x0C' || html[i + 3] == '/' || html[i + 3]
            == '>') implies has_list_item_tag(html) by {
        assert(list_item_tag_at(html, i));
    }
}

/// Whether `html` holds an `li` start tag.
pub fn contains_list_item_tag(html: &str) -> (r: bool)
    ensures
        r == has_list_item_tag(html@),
{
    let v = chars_of(html);
    let n = v.len();
    let mut i: usize = 0;
    while i < n
        invariant
            v@ == html@,
            n == v@.len(),
            i <= n,
            forall|k: int| 0 <= k < i ==> !list_item_tag_at(html@, k),
        decreases n - i,
    {
        if n - i >= 3 && v[i] == '<' && (v[i + 1] == 'l' || v[i + 1] == 'L') && (v[i + 2] == 'i'
            || v[i + 2] == 'I') {
            if n - i == 3 {
                assert(list_item_tag_at(html@, i as int));
                return true;
            }
            let c = v[i + 3];
            if c == ' ' || c == '\t' || c == '\n' || c == '\r' || c == '\x0C' || c == '/' || c == '>' {
                assert(list_item_tag_at(html@, i as int));
                return true;
            }
        }
        i = i + 1;
    }
    proof {
        assert forall|k: int| !list_item_tag_at(html@, k) by {
            if 0 <= k < n {
            }
        }
    }
    false
}

/// Converts HTML to Markdown with `html2md::parse_html`.
///
/// Trusted: the result is `markdown_of` the input; the conversion reads the
/// HTML from memory and is deterministic. `parse_html` can panic when an
/// `li` element has no enclosing list (its handler then deletes text before
/// positions that enclosing handlers have recorded, and they slice or insert
/// there); whether an `li` has one cannot be told from the text, so every
/// HTML with an `li` start tag is left out. Without an `li` element no
/// handler deletes text, and the recorded positions stay valid.
#[verifier::external_body]
fn html_to_markdown(html: &str) -> (r: String)
    requires
        !has_list_item_tag(html@),
    ensures
        r@ == markdown_of(html@),
{
    html2md::parse_html(html)
}

/// What is stored for a snapshot before its categories are generated.
#[derive(Debug, Clone)]
pub struct MarkdownDraft {
    /// The cleaned article as Markdown.
    pub content_md: String,
    /// The page title, when one could be found.
    pub title: Option<String>,
}

/// The Markdown and title stored for a snapshot:
/// the cleaned HTML as Markdown, and the title of the raw HTML.
pub fn markdown_draft(cleaned_html: &str, raw_html: &str) -> (r: MarkdownDraft)
    requires
        !has_list_item_tag(cleaned_html@),
    ensures
        r.content_md@ == markdown_of(cleaned_html@),
        opt_view(r.title) == first_match_text(raw_html@, "title"@),
{
    let content_md = html_to_markdown(cleaned_html);
    let title = match extract_title(raw_html) {
        Ok(t) => t,
        Err(_) => None,
    };
    MarkdownDraft { content_md, title }
}

/// The Markdown of a snapshot's cleaned HTML.
pub fn markdown_content(cleaned_html: &str) -> (r: String)
    requires
        !has_list_item_tag(cleaned_html@),
    ensures
        r@ == markdown_of(cleaned_html@),
{
    html_to_markdown(cleaned_html)
}

/// The Markdown and title stored for a snapshot, or `None` when the cleaned
/// HTML holds an `li` start tag, which the conversion cannot be trusted with.
pub fn checked_markdown_draft(cleaned_html: &str, raw_html: &str) -> (r: Option<MarkdownDraft>)
    ensures
        r is None <==> has_list_item_tag(cleaned_html@),
        r matches Some(d) ==> d.content_md@ == markdown_of(cleaned_html@) && opt_view(d.title)
            == first_match_text(raw_html@, "title"@),
{
    if contains_list_item_tag(cleaned_html) {
        None
    } else {
        Some(markdown_draft(cleaned_html, raw_html))
    }
}

/// The Markdown of a snapshot's cleaned HTML, or `None` when it holds an
/// `li` start tag.
pub fn checked_markdown_content(cleaned_html: &str) -> (r: Option<String>)
    ensures
        r is None <==> has_list_item_tag(cleaned_html@),
        r matches Some(m) ==> m@ == markdown_of(cleaned_html@),
{
    if contains_list_item_tag(cleaned_html) {
        None
    } else {
        Some(markdown_content(cleaned_html))
    }
}

} // verus!
