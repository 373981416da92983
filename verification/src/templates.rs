//! The page layout shared by every HTML page, the flash messages it shows,
//! and HTML escaping of text.
use vstd::prelude::*;
use crate::text::chars_of;

verus! {

/// How one character is written inside HTML text or a quoted attribute.
pub open spec fn escape_char(c: char) -> Seq<char> {
    if c == '&' {
        "&amp;"@
    } else if c == '<' {
        "&lt;"@
    } else if c == '>' {
        "&gt;"@
    } else if c == '"' {
        "&quot;"@
    } else {
        seq![c]
    }
}

/// `s` escaped for HTML: `&`, `<`, `>` and `"` become entities.
pub open spec fn escaped(s: Seq<char>) -> Seq<char>
    decreases s.len(),
{
    if s.len() == 0 {
        Seq::empty()
    } else {
        escaped(s.drop_last()) + escape_char(s.last())
    }
}

/// Appends `s`, escaped for HTML, to `out`.
pub fn push_escaped(out: &mut String, s: &str)
    ensures
        final(out)@ == old(out)@ + escaped(s@),
{
    let v = chars_of(s);
    let ghost start = out@;
    let mut i: usize = 0;
    while i < v.len()
        invariant
            v@ == s@,
            i <= v@.len(),
            out@ == start + escaped(v@.take(i as int)),
        decreases v@.len() - i,
    {
        let c = v[i];
        if c == '&' {
            out.append("&amp;");
        } else if c == '<' {
            out.append("&lt;");
        } else if c == '>' {
            out.append("&gt;");
        } else if c == '"' {
            out.append("&quot;");
        } else {
            crate::text::push_char(out, c);
        }
        proof {
            let t = v@.take(i + 1);
            assert(t.drop_last() =~= v@.take(i as int));
            assert(t.last() == c);
        }
        i = i + 1;
    }
    assert(v@.take(v@.len() as int) =~= v@);
}

/// `s` escaped for HTML.
pub fn escape_html(s: &str) -> (r: String)
    ensures
        r@ == escaped(s@),
{
    let mut r = String::new();
    push_escaped(&mut r, s);
    r
}

/// Escaped text holds no `<`, `>` or `"`, so it can neither open a tag nor
/// end a quoted attribute.
pub proof fn lemma_escaped_is_inert(s: Seq<char>)
    ensures
        !escaped(s).contains('<'),
        !escaped(s).contains('>'),
        !escaped(s).contains('"'),
    decreases s.len(),
{
    reveal_strlit("&amp;");
    reveal_strlit("&lt;");
    reveal_strlit("&gt;");
    reveal_strlit("&quot;");
    if s.len() > 0 {
        lemma_escaped_is_inert(s.drop_last());
        let a = escaped(s.drop_last());
        let b = escape_char(s.last());
        assert forall|k: int| 0 <= k < (a + b).len() implies {
            let c = #[trigger] (a + b)[k];
            c != '<' && c != '>' && c != '"'
        } by {
            if k < a.len() {
                assert((a + b)[k] == a[k]);
            } else {
                assert((a + b)[k] == b[k - a.len()]);
            }
        }
    }
}

/// Text without `&`, `<`, `>` and `"` is written unchanged.
pub proof fn lemma_escaped_plain(s: Seq<char>)
    requires
        forall|k: int| 0 <= k < s.len() ==> {
            let c = #[trigger] s[k];
            c != '&' && c != '<' && c != '>' && c != '"'
        },
    ensures
        escaped(s) == s,
    decreases s.len(),
{
    if s.len() > 0 {
        let t = s.drop_last();
        assert forall|k: int| 0 <= k < t.len() implies {
            let c = #[trigger] t[k];
            c != '&' && c != '<' && c != '>' && c != '"'
        } by {
            assert(t[k] == s[k]);
        }
        lemma_escaped_plain(t);
        assert(s.last() == s[s.len() - 1]);
        assert(t + seq![s.last()] =~= s);
    }
}

/// One `key=value` pair of a request's query string, decoded.
#[derive(Debug, Clone)]
pub struct QueryPair {
    pub key: String,
    pub value: String,
}

/// The value a query string gives `key`: when a key repeats, the last
/// value counts, as when the pairs are collected into a map.
pub open spec fn query_value(pairs: Seq<QueryPair>, key: Seq<char>) -> Option<Seq<char>>
    decreases pairs.len(),
{
    if pairs.len() == 0 {
        None
    } else if pairs.last().key@ == key {
        Some(pairs.last().value@)
    } else {
        query_value(pairs.drop_last(), key)
    }
}

/// The value a query string gives `key`.
pub fn lookup_query(pairs: &Vec<QueryPair>, key: &str) -> (r: Option<String>)
    ensures
        match r {
            Some(v) => query_value(pairs@, key@) == Some(v@),
            None => query_value(pairs@, key@) is None,
        },
{
    let mut i = pairs.len();
    assert(pairs@.take(i as int) =~= pairs@);
    while i > 0
        invariant
            i <= pairs@.len(),
            query_value(pairs@, key@) == query_value(pairs@.take(i as int), key@),
        decreases i,
    {
        let p = &pairs[i - 1];
        proof {
            let t = pairs@.take(i as int);
            assert(t.drop_last() =~= pairs@.take(i - 1));
        }
        if crate::text::same_text(p.key.as_str(), key) {
            return Some(p.value.clone());
        }
        i = i - 1;
    }
    None
}

/// Messages carried in the query string to the next page
/// (`flash[error]` and `flash[success]`).
#[derive(Debug, Clone)]
pub struct Flash {
    pub error: Option<String>,
    pub success: Option<String>,
}

/// The page layout's state for one request.
#[derive(Debug, Clone)]
pub struct Template {
    pub flash: Flash,
}

/// A page's own markup inside the shared layout.
#[derive(Debug, Clone)]
pub struct TemplatedPage {
    /// The page's markup, already escaped.
    pub inner: String,
    pub template: Template,
}

/// The view of an optional string.
pub open spec fn text_of(o: Option<String>) -> Option<Seq<char>> {
    match o {
        Some(s) => Some(s@),
        None => None,
    }
}

impl Flash {
    /// The flash messages of a request's query string.
    pub fn from_query(pairs: &Vec<QueryPair>) -> (r: Flash)
        ensures
            text_of(r.error) == query_value(pairs@, "flash[error]"@),
            text_of(r.success) == query_value(pairs@, "flash[success]"@),
    {
        let error = lookup_query(pairs, "flash[error]");
        let success = lookup_query(pairs, "flash[success]");
        Flash { error, success }
    }
}

impl Template {
    /// The layout for a request, with the request's flash messages.
    pub fn from_query(pairs: &Vec<QueryPair>) -> (r: Template)
        ensures
            text_of(r.flash.error) == query_value(pairs@, "flash[error]"@),
            text_of(r.flash.success) == query_value(pairs@, "flash[success]"@),
    {
        Template { flash: Flash::from_query(pairs) }
    }

    /// Puts a page's markup into the layout.
    pub fn render(self, inner: String) -> (r: TemplatedPage)
        ensures
            r.inner == inner,
            r.template == self,
    {
        TemplatedPage { inner, template: self }
    }
}

/// The document head shared by every page.
pub open spec fn page_head() -> Seq<char> {
    "<head><meta charset=\"UTF-8\"><meta name=\"viewport\" content=\"width=device-width, initial-scale=1.0\"><script src=\"https://cdn.tailwindcss.com\"></script></head>"@
}

/// A flash message paragraph in the given CSS class, or nothing.
pub open spec fn flash_html(class: Seq<char>, message: Option<String>) -> Seq<char> {
    match message {
        Some(m) => "<p class=\""@ + class + "\">"@ + escaped(m@) + "</p>"@,
        None => Seq::empty(),
    }
}

/// The whole HTML of a page in the layout: the head, then a body with the
/// error message, the success message and the page's markup.
pub open spec fn page_html(page: TemplatedPage) -> Seq<char> {
    page_head() + "<body>"@ + flash_html("color-red-500"@, page.template.flash.error) + flash_html(
        "color-green-500"@,
        page.template.flash.success,
    ) + page.inner@ + "</body>"@
}

/// Appends a flash message paragraph, if there is a message.
fn push_flash(out: &mut String, class: &str, message: &Option<String>)
    ensures
        final(out)@ == old(out)@ + flash_html(class@, *message),
{
    match message {
        Some(m) => {
            out.append("<p class=\"");
            out.append(class);
            out.append("\">");
            push_escaped(out, m.as_str());
            out.append("</p>");
        },
        None => {
            assert(old(out)@ + Seq::<char>::empty() =~= old(out)@);
        },
    }
}

impl TemplatedPage {
    /// The page's HTML.
    pub fn html(self) -> (r: String)
        ensures
            r@ == page_html(self),
    {
        let mut r = String::from_str(
            "<head><meta charset=\"UTF-8\"><meta name=\"viewport\" content=\"width=device-width, initial-scale=1.0\"><script src=\"https://cdn.tailwindcss.com\"></script></head>",
        );
        r.append("<body>");
        push_flash(&mut r, "color-red-500", &self.template.flash.error);
        push_flash(&mut r, "color-green-500", &self.template.flash.success);
        r.append(self.inner.as_str());
        r.append("</body>");
        r
    }
}

} // verus!
