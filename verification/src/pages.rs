//! The markup of the web pages: landing page, dashboard, article views,
//! category views, login and sign-up forms, and the admin greeting.
use vstd::prelude::*;
use crate::ids::{uuid_text, uuid_to_string};
use crate::templates::{escaped, push_escaped, Template, TemplatedPage};
use crate::urls::{article_location, article_path, Page};
use crate::users::User;

verus! {

/// The landing page for visitors who are not logged in.
pub open spec fn landing_html() -> Seq<char> {
    "<h1>Knowledge</h1><h2>A cool app that needs a new name</h2><p>Welcome to Knowledge! Please log in.</p><a href=\"/login\">Login</a>"@
}

/// The dashboard of the user called `name`.
pub open spec fn dashboard_html(name: Seq<char>) -> Seq<char> {
    "<h1>Dashboard</h1><p>Welcome, "@ + escaped(name)
        + "</p><a href=\"/logout\">Logout</a><h3>Insert Article</h3><form method=\"post\" action=\"/articles\"><label for=\"url\">URL :</label><input id=\"url\" name=\"url\" placeholder=\"Insert URL\"></input><br><input type=\"submit\" value=\"Submit\"></form><h3><a href=\"/articles\">My Articles</a></h3><h3><a href=\"/categories\">My Categories</a></h3>"@
}

/// A page rendered inside the layout of `t`.
pub open spec fn rendered(r: TemplatedPage, t: Template, inner: Seq<char>) -> bool {
    r.template == t && r.inner@ == inner
}

/// The landing page in the layout of `t`.
pub fn landing(t: Template) -> (r: TemplatedPage)
    ensures
        rendered(r, t, landing_html()),
{
    t.render(
        String::from_str(
            "<h1>Knowledge</h1><h2>A cool app that needs a new name</h2><p>Welcome to Knowledge! Please log in.</p><a href=\"/login\">Login</a>",
        ),
    )
}

/// The dashboard of a logged-in user.
pub fn user_dashboard(t: Template, user: User) -> (r: TemplatedPage)
    ensures
        rendered(r, t, dashboard_html(user.user_name@)),
{
    let mut inner = String::from_str("<h1>Dashboard</h1><p>Welcome, ");
    push_escaped(&mut inner, user.user_name.as_str());
    inner.append(
        "</p><a href=\"/logout\">Logout</a><h3>Insert Article</h3><form method=\"post\" action=\"/articles\"><label for=\"url\">URL :</label><input id=\"url\" name=\"url\" placeholder=\"Insert URL\"></input><br><input type=\"submit\" value=\"Submit\"></form><h3><a href=\"/articles\">My Articles</a></h3><h3><a href=\"/categories\">My Categories</a></h3>",
    );
    t.render(inner)
}

/// The home page: the dashboard for a logged-in user, else the landing page.
pub fn home(t: Template, user: Option<User>) -> (r: TemplatedPage)
    ensures
        user matches Some(u) ==> rendered(r, t, dashboard_html(u.user_name@)),
        user is None ==> rendered(r, t, landing_html()),
{
    match user {
        Some(u) => user_dashboard(t, u),
        None => landing(t),
    }
}

// ---------------------------------------------------------------------------
// Article detail

/// What is known of a saved page once it has been processed: the latest
/// snapshot's fetch time, and its Markdown's title, summary and categories.
#[derive(Debug, Clone)]
pub struct ArticleDetail {
    /// When the snapshot was fetched, as displayed.
    pub fetched_at: String,
    pub title: Option<String>,
    /// `None` while the summary is still being generated.
    pub summary: Option<String>,
    pub categories: Vec<String>,
}

/// One category of an article.
pub open spec fn category_item(c: Seq<char>) -> Seq<char> {
    "<li><b>Category: </b>"@ + escaped(c) + "</li>"@
}

/// The categories of an article, in order.
pub open spec fn category_items(cs: Seq<String>) -> Seq<char>
    decreases cs.len(),
{
    if cs.len() == 0 {
        Seq::empty()
    } else {
        category_items(cs.drop_last()) + category_item(cs.last()@)
    }
}

/// A labelled piece of text in `tag`, or nothing.
pub open spec fn labelled(open_tag: Seq<char>, label: Seq<char>, close_tag: Seq<char>, text: Option<String>) -> Seq<char> {
    match text {
        Some(t) => open_tag + "<b>"@ + label + "</b>"@ + escaped(t@) + close_tag,
        None => Seq::empty(),
    }
}

/// What is shown of a processed article.
pub open spec fn detail_html(d: ArticleDetail) -> Seq<char> {
    "<p><b>Fetched At: </b>"@ + escaped(d.fetched_at@) + "</p><ul>"@ + category_items(d.categories@)
        + "</ul>"@ + labelled("<h1>"@, "Title: "@, "</h1>"@, d.title) + match d.summary {
        Some(s) => "<p><b>Summary: </b>"@ + escaped(s@) + "</p>"@,
        None => "<p data-controller=\"loader\">Generating summary.....</p>"@,
    }
}

/// The detail view of a saved page: its URL, and what is known of it, or a
/// notice that the snapshot is still being made.
pub open spec fn article_detail_html(url: Seq<char>, detail: Option<ArticleDetail>) -> Seq<char> {
    "<h1>Article Detail</h1><h2>URL: "@ + escaped(url) + "</h2><div>"@ + match detail {
        Some(d) => detail_html(d),
        None => "<p data-controller=\"loader\">Generating snapshot.....</p>"@,
    } + "</div>"@
}

/// Appends a labelled piece of text, if there is one.
fn push_labelled(out: &mut String, open_tag: &str, label: &str, close_tag: &str, text: &Option<String>)
    ensures
        final(out)@ == old(out)@ + labelled(open_tag@, label@, close_tag@, *text),
{
    match text {
        Some(t) => {
            out.append(open_tag);
            out.append("<b>");
            out.append(label);
            out.append("</b>");
            push_escaped(out, t.as_str());
            out.append(close_tag);
        },
        None => {
            assert(old(out)@ + Seq::<char>::empty() =~= old(out)@);
        },
    }
}

/// Appends the categories of an article.
fn push_category_items(out: &mut String, cs: &Vec<String>)
    ensures
        final(out)@ == old(out)@ + category_items(cs@),
{
    let ghost start = out@;
    let mut i: usize = 0;
    assert(cs@.take(0) =~= Seq::<String>::empty());
    assert(start + Seq::<char>::empty() =~= start);
    while i < cs.len()
        invariant
            i <= cs@.len(),
            out@ == start + category_items(cs@.take(i as int)),
        decreases cs@.len() - i,
    {
        out.append("<li><b>Category: </b>");
        push_escaped(out, cs[i].as_str());
        out.append("</li>");
        proof {
            let t = cs@.take(i + 1);
            assert(t.drop_last() =~= cs@.take(i as int));
            assert(t.last() == cs@[i as int]);
        }
        i = i + 1;
    }
    assert(cs@.take(cs@.len() as int) =~= cs@);
}

/// Appends what is shown of a processed article.
fn push_detail(out: &mut String, d: &ArticleDetail)
    ensures
        final(out)@ == old(out)@ + detail_html(*d),
{
    let ghost start = out@;
    out.append("<p><b>Fetched At: </b>");
    push_escaped(out, d.fetched_at.as_str());
    out.append("</p><ul>");
    push_category_items(out, &d.categories);
    out.append("</ul>");
    let ghost mid = out@;
    assert(mid =~= start + ("<p><b>Fetched At: </b>"@ + escaped(d.fetched_at@) + "</p><ul>"@
        + category_items(d.categories@) + "</ul>"@));
    push_labelled(out, "<h1>", "Title: ", "</h1>", &d.title);
    let ghost mid2 = out@;
    match &d.summary {
        Some(s) => {
            out.append("<p><b>Summary: </b>");
            push_escaped(out, s.as_str());
            out.append("</p>");
            assert(out@ =~= mid2 + ("<p><b>Summary: </b>"@ + escaped(s@) + "</p>"@));
        },
        None => {
            out.append("<p data-controller=\"loader\">Generating summary.....</p>");
        },
    }
    assert(out@ =~= start + detail_html(*d));
}

/// The detail view of a saved page, from its URL and
/// what the database holds of its latest snapshot.
pub fn article_detail(t: Template, url: &str, detail: Option<ArticleDetail>) -> (r: TemplatedPage)
    ensures
        rendered(r, t, article_detail_html(url@, detail)),
{
    let mut inner = String::from_str("<h1>Article Detail</h1><h2>URL: ");
    push_escaped(&mut inner, url);
    inner.append("</h2><div>");
    let ghost head = inner@;
    match &detail {
        Some(d) => {
            push_detail(&mut inner, d);
        },
        None => {
            inner.append("<p data-controller=\"loader\">Generating snapshot.....</p>");
        },
    }
    inner.append("</div>");
    assert(inner@ =~= article_detail_html(url@, detail));
    t.render(inner)
}

// ---------------------------------------------------------------------------
// Lists of articles and categories

/// One row of the user's article table.
pub open spec fn article_row(p: Page) -> Seq<char> {
    "<tr><td>"@ + escaped(p.url@) + "</td><td><a href=\""@ + escaped(article_path(p.page_id))
        + "\">View</a></td></tr>"@
}

/// The rows of the user's article table, in order.
pub open spec fn article_rows(ps: Seq<Page>) -> Seq<char>
    decreases ps.len(),
{
    if ps.len() == 0 {
        Seq::empty()
    } else {
        article_rows(ps.drop_last()) + article_row(ps.last())
    }
}

/// The table of the user's saved pages.
pub open spec fn my_articles_html(ps: Seq<Page>) -> Seq<char> {
    "<h1>My Articles</h1><table><tr><th>URL</th><th>Actions</th></tr>"@ + article_rows(ps)
        + "</table>"@
}

/// The table of the user's saved pages, in the given order.
pub fn my_articles(t: Template, pages: &Vec<Page>) -> (r: TemplatedPage)
    ensures
        rendered(r, t, my_articles_html(pages@)),
{
    let mut inner = String::from_str(
        "<h1>My Articles</h1><table><tr><th>URL</th><th>Actions</th></tr>",
    );
    let ghost start = inner@;
    let mut i: usize = 0;
    assert(pages@.take(0) =~= Seq::<Page>::empty());
    assert(start + Seq::<char>::empty() =~= start);
    while i < pages.len()
        invariant
            i <= pages@.len(),
            inner@ == start + article_rows(pages@.take(i as int)),
        decreases pages@.len() - i,
    {
        let p = &pages[i];
        inner.append("<tr><td>");
        push_escaped(&mut inner, p.url.as_str());
        inner.append("</td><td><a href=\"");
        let loc = article_location(p.page_id);
        push_escaped(&mut inner, loc.as_str());
        inner.append("\">View</a></td></tr>");
        proof {
            let s = pages@.take(i + 1);
            assert(s.drop_last() =~= pages@.take(i as int));
            assert(s.last() == pages@[i as int]);
        }
        i = i + 1;
    }
    assert(pages@.take(pages@.len() as int) =~= pages@);
    inner.append("</table>");
    t.render(inner)
}

/// A category of the user's articles, with its id.
#[derive(Debug, Clone)]
pub struct CategoryLink {
    pub category_id: u128,
    pub category: String,
}

/// Path of a category's view.
pub open spec fn category_path(category_id: u128) -> Seq<char> {
    "/categories/"@ + uuid_text(category_id)
}

/// One entry of the user's category list.
pub open spec fn category_link_item(c: CategoryLink) -> Seq<char> {
    "<li><a href=\""@ + escaped(category_path(c.category_id)) + "\">"@ + escaped(c.category@)
        + "</a></li>"@
}

/// The entries of the user's category list, in order.
pub open spec fn category_link_items(cs: Seq<CategoryLink>) -> Seq<char>
    decreases cs.len(),
{
    if cs.len() == 0 {
        Seq::empty()
    } else {
        category_link_items(cs.drop_last()) + category_link_item(cs.last())
    }
}

/// The list of the categories of the user's articles.
pub open spec fn my_categories_html(cs: Seq<CategoryLink>) -> Seq<char> {
    "<h1>My Categories</h1><ul>"@ + category_link_items(cs) + "</ul>"@
}

/// The list of the categories of the user's articles, in the given order.
pub fn my_categories(t: Template, categories: &Vec<CategoryLink>) -> (r: TemplatedPage)
    ensures
        rendered(r, t, my_categories_html(categories@)),
{
    let mut inner = String::from_str("<h1>My Categories</h1><ul>");
    let ghost start = inner@;
    let mut i: usize = 0;
    assert(categories@.take(0) =~= Seq::<CategoryLink>::empty());
    assert(start + Seq::<char>::empty() =~= start);
    while i < categories.len()
        invariant
            i <= categories@.len(),
            inner@ == start + category_link_items(categories@.take(i as int)),
        decreases categories@.len() - i,
    {
        let c = &categories[i];
        inner.append("<li><a href=\"");
        let mut path = String::from_str("/categories/");
        let id = uuid_to_string(c.category_id);
        path.append(id.as_str());
        push_escaped(&mut inner, path.as_str());
        inner.append("\">");
        push_escaped(&mut inner, c.category.as_str());
        inner.append("</a></li>");
        proof {
            let s = categories@.take(i + 1);
            assert(s.drop_last() =~= categories@.take(i as int));
            assert(s.last() == categories@[i as int]);
        }
        i = i + 1;
    }
    assert(categories@.take(categories@.len() as int) =~= categories@);
    inner.append("</ul>");
    t.render(inner)
}

/// An article listed under a category.
#[derive(Debug, Clone)]
pub struct CategoryArticle {
    pub page_id: u128,
    pub url: String,
    pub title: Option<String>,
    pub category: String,
    pub summary: Option<String>,
}

/// One entry of a category's article list.
pub open spec fn category_article_item(a: CategoryArticle) -> Seq<char> {
    "<li><a href=\""@ + escaped(article_path(a.page_id)) + "\">"@ + escaped(a.url@) + "</a>"@
        + labelled("<p>"@, "Title: "@, "</p>"@, a.title) + "<p><b>Category: </b>"@ + escaped(
        a.category@,
    ) + "</p>"@ + labelled("<p>"@, "Summary: "@, "</p>"@, a.summary) + "</li>"@
}

/// The entries of a category's article list, in order.
pub open spec fn category_article_items(xs: Seq<CategoryArticle>) -> Seq<char>
    decreases xs.len(),
{
    if xs.len() == 0 {
        Seq::empty()
    } else {
        category_article_items(xs.drop_last()) + category_article_item(xs.last())
    }
}

/// The list of the user's articles in a category.
pub open spec fn articles_by_category_html(xs: Seq<CategoryArticle>) -> Seq<char> {
    "<h1>Articles in Category</h1><ul>"@ + category_article_items(xs) + "</ul>"@
}

/// Appends one entry of a category's article list.
fn push_category_article(out: &mut String, a: &CategoryArticle)
    ensures
        final(out)@ == old(out)@ + category_article_item(*a),
{
    let ghost start = out@;
    out.append("<li><a href=\"");
    let loc = article_location(a.page_id);
    push_escaped(out, loc.as_str());
    out.append("\">");
    push_escaped(out, a.url.as_str());
    out.append("</a>");
    let ghost p1 = out@;
    assert(p1 =~= start + ("<li><a href=\""@ + escaped(article_path(a.page_id)) + "\">"@ + escaped(
        a.url@,
    ) + "</a>"@));
    push_labelled(out, "<p>", "Title: ", "</p>", &a.title);
    out.append("<p><b>Category: </b>");
    push_escaped(out, a.category.as_str());
    out.append("</p>");
    let ghost p2 = out@;
    assert(p2 =~= p1 + (labelled("<p>"@, "Title: "@, "</p>"@, a.title) + "<p><b>Category: </b>"@
        + escaped(a.category@) + "</p>"@));
    push_labelled(out, "<p>", "Summary: ", "</p>", &a.summary);
    out.append("</li>");
    assert(out@ =~= start + category_article_item(*a));
}

/// The list of the user's articles in a category, in the given order.
pub fn articles_by_category(t: Template, articles: &Vec<CategoryArticle>) -> (r: TemplatedPage)
    ensures
        rendered(r, t, articles_by_category_html(articles@)),
{
    let mut inner = String::from_str("<h1>Articles in Category</h1><ul>");
    let ghost start = inner@;
    let mut i: usize = 0;
    assert(articles@.take(0) =~= Seq::<CategoryArticle>::empty());
    assert(start + Seq::<char>::empty() =~= start);
    while i < articles.len()
        invariant
            i <= articles@.len(),
            inner@ == start + category_article_items(articles@.take(i as int)),
        decreases articles@.len() - i,
    {
        push_category_article(&mut inner, &articles[i]);
        proof {
            let s = articles@.take(i + 1);
            assert(s.drop_last() =~= articles@.take(i as int));
            assert(s.last() == articles@[i as int]);
        }
        i = i + 1;
    }
    assert(articles@.take(articles@.len() as int) =~= articles@);
    inner.append("</ul>");
    t.render(inner)
}

// ---------------------------------------------------------------------------
// Forms and the admin greeting

/// The login form.
pub open spec fn login_form_html() -> Seq<char> {
    "<form method=\"post\" action=\"/login\"><input type=\"text\" name=\"username\" placeholder=\"Username\"><input type=\"password\" name=\"password\" placeholder=\"Password\"><input type=\"submit\" value=\"Login\"></form>"@
}

/// The sign-up form.
pub open spec fn signup_form_html() -> Seq<char> {
    "<form method=\"post\" action=\"/signup\"><input type=\"text\" name=\"username\" placeholder=\"Username\"><input type=\"password\" name=\"password\" placeholder=\"Password\"><input type=\"submit\" value=\"Signup\"></form>"@
}

/// The login form markup, without the layout.
pub fn login_form() -> (r: String)
    ensures
        r@ == login_form_html(),
{
    String::from_str(
        "<form method=\"post\" action=\"/login\"><input type=\"text\" name=\"username\" placeholder=\"Username\"><input type=\"password\" name=\"password\" placeholder=\"Password\"><input type=\"submit\" value=\"Login\"></form>",
    )
}

/// The login form in the layout of `t`.
pub fn login_page(t: Template) -> (r: TemplatedPage)
    ensures
        rendered(r, t, login_form_html()),
{
    t.render(login_form())
}

/// The sign-up form in the layout of `t`.
pub fn signup_page(t: Template) -> (r: TemplatedPage)
    ensures
        rendered(r, t, signup_form_html()),
{
    t.render(
        String::from_str(
            "<form method=\"post\" action=\"/signup\"><input type=\"text\" name=\"username\" placeholder=\"Username\"><input type=\"password\" name=\"password\" placeholder=\"Password\"><input type=\"submit\" value=\"Signup\"></form>",
        ),
    )
}

/// The admin area's greeting for the administrator called `name`.
pub open spec fn admin_hello_html(name: Seq<char>) -> Seq<char> {
    "<h1>Hello Admin "@ + escaped(name)
        + "</h1><a href=\"/_/test_errors/simple\">Test Simple Error</a><br><a href=\"/_/test_errors/sql\">Test SQL Error</a>"@
}

/// The admin area's greeting in the layout of `t`.
pub fn admin_hello(t: Template, admin_name: &str) -> (r: TemplatedPage)
    ensures
        rendered(r, t, admin_hello_html(admin_name@)),
{
    let mut inner = String::from_str("<h1>Hello Admin ");
    push_escaped(&mut inner, admin_name);
    inner.append(
        "</h1><a href=\"/_/test_errors/simple\">Test Simple Error</a><br><a href=\"/_/test_errors/sql\">Test SQL Error</a>",
    );
    t.render(inner)
}

// ---------------------------------------------------------------------------
// Laws of the page markup

/// The title line of a processed article: present whenever the article has
/// a title, and followed directly by the summary line (or, while the
/// summary is being generated, by the loader line), whatever the summary is.
pub proof fn lemma_detail_shows_title(d: ArticleDetail, t: String)
    requires
        d.title == Some(t),
    ensures
        ({
            let title_line = "<h1><b>Title: </b>"@ + escaped(t@) + "</h1>"@;
            let next_line = match d.summary {
                Some(s) => "<p><b>Summary: </b>"@ + escaped(s@) + "</p>"@,
                None => "<p data-controller=\"loader\">Generating summary.....</p>"@,
            };
            let o = ("<p><b>Fetched At: </b>"@ + escaped(d.fetched_at@) + "</p><ul>"@
                + category_items(d.categories@) + "</ul>"@).len() as int;
            let m = o + title_line.len();
            &&& m + next_line.len() == detail_html(d).len()
            &&& detail_html(d).subrange(o, m) == title_line
            &&& detail_html(d).subrange(m, detail_html(d).len() as int) == next_line
        }),
{
    let title_line = "<h1><b>Title: </b>"@ + escaped(t@) + "</h1>"@;
    let next_line = match d.summary {
        Some(s) => "<p><b>Summary: </b>"@ + escaped(s@) + "</p>"@,
        None => "<p data-controller=\"loader\">Generating summary.....</p>"@,
    };
    let head = "<p><b>Fetched At: </b>"@ + escaped(d.fetched_at@) + "</p><ul>"@ + category_items(
        d.categories@,
    ) + "</ul>"@;
    assert(labelled("<h1>"@, "Title: "@, "</h1>"@, d.title) =~= title_line) by {
        reveal_strlit("<h1>");
        reveal_strlit("<b>");
        reveal_strlit("Title: ");
        reveal_strlit("</b>");
        reveal_strlit("<h1><b>Title: </b>");
        assert("<h1>"@ + "<b>"@ + "Title: "@ + "</b>"@ =~= "<h1><b>Title: </b>"@);
    }
    assert(detail_html(d) =~= head + title_line + next_line);
    let o = head.len() as int;
    let m = o + title_line.len();
    assert(detail_html(d).subrange(o, m) =~= title_line);
    assert(detail_html(d).subrange(m, detail_html(d).len() as int) =~= next_line);
}

/// The table rows of a list of pages split at any index: the rows of the
/// pages before it, then the rows of the rest.
proof fn lemma_article_rows_split(ps: Seq<Page>, j: int)
    requires
        0 <= j <= ps.len(),
    ensures
        article_rows(ps) == article_rows(ps.take(j)) + article_rows(ps.skip(j)),
    decreases ps.len(),
{
    if j == ps.len() {
        assert(ps.take(j) =~= ps);
        assert(ps.skip(j) =~= Seq::<Page>::empty());
        assert(article_rows(ps) + Seq::<char>::empty() =~= article_rows(ps));
    } else {
        let dl = ps.drop_last();
        lemma_article_rows_split(dl, j);
        assert(dl.take(j) =~= ps.take(j));
        assert(ps.skip(j).drop_last() =~= dl.skip(j));
        assert(ps.skip(j).last() == ps.last());
        assert(article_rows(ps) =~= article_rows(ps.take(j)) + article_rows(ps.skip(j)));
    }
}

/// Row `k` of the article table is the row of `ps[k]` itself: its URL, and
/// a link to that page's own detail view. It stands right after the table
/// head and the rows of the pages before it.
pub proof fn lemma_article_row_links_its_page(ps: Seq<Page>, k: int)
    requires
        0 <= k < ps.len(),
    ensures
        ({
            let row = "<tr><td>"@ + escaped(ps[k].url@) + "</td><td><a href=\""@ + escaped(
                "/articles/"@ + uuid_text(ps[k].page_id),
            ) + "\">View</a></td></tr>"@;
            let o = ("<h1>My Articles</h1><table><tr><th>URL</th><th>Actions</th></tr>"@.len()
                + article_rows(ps.take(k)).len()) as int;
            &&& o + row.len() <= my_articles_html(ps).len()
            &&& my_articles_html(ps).subrange(o, o + row.len()) == row
        }),
{
    let row = "<tr><td>"@ + escaped(ps[k].url@) + "</td><td><a href=\""@ + escaped(
        "/articles/"@ + uuid_text(ps[k].page_id),
    ) + "\">View</a></td></tr>"@;
    let head = "<h1>My Articles</h1><table><tr><th>URL</th><th>Actions</th></tr>"@;
    lemma_article_rows_split(ps, k + 1);
    let t = ps.take(k + 1);
    assert(t.drop_last() =~= ps.take(k));
    assert(t.last() == ps[k]);
    assert(article_row(ps[k]) == row);
    assert(article_rows(t) == article_rows(ps.take(k)) + row);
    let o = (head.len() + article_rows(ps.take(k)).len()) as int;
    assert(my_articles_html(ps) =~= head + article_rows(ps.take(k)) + row + article_rows(
        ps.skip(k + 1),
    ) + "</table>"@);
    assert(my_articles_html(ps).subrange(o, o + row.len()) =~= row);
}

/// An article with a title shows it in its entry of a category's list,
/// right after the link to the article and before the category line.
pub proof fn lemma_category_article_shows_title(a: CategoryArticle, t: String)
    requires
        a.title == Some(t),
    ensures
        ({
            let link = "<li><a href=\""@ + escaped("/articles/"@ + uuid_text(a.page_id)) + "\">"@
                + escaped(a.url@) + "</a>"@;
            let title_line = "<p><b>Title: </b>"@ + escaped(t@) + "</p>"@;
            let category_line = "<p><b>Category: </b>"@ + escaped(a.category@) + "</p>"@;
            let entry = category_article_item(a);
            let l = link.len() as int;
            let m = l + title_line.len();
            let n = m + category_line.len();
            &&& n <= entry.len()
            &&& entry.subrange(0, l) == link
            &&& entry.subrange(l, m) == title_line
            &&& entry.subrange(m, n) == category_line
        }),
{
    let link = "<li><a href=\""@ + escaped("/articles/"@ + uuid_text(a.page_id)) + "\">"@ + escaped(
        a.url@,
    ) + "</a>"@;
    let title_line = "<p><b>Title: </b>"@ + escaped(t@) + "</p>"@;
    let category_line = "<p><b>Category: </b>"@ + escaped(a.category@) + "</p>"@;
    let tail = labelled("<p>"@, "Summary: "@, "</p>"@, a.summary) + "</li>"@;
    assert(labelled("<p>"@, "Title: "@, "</p>"@, a.title) =~= title_line) by {
        reveal_strlit("<p>");
        reveal_strlit("<b>");
        reveal_strlit("Title: ");
        reveal_strlit("</b>");
        reveal_strlit("<p><b>Title: </b>");
        assert("<p>"@ + "<b>"@ + "Title: "@ + "</b>"@ =~= "<p><b>Title: </b>"@);
    }
    let entry = category_article_item(a);
    assert(entry =~= link + title_line + category_line + tail);
    let l = link.len() as int;
    let m = l + title_line.len();
    let n = m + category_line.len();
    assert(entry.subrange(0, l) =~= link);
    assert(entry.subrange(l, m) =~= title_line);
    assert(entry.subrange(m, n) =~= category_line);
}

/// The markup of a list split at any index: the items before it, then the rest.
proof fn lemma_category_items_split(xs: Seq<String>, j: int)
    requires
        0 <= j <= xs.len(),
    ensures
        category_items(xs) == category_items(xs.take(j)) + category_items(xs.skip(j)),
    decreases xs.len(),
{
    if j == xs.len() {
        assert(xs.take(j) =~= xs);
        assert(xs.skip(j) =~= Seq::<String>::empty());
        assert(category_items(xs) + Seq::<char>::empty() =~= category_items(xs));
    } else {
        let dl = xs.drop_last();
        lemma_category_items_split(dl, j);
        assert(dl.take(j) =~= xs.take(j));
        assert(xs.skip(j).drop_last() =~= dl.skip(j));
        assert(xs.skip(j).last() == xs.last());
        assert(category_items(xs) =~= category_items(xs.take(j)) + category_items(xs.skip(j)));
    }
}

/// The markup of a list split at any index: the items before it, then the rest.
proof fn lemma_category_link_items_split(xs: Seq<CategoryLink>, j: int)
    requires
        0 <= j <= xs.len(),
    ensures
        category_link_items(xs) == category_link_items(xs.take(j)) + category_link_items(xs.skip(j)),
    decreases xs.len(),
{
    if j == xs.len() {
        assert(xs.take(j) =~= xs);
        assert(xs.skip(j) =~= Seq::<CategoryLink>::empty());
        assert(category_link_items(xs) + Seq::<char>::empty() =~= category_link_items(xs));
    } else {
        let dl = xs.drop_last();
        lemma_category_link_items_split(dl, j);
        assert(dl.take(j) =~= xs.take(j));
        assert(xs.skip(j).drop_last() =~= dl.skip(j));
        assert(xs.skip(j).last() == xs.last());
        assert(category_link_items(xs) =~= category_link_items(xs.take(j)) + category_link_items(xs.skip(j)));
    }
}

/// The markup of a list split at any index: the items before it, then the rest.
proof fn lemma_category_article_items_split(xs: Seq<CategoryArticle>, j: int)
    requires
        0 <= j <= xs.len(),
    ensures
        category_article_items(xs) == category_article_items(xs.take(j)) + category_article_items(xs.skip(j)),
    decreases xs.len(),
{
    if j == xs.len() {
        assert(xs.take(j) =~= xs);
        assert(xs.skip(j) =~= Seq::<CategoryArticle>::empty());
        assert(category_article_items(xs) + Seq::<char>::empty() =~= category_article_items(xs));
    } else {
        let dl = xs.drop_last();
        lemma_category_article_items_split(dl, j);
        assert(dl.take(j) =~= xs.take(j));
        assert(xs.skip(j).drop_last() =~= dl.skip(j));
        assert(xs.skip(j).last() == xs.last());
        assert(category_article_items(xs) =~= category_article_items(xs.take(j)) + category_article_items(xs.skip(j)));
    }
}

/// Category `k` of an article is shown as its own item, right after the
/// items of the categories before it.
pub proof fn lemma_detail_lists_each_category(cs: Seq<String>, k: int)
    requires
        0 <= k < cs.len(),
    ensures
        ({
            let item = "<li><b>Category: </b>"@ + escaped(cs[k]@) + "</li>"@;
            let o = category_items(cs.take(k)).len() as int;
            &&& o + item.len() <= category_items(cs).len()
            &&& category_items(cs).subrange(o, o + item.len()) == item
        }),
{
    let item = "<li><b>Category: </b>"@ + escaped(cs[k]@) + "</li>"@;
    lemma_category_items_split(cs, k + 1);
    let t = cs.take(k + 1);
    assert(t.drop_last() =~= cs.take(k));
    assert(t.last() == cs[k]);
    let o = category_items(cs.take(k)).len() as int;
    assert(category_items(cs) =~= category_items(cs.take(k)) + item + category_items(cs.skip(k + 1)));
    assert(category_items(cs).subrange(o, o + item.len()) =~= item);
}

/// Entry `k` of the category list links to category `k`'s own view and
/// shows its own name, right after the head and the entries before it.
pub proof fn lemma_category_link_goes_to_its_category(cs: Seq<CategoryLink>, k: int)
    requires
        0 <= k < cs.len(),
    ensures
        ({
            let item = "<li><a href=\""@ + escaped("/categories/"@ + uuid_text(cs[k].category_id))
                + "\">"@ + escaped(cs[k].category@) + "</a></li>"@;
            let o = ("<h1>My Categories</h1><ul>"@.len() + category_link_items(cs.take(k)).len()) as int;
            &&& o + item.len() <= my_categories_html(cs).len()
            &&& my_categories_html(cs).subrange(o, o + item.len()) == item
        }),
{
    let item = "<li><a href=\""@ + escaped("/categories/"@ + uuid_text(cs[k].category_id)) + "\">"@
        + escaped(cs[k].category@) + "</a></li>"@;
    let head = "<h1>My Categories</h1><ul>"@;
    lemma_category_link_items_split(cs, k + 1);
    let t = cs.take(k + 1);
    assert(t.drop_last() =~= cs.take(k));
    assert(t.last() == cs[k]);
    assert(category_link_item(cs[k]) == item);
    let o = (head.len() + category_link_items(cs.take(k)).len()) as int;
    assert(my_categories_html(cs) =~= head + category_link_items(cs.take(k)) + item
        + category_link_items(cs.skip(k + 1)) + "</ul>"@);
    assert(my_categories_html(cs).subrange(o, o + item.len()) =~= item);
}

/// Entry `k` of a category's article list is the entry of article `k`
/// itself, right after the head and the entries before it; it begins with a
/// link to that article's own detail view showing its URL.
pub proof fn lemma_category_article_entry_is_its_own(xs: Seq<CategoryArticle>, k: int)
    requires
        0 <= k < xs.len(),
    ensures
        ({
            let link = "<li><a href=\""@ + escaped("/articles/"@ + uuid_text(xs[k].page_id)) + "\">"@
                + escaped(xs[k].url@) + "</a>"@;
            let o = ("<h1>Articles in Category</h1><ul>"@.len() + category_article_items(
                xs.take(k),
            ).len()) as int;
            &&& o + category_article_item(xs[k]).len() <= articles_by_category_html(xs).len()
            &&& articles_by_category_html(xs).subrange(o, o + category_article_item(xs[k]).len())
                == category_article_item(xs[k])
            &&& category_article_item(xs[k]).subrange(0, link.len() as int) == link
        }),
{
    let head = "<h1>Articles in Category</h1><ul>"@;
    let item = category_article_item(xs[k]);
    lemma_category_article_items_split(xs, k + 1);
    let t = xs.take(k + 1);
    assert(t.drop_last() =~= xs.take(k));
    assert(t.last() == xs[k]);
    let o = (head.len() + category_article_items(xs.take(k)).len()) as int;
    assert(articles_by_category_html(xs) =~= head + category_article_items(xs.take(k)) + item
        + category_article_items(xs.skip(k + 1)) + "</ul>"@);
    assert(articles_by_category_html(xs).subrange(o, o + item.len()) =~= item);
    lemma_category_article_starts_with_link(xs[k]);
}

/// An entry of a category's article list begins with the link to the
/// article's detail view, showing its URL.
proof fn lemma_category_article_starts_with_link(a: CategoryArticle)
    ensures
        ({
            let link = "<li><a href=\""@ + escaped("/articles/"@ + uuid_text(a.page_id)) + "\">"@
                + escaped(a.url@) + "</a>"@;
            &&& link.len() <= category_article_item(a).len()
            &&& category_article_item(a).subrange(0, link.len() as int) == link
        }),
{
    let link = "<li><a href=\""@ + escaped("/articles/"@ + uuid_text(a.page_id)) + "\">"@ + escaped(
        a.url@,
    ) + "</a>"@;
    let rest = labelled("<p>"@, "Title: "@, "</p>"@, a.title) + "<p><b>Category: </b>"@ + escaped(
        a.category@,
    ) + "</p>"@ + labelled("<p>"@, "Summary: "@, "</p>"@, a.summary) + "</li>"@;
    let item = category_article_item(a);
    assert(item =~= link + rest);
    assert(item.subrange(0, link.len() as int) =~= link);
}

} // verus!
