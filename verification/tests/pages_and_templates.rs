use knowledge::pages::{
    admin_hello, article_detail, articles_by_category, home, landing, login_form, login_page,
    my_articles, my_categories, signup_page, user_dashboard, ArticleDetail, CategoryArticle,
    CategoryLink,
};
use knowledge::templates::{escape_html, Flash, QueryPair, Template};
use knowledge::urls::Page;
use knowledge::users::User;

fn plain() -> Template {
    Template { flash: Flash { error: None, success: None } }
}

fn pair(k: &str, v: &str) -> QueryPair {
    QueryPair { key: k.to_string(), value: v.to_string() }
}

#[test]
fn escaping() {
    assert_eq!(escape_html("<script>launchMissiles()</script>"), "&lt;script&gt;launchMissiles()&lt;/script&gt;");
    assert_eq!(escape_html("a & \"b\""), "a &amp; &quot;b&quot;");
    assert_eq!(escape_html("plain é"), "plain é");
    assert!(!escape_html("<>\"").contains('<'));
}

#[test]
fn flash_messages_from_query() {
    let f = Flash::from_query(&vec![pair("flash[error]", "bad"), pair("x", "y")]);
    assert_eq!(f.error, Some("bad".to_string()));
    assert_eq!(f.success, None);
    let last_wins = Flash::from_query(&vec![pair("flash[success]", "one"), pair("flash[success]", "two")]);
    assert_eq!(last_wins.success, Some("two".to_string()));
    let t = Template::from_query(&vec![pair("flash[success]", "Article added")]);
    assert_eq!(t.flash.success, Some("Article added".to_string()));
}

#[test]
fn layout_with_flash() {
    let t = Template { flash: Flash { error: Some("<oops>".to_string()), success: Some("ok".to_string()) } };
    let html = landing(t).html();
    assert_eq!(
        html,
        "<head><meta charset=\"UTF-8\"><meta name=\"viewport\" content=\"width=device-width, initial-scale=1.0\"><script src=\"https://cdn.tailwindcss.com\"></script></head><body><p class=\"color-red-500\">&lt;oops&gt;</p><p class=\"color-green-500\">ok</p><h1>Knowledge</h1><h2>A cool app that needs a new name</h2><p>Welcome to Knowledge! Please log in.</p><a href=\"/login\">Login</a></body>"
    );
}

#[test]
fn home_shows_dashboard_or_landing() {
    let u = User { user_id: 1, user_name: "Ada <3".to_string(), password_hash: None };
    let dash = home(plain(), Some(u.clone()));
    assert_eq!(dash.inner, user_dashboard(plain(), u).inner);
    assert!(dash.inner.starts_with("<h1>Dashboard</h1><p>Welcome, Ada &lt;3</p>"));
    assert!(dash.inner.contains("<input id=\"url\" name=\"url\" placeholder=\"Insert URL\"></input><br>"));
    assert_eq!(home(plain(), None).inner, landing(plain()).inner);
}

#[test]
fn article_detail_states() {
    let pending = article_detail(plain(), "http://e.com/?a=1&b=2", None);
    assert_eq!(
        pending.inner,
        "<h1>Article Detail</h1><h2>URL: http://e.com/?a=1&amp;b=2</h2><div><p data-controller=\"loader\">Generating snapshot.....</p></div>"
    );
    let detail = ArticleDetail {
        fetched_at: "2024-01-01 00:00:00 UTC".to_string(),
        title: Some("T".to_string()),
        summary: None,
        categories: vec!["Rust".to_string(), "Web".to_string()],
    };
    let partial = article_detail(plain(), "u", Some(detail.clone()));
    assert_eq!(
        partial.inner,
        "<h1>Article Detail</h1><h2>URL: u</h2><div><p><b>Fetched At: </b>2024-01-01 00:00:00 UTC</p><ul><li><b>Category: </b>Rust</li><li><b>Category: </b>Web</li></ul><h1><b>Title: </b>T</h1><p data-controller=\"loader\">Generating summary.....</p></div>"
    );
    let done = ArticleDetail { summary: Some("S".to_string()), title: None, categories: vec![], ..detail };
    assert_eq!(
        article_detail(plain(), "u", Some(done)).inner,
        "<h1>Article Detail</h1><h2>URL: u</h2><div><p><b>Fetched At: </b>2024-01-01 00:00:00 UTC</p><ul></ul><p><b>Summary: </b>S</p></div>"
    );
}

#[test]
fn article_list() {
    let pages = vec![Page { page_id: 1, user_id: 2, url: "http://a".to_string() }];
    assert_eq!(
        my_articles(plain(), &pages).inner,
        "<h1>My Articles</h1><table><tr><th>URL</th><th>Actions</th></tr><tr><td>http://a</td><td><a href=\"/articles/00000000-0000-0000-0000-000000000001\">View</a></td></tr></table>"
    );
    assert_eq!(
        my_articles(plain(), &vec![]).inner,
        "<h1>My Articles</h1><table><tr><th>URL</th><th>Actions</th></tr></table>"
    );
}

#[test]
fn category_lists() {
    let cats = vec![CategoryLink { category_id: 2, category: "Rust".to_string() }];
    assert_eq!(
        my_categories(plain(), &cats).inner,
        "<h1>My Categories</h1><ul><li><a href=\"/categories/00000000-0000-0000-0000-000000000002\">Rust</a></li></ul>"
    );
    let arts = vec![CategoryArticle {
        page_id: 3,
        url: "http://b".to_string(),
        title: None,
        category: "Rust".to_string(),
        summary: Some("Short".to_string()),
    }];
    assert_eq!(
        articles_by_category(plain(), &arts).inner,
        "<h1>Articles in Category</h1><ul><li><a href=\"/articles/00000000-0000-0000-0000-000000000003\">http://b</a><p><b>Category: </b>Rust</p><p><b>Summary: </b>Short</p></li></ul>"
    );
}

#[test]
fn forms_and_admin() {
    assert_eq!(login_page(plain()).inner, login_form());
    assert!(login_form().contains("action=\"/login\""));
    assert!(signup_page(plain()).inner.contains("action=\"/signup\""));
    assert!(signup_page(plain()).inner.contains("value=\"Signup\""));
    assert_eq!(
        admin_hello(plain(), "root").inner,
        "<h1>Hello Admin root</h1><a href=\"/_/test_errors/simple\">Test Simple Error</a><br><a href=\"/_/test_errors/sql\">Test SQL Error</a>"
    );
}
