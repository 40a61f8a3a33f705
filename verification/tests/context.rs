use html_renderer::book::{Book, BookItem, Chapter, SectionNumber};
use html_renderer::config::{BookConfig, Config, HtmlConfig};
use html_renderer::context::{construct_chapter_context, construct_global_context};
use html_renderer::toc::create_toc_info;
use serde_json::Value;

const ASSET_KEYS: [(&str, &str); 5] = [
    ("editor_js", "editor.js"),
    ("ace_js", "ace.js"),
    ("mode_rust_js", "mode-rust.js"),
    ("theme_dawn_js", "theme-dawn.js"),
    ("theme_tomorrow_night_js", "theme-tomorrow_night.js"),
];

fn text(s: &str) -> Value {
    Value::String(s.to_string())
}

fn sample_book() -> Book {
    let mut book = Book::new();
    let mut first = Chapter::new("First", "<p>one</p>".to_string(), "first.md");
    first.number = Some(SectionNumber(vec![1]));
    first.sub_items.push(BookItem::Chapter(Chapter::new(
        "Nested",
        "<p>nested</p>".to_string(),
        "first/nested.md",
    )));
    book.push_item(BookItem::Chapter(first));
    book.push_item(BookItem::Separator);
    book
}

fn sample_config() -> Config {
    Config {
        book: BookConfig {
            title: Some("My Book".to_string()),
            description: Some("About things".to_string()),
            authors: vec!["Ann".to_string(), "Bob".to_string()],
        },
    }
}

#[test]
fn global_context_holds_the_ten_base_keys() {
    let mut html = HtmlConfig::default();
    html.mathjax_support = true;
    html.google_analytics = Some("UA-1".to_string());
    html.livereload_url = Some("ws://x".to_string());
    let book = sample_book();
    let ctx = construct_global_context(&sample_config(), &html, &book);

    let mut expected = serde_json::Map::new();
    expected.insert("language".to_string(), text("en"));
    expected.insert("book_title".to_string(), text("My Book"));
    expected.insert("description".to_string(), text("About things"));
    expected.insert("livereload".to_string(), text("ws://x"));
    expected.insert("authors".to_string(), Value::Array(vec![text("Ann"), text("Bob")]));
    expected.insert("google_analytics".to_string(), text("UA-1"));
    expected.insert("favicon".to_string(), text("favicon.ico"));
    expected.insert("mathjax_support".to_string(), Value::Bool(true));
    expected.insert("chapters".to_string(), create_toc_info(&book));
    expected.insert("playpens_editable".to_string(), Value::Bool(false));
    assert_eq!(ctx, expected);
}

#[test]
fn absent_metadata_is_null_and_not_left_out() {
    let ctx = construct_global_context(&Config::default(), &HtmlConfig::default(), &Book::new());
    assert_eq!(ctx.len(), 10);
    assert_eq!(ctx.get("book_title"), Some(&Value::Null));
    assert_eq!(ctx.get("description"), Some(&Value::Null));
    assert_eq!(ctx.get("livereload"), Some(&Value::Null));
    assert_eq!(ctx.get("google_analytics"), Some(&Value::Null));
    assert_eq!(ctx.get("authors"), Some(&Value::Array(vec![])));
    assert_eq!(ctx.get("chapters"), Some(&Value::Array(vec![])));
    assert_eq!(ctx.get("mathjax_support"), Some(&Value::Bool(false)));
    assert_eq!(ctx.get("language"), Some(&text("en")));
    assert_eq!(ctx.get("favicon"), Some(&text("favicon.ico")));
}

#[test]
fn global_context_is_deterministic() {
    let mut html = HtmlConfig::default();
    html.playpen.editable = true;
    let a = construct_global_context(&sample_config(), &html, &sample_book());
    let b = construct_global_context(&sample_config(), &html.clone(), &sample_book());
    assert_eq!(a, b);
    assert_eq!(serde_json::to_vec(&a).unwrap(), serde_json::to_vec(&b).unwrap());
}

#[test]
fn editor_assets_are_absent_when_playpens_are_not_editable() {
    let html = HtmlConfig::default();
    let ctx = construct_global_context(&sample_config(), &html, &sample_book());
    assert_eq!(ctx.get("playpens_editable"), Some(&Value::Bool(false)));
    for (key, _) in ASSET_KEYS {
        assert!(!ctx.contains_key(key));
    }
    assert_eq!(ctx.len(), 10);
}

#[test]
fn editor_assets_are_all_present_when_playpens_are_editable() {
    let mut html = HtmlConfig::default();
    html.playpen.editable = true;
    let ctx = construct_global_context(&sample_config(), &html, &sample_book());
    assert_eq!(ctx.get("playpens_editable"), Some(&Value::Bool(true)));
    for (key, value) in ASSET_KEYS {
        assert_eq!(ctx.get(key), Some(&text(value)));
    }
    assert_eq!(ctx.len(), 15);
}

#[test]
fn chapter_context_adds_the_chapter_fields() {
    let html = HtmlConfig::default();
    let book = sample_book();
    let global = construct_global_context(&sample_config(), &html, &book);
    let ch = Chapter::new("Nested", "<p>nested</p>".to_string(), "first/nested.md");
    let title = "My Book".to_string();
    let ctx = construct_chapter_context(&ch, &global, Some(&title));

    let mut expected = global.clone();
    expected.insert("path".to_string(), text("first/nested.md"));
    expected.insert("content".to_string(), text("<p>nested</p>"));
    expected.insert("chapter_title".to_string(), text("Nested"));
    expected.insert("title".to_string(), text("My Book - Nested"));
    expected.insert("path_to_root".to_string(), text("../"));
    assert_eq!(ctx, expected);
    assert_eq!(ctx.len(), 15);
}

#[test]
fn chapter_title_without_book_title_is_the_chapter_name() {
    let global = serde_json::Map::new();
    let ch = Chapter::new("Intro", String::new(), "intro.md");
    let ctx = construct_chapter_context(&ch, &global, None);
    assert_eq!(ctx.get("title"), Some(&text("Intro")));
    assert_eq!(ctx.get("chapter_title"), Some(&text("Intro")));
    assert_eq!(ctx.get("path_to_root"), Some(&text("")));
    assert_eq!(ctx.len(), 5);
}

#[test]
fn chapter_fields_win_over_the_shared_context() {
    let mut global = serde_json::Map::new();
    global.insert("path".to_string(), text("from the shared context"));
    global.insert("title".to_string(), Value::Null);
    global.insert("extra".to_string(), Value::Bool(true));
    let ch = Chapter::new("Intro", "body".to_string(), "intro.md");
    let ctx = construct_chapter_context(&ch, &global, None);
    assert_eq!(ctx.get("path"), Some(&text("intro.md")));
    assert_eq!(ctx.get("title"), Some(&text("Intro")));
    assert_eq!(ctx.get("extra"), Some(&Value::Bool(true)));
    assert_eq!(ctx.len(), 6);
    // the shared context is left as it was
    assert_eq!(global.get("path"), Some(&text("from the shared context")));
}
