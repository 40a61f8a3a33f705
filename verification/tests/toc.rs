use html_renderer::book::{Book, BookItem, Chapter, SectionNumber};
use html_renderer::config::HtmlConfig;
use html_renderer::engine::load_handlebars_engine;
use html_renderer::theme::Theme;
use html_renderer::toc::{create_toc_info, text_at, toc_entries, toc_from_json, TocEntry};
use serde_json::Value;

fn object(entries: Vec<(&str, Value)>) -> Value {
    let mut map = serde_json::Map::new();
    for (key, value) in entries {
        map.insert(key.to_string(), value);
    }
    Value::Object(map)
}

fn text(s: &str) -> Value {
    Value::String(s.to_string())
}

fn chapter(name: &str, path: &str, section: Option<&str>) -> TocEntry {
    TocEntry::Chapter {
        name: name.to_string(),
        path: path.to_string(),
        section: section.map(|s| s.to_string()),
    }
}

fn sample_book() -> Book {
    let mut book = Book::new();
    let mut first = Chapter::new("First", "# First Chapter".to_string(), "first.md");
    first.number = Some(SectionNumber(vec![1]));
    let mut nested = Chapter::new("Nested", "# Nested Chapter".to_string(), "first/nested.md");
    nested.number = Some(SectionNumber(vec![1, 1]));
    first.sub_items.push(BookItem::Chapter(nested));
    book.push_item(BookItem::Chapter(first));
    book.push_item(BookItem::Separator);
    book.push_item(BookItem::Chapter(Chapter::new(
        "Second",
        "# Second Chapter".to_string(),
        "second.md",
    )));
    book
}

#[test]
fn load_the_handlebars_template_using_defaults() {
    let cfg = HtmlConfig::default();
    let theme = Theme::new(
        b"<html>{{> header}}<body>{{{content}}}</body></html>".to_vec(),
        b"<head><title>{{title}}</title></head>".to_vec(),
    );
    let got = load_handlebars_engine(&theme, &cfg).unwrap();

    let templates = got.get_templates();

    assert!(templates.contains_key("index"));
    assert!(templates.contains_key("header"));
}

#[test]
fn create_the_toc_summary() {
    let mut book = Book::new();
    let mut first = Chapter::new("First", "# First Chapter".to_string(), "first.md");
    first.number = Some(SectionNumber(vec![1]));
    let mut nested = Chapter::new("Nested", "# Nested Chapter".to_string(), "first/nested.md");
    nested.number = Some(SectionNumber(vec![1, 1]));
    first.sub_items.push(BookItem::Chapter(nested));
    book.push_item(BookItem::Chapter(first));
    book.push_item(BookItem::Separator);
    book.push_item(BookItem::Chapter(Chapter::new(
        "Second",
        "# Second Chapter".to_string(),
        "second.md",
    )));

    let should_be = Value::Array(vec![
        object(vec![
            ("section", text("1.")),
            ("name", text("First")),
            ("path", text("first.md")),
        ]),
        object(vec![
            ("section", text("1.1.")),
            ("name", text("Nested")),
            ("path", text("first/nested.md")),
        ]),
        object(vec![("spacer", text("_spacer_"))]),
        object(vec![
            ("name", text("Second")),
            ("path", text("second.md")),
            ("section", Value::Null),
        ]),
    ]);

    let got = create_toc_info(&book);
    assert_eq!(got, should_be);
}

#[test]
fn toc_entries_follow_reading_order() {
    let entries = toc_entries(&sample_book());
    assert_eq!(
        entries,
        vec![
            chapter("First", "first.md", Some("1.")),
            chapter("Nested", "first/nested.md", Some("1.1.")),
            TocEntry::Spacer,
            chapter("Second", "second.md", None),
        ]
    );
}

#[test]
fn toc_of_an_empty_book_is_empty() {
    let book = Book::new();
    assert_eq!(toc_entries(&book), vec![]);
    assert_eq!(create_toc_info(&book), Value::Array(vec![]));
}

#[test]
fn book_iter_is_depth_first() {
    let mut book = Book::new();
    let mut a = Chapter::new("a", String::new(), "a.md");
    let mut a1 = Chapter::new("a1", String::new(), "a/1.md");
    a1.sub_items
        .push(BookItem::Chapter(Chapter::new("a1x", String::new(), "a/1/x.md")));
    a.sub_items.push(BookItem::Chapter(a1));
    a.sub_items.push(BookItem::Separator);
    a.sub_items
        .push(BookItem::Chapter(Chapter::new("a2", String::new(), "a/2.md")));
    book.push_item(BookItem::Chapter(a));
    book.push_item(BookItem::Chapter(Chapter::new("b", String::new(), "b.md")));

    let names: Vec<String> = book
        .iter()
        .into_iter()
        .map(|item| match item {
            BookItem::Chapter(ch) => ch.name.clone(),
            BookItem::Separator => "-".to_string(),
        })
        .collect();
    assert_eq!(names, vec!["a", "a1", "a1x", "-", "a2", "b"]);
}

#[test]
fn new_chapter_has_no_number_and_no_children() {
    let ch = Chapter::new("Intro", "text".to_string(), "intro.md");
    assert_eq!(ch.name, "Intro");
    assert_eq!(ch.content, "text");
    assert_eq!(ch.path, "intro.md");
    assert_eq!(ch.number, None);
    assert!(ch.sub_items.is_empty());
}

#[test]
fn section_number_labels() {
    assert_eq!(SectionNumber(vec![1]).to_string(), "1.");
    assert_eq!(SectionNumber(vec![1, 1]).to_string(), "1.1.");
    assert_eq!(SectionNumber(vec![12, 0, 345]).to_string(), "12.0.345.");
    assert_eq!(SectionNumber(vec![]).to_string(), "");
}

#[test]
fn missing_number_gives_a_null_section() {
    let entry = TocEntry::of_item(&BookItem::Chapter(Chapter::new(
        "Plain",
        String::new(),
        "plain.md",
    )));
    assert_eq!(entry, chapter("Plain", "plain.md", None));
    assert_eq!(
        entry.to_json(),
        object(vec![
            ("name", text("Plain")),
            ("path", text("plain.md")),
            ("section", Value::Null),
        ])
    );
}

#[test]
fn separator_gives_the_spacer() {
    let entry = TocEntry::of_item(&BookItem::Separator);
    assert_eq!(entry, TocEntry::Spacer);
    assert_eq!(entry.to_json(), object(vec![("spacer", text("_spacer_"))]));
}

#[test]
fn toc_round_trips_through_json() {
    let book = sample_book();
    let json = create_toc_info(&book);
    assert_eq!(toc_from_json(&json), Some(toc_entries(&book)));
}

#[test]
fn toc_from_json_reads_missing_section_as_none() {
    let json = Value::Array(vec![object(vec![
        ("name", text("A")),
        ("path", text("a.md")),
    ])]);
    assert_eq!(toc_from_json(&json), Some(vec![chapter("A", "a.md", None)]));
}

#[test]
fn toc_from_json_refuses_what_is_no_toc() {
    assert_eq!(toc_from_json(&Value::Null), None);
    assert_eq!(toc_from_json(&text("chapters")), None);
    assert_eq!(toc_from_json(&object(vec![])), None);
    // an item that is no object
    assert_eq!(toc_from_json(&Value::Array(vec![Value::Bool(true)])), None);
    // a chapter without a path
    assert_eq!(
        toc_from_json(&Value::Array(vec![object(vec![("name", text("A"))])])),
        None
    );
    // a name that is no text
    assert_eq!(
        toc_from_json(&Value::Array(vec![object(vec![
            ("name", Value::Bool(false)),
            ("path", text("a.md")),
        ])])),
        None
    );
    // a section that is neither text nor null
    assert_eq!(
        toc_from_json(&Value::Array(vec![object(vec![
            ("name", text("A")),
            ("path", text("a.md")),
            ("section", Value::from(3)),
        ])])),
        None
    );
}

#[test]
fn entry_from_json_prefers_the_spacer() {
    let json = object(vec![
        ("spacer", Value::Null),
        ("name", text("A")),
        ("path", text("a.md")),
    ]);
    assert_eq!(TocEntry::from_json(&json), Some(TocEntry::Spacer));
}

#[test]
fn text_at_reads_only_texts() {
    let json = object(vec![("a", text("x")), ("b", Value::Bool(true))]);
    let map = json.as_object().unwrap();
    assert_eq!(text_at(map, "a"), Some("x".to_string()));
    assert_eq!(text_at(map, "b"), None);
    assert_eq!(text_at(map, "c"), None);
}
