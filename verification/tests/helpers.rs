use html_renderer::helpers::navigation::{find_position, next_chapter, previous_chapter};
use html_renderer::helpers::toc::render_toc;
use html_renderer::helpers::{next, previous, PageData, RenderToc};
use html_renderer::toc::TocEntry;
use serde_json::Value;

const INCOMPLETE: &str =
    "the data of the page lacks its table of contents, its path or its way to the root";

fn chapter(name: &str, path: &str, section: Option<&str>) -> TocEntry {
    TocEntry::Chapter {
        name: name.to_string(),
        path: path.to_string(),
        section: section.map(|s| s.to_string()),
    }
}

fn entries() -> Vec<TocEntry> {
    vec![
        chapter("First", "first.md", Some("1.")),
        chapter("Nested", "first/nested.md", Some("1.1.")),
        TocEntry::Spacer,
        chapter("Second", "second.md", None),
    ]
}

fn data(entries: &[TocEntry], path: &str, to_root: &str) -> Value {
    let mut map = serde_json::Map::new();
    map.insert(
        "chapters".to_string(),
        Value::Array(entries.iter().map(|e| e.to_json()).collect()),
    );
    map.insert("path".to_string(), Value::String(path.to_string()));
    map.insert("path_to_root".to_string(), Value::String(to_root.to_string()));
    Value::Object(map)
}

fn s(text: &str) -> String {
    text.to_string()
}

#[test]
fn page_data_is_read_from_the_context() {
    let page = PageData::read(&data(&entries(), "second.md", "../")).unwrap();
    assert_eq!(
        page,
        PageData { entries: entries(), path: s("second.md"), path_to_root: s("../") }
    );
}

#[test]
fn page_data_needs_all_three_fields() {
    let full = data(&entries(), "a.md", "");
    for key in ["chapters", "path", "path_to_root"] {
        let mut map = full.as_object().unwrap().clone();
        map.remove(key);
        assert_eq!(PageData::read(&Value::Object(map)), Err(s(INCOMPLETE)));
    }
    for key in ["chapters", "path", "path_to_root"] {
        let mut map = full.as_object().unwrap().clone();
        map.insert(key.to_string(), Value::Bool(true));
        assert_eq!(PageData::read(&Value::Object(map)), Err(s(INCOMPLETE)));
    }
    assert_eq!(PageData::read(&Value::Null), Err(s(INCOMPLETE)));
    assert_eq!(PageData::read(&Value::Array(vec![])), Err(s(INCOMPLETE)));
}

#[test]
fn toc_markup_nests_by_section_level() {
    let markup = render_toc(&entries(), &s("first/nested.md"), &s("../"), false);
    assert_eq!(
        markup,
        "<ul class=\"chapter\">\
         <li><a href=\"../first.md\"><strong aria-hidden=\"true\">1.</strong> First</a></li>\
         <li><ul class=\"section\">\
         <li><a href=\"../first/nested.md\" class=\"active\"><strong aria-hidden=\"true\">1.1.</strong> Nested</a></li>\
         <li class=\"spacer\"></li>\
         </ul></li>\
         <li><a href=\"../second.md\">Second</a></li>\
         </ul>"
    );
}

#[test]
fn toc_markup_without_section_labels() {
    let markup = render_toc(&entries(), &s("second.md"), &s(""), true);
    assert_eq!(
        markup,
        "<ul class=\"chapter\">\
         <li><a href=\"first.md\">First</a></li>\
         <li><ul class=\"section\">\
         <li><a href=\"first/nested.md\">Nested</a></li>\
         <li class=\"spacer\"></li>\
         </ul></li>\
         <li><a href=\"second.md\" class=\"active\">Second</a></li>\
         </ul>"
    );
}

#[test]
fn toc_markup_closes_what_is_still_open() {
    let entries = vec![
        chapter("A", "a.md", Some("1.")),
        chapter("B", "a/b/c.md", Some("1.1.1.")),
    ];
    let markup = render_toc(&entries, &s("none"), &s(""), true);
    assert_eq!(
        markup,
        "<ul class=\"chapter\">\
         <li><a href=\"a.md\">A</a></li>\
         <li><ul class=\"section\"><li><ul class=\"section\">\
         <li><a href=\"a/b/c.md\">B</a></li>\
         </ul></li></ul></li>\
         </ul>"
    );
}

#[test]
fn toc_markup_of_nothing_is_an_empty_list() {
    assert_eq!(render_toc(&vec![], &s("a.md"), &s(""), false), "<ul class=\"chapter\"></ul>");
}

#[test]
fn toc_markup_escapes_names_labels_and_paths() {
    let entries = vec![chapter("A & <B>", "a\"b.md", Some("1.<"))];
    let markup = render_toc(&entries, &s("x"), &s("'/"), false);
    assert_eq!(
        markup,
        "<ul class=\"chapter\">\
         <li><a href=\"&#x27;/a&quot;b.md\"><strong aria-hidden=\"true\">1.&lt;</strong> A &amp; &lt;B&gt;</a></li>\
         </ul>"
    );
}

#[test]
fn toc_helper_reads_the_page_data() {
    let helper = RenderToc { no_section_label: false };
    let d = data(&entries(), "first.md", "");
    assert_eq!(helper.render(&d), Ok(render_toc(&entries(), &s("first.md"), &s(""), false)));
    let helper = RenderToc { no_section_label: true };
    assert_eq!(helper.render(&d), Ok(render_toc(&entries(), &s("first.md"), &s(""), true)));
    assert_eq!(helper.render(&Value::Null), Err(s(INCOMPLETE)));
}

#[test]
fn position_is_that_of_the_first_chapter_with_the_path() {
    let mut list = entries();
    list.push(chapter("Again", "first.md", None));
    assert_eq!(find_position(&list, &s("first.md")), Some(0));
    assert_eq!(find_position(&list, &s("first/nested.md")), Some(1));
    assert_eq!(find_position(&list, &s("second.md")), Some(3));
    assert_eq!(find_position(&list, &s("missing.md")), None);
    assert_eq!(find_position(&vec![], &s("first.md")), None);
}

#[test]
fn previous_passes_over_spacers() {
    let list = entries();
    assert_eq!(previous_chapter(&list, &s("second.md")), Some(&list[1]));
    assert_eq!(previous_chapter(&list, &s("first/nested.md")), Some(&list[0]));
}

#[test]
fn previous_of_the_first_chapter_is_none() {
    let list = entries();
    assert_eq!(previous_chapter(&list, &s("first.md")), None);
    let list = vec![TocEntry::Spacer, chapter("Only", "only.md", None)];
    assert_eq!(previous_chapter(&list, &s("only.md")), None);
    assert_eq!(previous_chapter(&list, &s("missing.md")), None);
}

#[test]
fn next_passes_over_spacers() {
    let list = entries();
    assert_eq!(next_chapter(&list, &s("first/nested.md")), Some(&list[3]));
    assert_eq!(next_chapter(&list, &s("first.md")), Some(&list[1]));
}

#[test]
fn next_of_the_last_chapter_is_none() {
    let list = entries();
    assert_eq!(next_chapter(&list, &s("second.md")), None);
    let list = vec![chapter("Only", "only.md", None), TocEntry::Spacer];
    assert_eq!(next_chapter(&list, &s("only.md")), None);
    assert_eq!(next_chapter(&list, &s("missing.md")), None);
}

#[test]
fn previous_helper_writes_a_link() {
    assert_eq!(
        previous(&data(&entries(), "second.md", "")),
        Ok(s("<a rel=\"prev\" href=\"first/nested.md\">Nested</a>"))
    );
    assert_eq!(
        previous(&data(&entries(), "first/nested.md", "../")),
        Ok(s("<a rel=\"prev\" href=\"../first.md\">First</a>"))
    );
    assert_eq!(previous(&data(&entries(), "first.md", "")), Ok(s("")));
    assert_eq!(previous(&data(&entries(), "missing.md", "")), Ok(s("")));
    assert_eq!(previous(&Value::Bool(true)), Err(s(INCOMPLETE)));
}

#[test]
fn next_helper_writes_a_link() {
    assert_eq!(
        next(&data(&entries(), "first.md", "")),
        Ok(s("<a rel=\"next\" href=\"first/nested.md\">Nested</a>"))
    );
    assert_eq!(
        next(&data(&entries(), "first/nested.md", "../")),
        Ok(s("<a rel=\"next\" href=\"../second.md\">Second</a>"))
    );
    assert_eq!(next(&data(&entries(), "second.md", "")), Ok(s("")));
    assert_eq!(next(&Value::Bool(true)), Err(s(INCOMPLETE)));
}

#[test]
fn links_escape_names_and_paths() {
    let list = vec![chapter("A", "a.md", None), chapter("<B>", "b&c.md", None)];
    assert_eq!(
        next(&data(&list, "a.md", "\"/")),
        Ok(s("<a rel=\"next\" href=\"&quot;/b&amp;c.md\">&lt;B&gt;</a>"))
    );
}
