use html_renderer::book::{Book, BookItem, Chapter, SectionNumber};
use html_renderer::config::{BookConfig, Config, HtmlConfig};
use html_renderer::context::construct_global_context;
use html_renderer::engine::load_handlebars_engine;
use html_renderer::theme::Theme;
use html_renderer::error::{ConfigError, Error, RenderFailure, TemplateLoadError};
use html_renderer::renderer::{
    rendered_chapter, ChapterPages, HtmlRenderer, RenderContext, RenderedPage,
};
use html_renderer::settings::{Entry, Setting};

const INDEX: &[u8] =
    b"{{> header}}<main>{{{content}}}</main><nav>{{previous}}|{{next}}</nav>";
const HEADER: &[u8] = b"<title>{{title}}</title>";

fn chapter(name: &str, content: &str, path: &str) -> Chapter {
    Chapter::new(name, content.to_string(), path)
}

fn two_chapters() -> Book {
    let mut book = Book::new();
    book.push_item(BookItem::Chapter(chapter("First", "<p>one</p>", "first.md")));
    book.push_item(BookItem::Separator);
    book.push_item(BookItem::Chapter(chapter("Second", "<p>two</p>", "second.md")));
    book
}

fn titled(title: Option<&str>) -> Config {
    Config {
        book: BookConfig {
            title: title.map(|t| t.to_string()),
            description: None,
            authors: vec![],
        },
    }
}

fn render_with(
    book: Book,
    title: Option<&str>,
    settings: Option<Vec<Entry>>,
    index: &[u8],
    header: &[u8],
) -> Result<Vec<RenderedPage>, Error> {
    let config = titled(title);
    let theme = Theme::new(index.to_vec(), header.to_vec());
    let ctx = RenderContext {
        book: &book,
        config: &config,
        html_settings: settings.as_ref(),
        theme: &theme,
    };
    HtmlRenderer.render(&ctx)
}

fn render(
    book: Book,
    title: Option<&str>,
    index: &[u8],
    header: &[u8],
) -> Result<Vec<RenderedPage>, Error> {
    render_with(book, title, None, index, header)
}

fn page(path: &str, content: &str) -> RenderedPage {
    RenderedPage { path: path.to_string(), content: content.to_string() }
}

#[test]
fn renderer_is_called_html() {
    assert_eq!(HtmlRenderer.name(), "HTML");
}

#[test]
fn render_makes_one_page_for_each_chapter() {
    let pages = render(two_chapters(), Some("My Book"), INDEX, HEADER).unwrap();
    assert_eq!(
        pages,
        vec![
            page(
                "first.md",
                "<title>My Book - First</title><main><p>one</p></main>\
                 <nav>|<a rel=\"next\" href=\"second.md\">Second</a></nav>"
            ),
            page(
                "second.md",
                "<title>My Book - Second</title><main><p>two</p></main>\
                 <nav><a rel=\"prev\" href=\"first.md\">First</a>|</nav>"
            ),
        ]
    );
}

#[test]
fn render_without_book_title_uses_the_chapter_name() {
    let mut book = Book::new();
    book.push_item(BookItem::Chapter(chapter("Intro", "", "intro.md")));
    let pages = render(book, None, b"{{title}}", b"").unwrap();
    assert_eq!(pages, vec![page("intro.md", "Intro")]);
}

#[test]
fn render_covers_nested_chapters_in_reading_order() {
    let mut book = Book::new();
    let mut a = chapter("A", "", "a.md");
    let mut a1 = chapter("A1", "", "a/1.md");
    a1.sub_items.push(BookItem::Chapter(chapter("A1x", "", "a/1/x.md")));
    a.sub_items.push(BookItem::Chapter(a1));
    a.sub_items.push(BookItem::Separator);
    a.sub_items.push(BookItem::Chapter(chapter("A2", "", "a/2.md")));
    book.push_item(BookItem::Chapter(a));
    book.push_item(BookItem::Chapter(chapter("B", "", "b.md")));

    let pages = render(book, None, b"{{chapter_title}}:{{path_to_root}}", b"").unwrap();
    assert_eq!(
        pages,
        vec![
            page("a.md", "A:"),
            page("a/1.md", "A1:../"),
            page("a/1/x.md", "A1x:../../"),
            page("a/2.md", "A2:../"),
            page("b.md", "B:"),
        ]
    );
}

#[test]
fn book_without_separators_has_as_many_pages_as_chapters() {
    let mut book = Book::new();
    for i in 0..7 {
        book.push_item(BookItem::Chapter(chapter(
            &format!("c{}", i),
            "",
            &format!("c{}.md", i),
        )));
    }
    let pages = render(book, None, b"x", b"").unwrap();
    assert_eq!(pages.len(), 7);
    for (i, p) in pages.iter().enumerate() {
        assert_eq!(p.path, format!("c{}.md", i));
        assert_eq!(p.content, "x");
    }
}

#[test]
fn book_of_separators_has_no_pages() {
    let mut book = Book::new();
    book.push_item(BookItem::Separator);
    book.push_item(BookItem::Separator);
    book.push_item(BookItem::Separator);
    assert_eq!(render(book, None, INDEX, HEADER), Ok(vec![]));
    assert_eq!(render(Book::new(), None, INDEX, HEADER), Ok(vec![]));
}

#[test]
fn render_reads_the_settings() {
    let numbered = || {
        let mut book = Book::new();
        let mut first = chapter("First", "", "first.md");
        first.number = Some(SectionNumber(vec![1]));
        book.push_item(BookItem::Chapter(first));
        book
    };
    let index = b"{{toc}}{{playpens_editable}}{{ace_js}}";
    let settings = vec![
        Entry { key: "no-section-label".to_string(), value: Setting::Boolean(true) },
        Entry {
            key: "playpen".to_string(),
            value: Setting::Table(vec![Entry {
                key: "editable".to_string(),
                value: Setting::Boolean(true),
            }]),
        },
    ];
    assert_eq!(
        render_with(numbered(), None, Some(settings), index, b""),
        Ok(vec![page(
            "first.md",
            "<ul class=\"chapter\"><li><a href=\"first.md\" class=\"active\">First</a></li></ul>\
             trueace.js"
        )])
    );

    assert_eq!(
        render_with(numbered(), None, Some(vec![]), index, b""),
        Ok(vec![page(
            "first.md",
            "<ul class=\"chapter\"><li><a href=\"first.md\" class=\"active\">\
             <strong aria-hidden=\"true\">1.</strong> First</a></li></ul>false"
        )])
    );
}

#[test]
fn render_fails_on_a_setting_of_the_wrong_kind() {
    let settings = vec![Entry {
        key: "mathjax-support".to_string(),
        value: Setting::Text("on".to_string()),
    }];
    assert_eq!(
        render_with(two_chapters(), None, Some(settings), &[0xff], HEADER),
        Err(Error::Config(ConfigError { key: "mathjax-support".to_string() }))
    );
}

#[test]
fn render_fails_on_a_template_that_does_not_load() {
    let outcome = render(two_chapters(), None, INDEX, &[0xff]);
    match outcome {
        Err(Error::TemplateLoad(TemplateLoadError::Encoding { template, .. })) => {
            assert_eq!(template, "header")
        }
        other => panic!("expected an encoding error, got {:?}", other),
    }
    let outcome = render(two_chapters(), None, b"{{#each}}", HEADER);
    match outcome {
        Err(Error::TemplateLoad(TemplateLoadError::Syntax { template, .. })) => {
            assert_eq!(template, "index")
        }
        other => panic!("expected a syntax error, got {:?}", other),
    }
}

#[test]
fn render_fails_with_the_chapter_that_does_not_render() {
    let outcome = render(two_chapters(), None, b"{{> missing}}", HEADER);
    match outcome {
        Err(Error::Render(failure)) => {
            assert_eq!(failure.chapter, "First");
            assert_eq!(failure.path, "first.md");
            assert!(!failure.detail.is_empty());
        }
        other => panic!("expected a render failure, got {:?}", other),
    }
}

#[test]
fn render_chapters_uses_the_given_context_and_title() {
    let hbs = load_handlebars_engine(
        &Theme::new(b"{{title}}/{{book_title}}/{{extra}}".to_vec(), vec![]),
        &HtmlConfig::default(),
    )
    .unwrap();
    let book = two_chapters();
    let mut global = construct_global_context(&titled(Some("T")), &HtmlConfig::default(), &book);
    global.insert("extra".to_string(), serde_json::Value::String("more".to_string()));
    let other = "Other".to_string();
    let pages = HtmlRenderer.render_chapters(&hbs, &book, &global, Some(&other)).unwrap();
    assert_eq!(
        pages,
        vec![page("first.md", "Other - First/T/more"), page("second.md", "Other - Second/T/more")]
    );
}

#[test]
fn render_chapter_gives_the_page_of_one_chapter() {
    let hbs = load_handlebars_engine(
        &Theme::new(b"{{path}}|{{{content}}}|{{path_to_root}}".to_vec(), vec![]),
        &HtmlConfig::default(),
    )
    .unwrap();
    let ch = chapter("Deep", "<b>x</b>", "a/b/deep.md");
    let global = serde_json::Map::new();
    assert_eq!(
        HtmlRenderer.render_chapter(&hbs, &ch, &global, None),
        Ok("a/b/deep.md|<b>x</b>|../../".to_string())
    );
}

#[test]
fn rendered_chapter_keeps_a_page_and_names_the_chapter_of_a_failure() {
    let ch = chapter("Intro", "", "intro.md");
    assert_eq!(rendered_chapter(&ch, Ok("<html>".to_string())), Ok("<html>".to_string()));

    let engine_error =
        handlebars::RenderError::from(handlebars::RenderErrorReason::Other("boom".to_string()));
    let failure = rendered_chapter(&ch, Err(engine_error)).unwrap_err();
    assert_eq!(failure.chapter, "Intro");
    assert_eq!(failure.path, "intro.md");
    assert!(failure.detail.contains("boom"));
}

#[test]
fn render_failure_in_words() {
    let failure = RenderFailure {
        chapter: "Intro".to_string(),
        path: "intro.md".to_string(),
        detail: "boom".to_string(),
    };
    assert_eq!(failure.to_string(), "Unable to render \"Intro\" (intro.md): boom");
    assert_eq!(
        Error::Render(failure).to_string(),
        "Unable to render \"Intro\" (intro.md): boom"
    );
    assert_eq!(
        Error::Config(ConfigError { key: "theme".to_string() }).to_string(),
        "invalid type for the setting theme"
    );
}

#[test]
fn pages_come_one_at_a_time_in_reading_order() {
    let hbs = load_handlebars_engine(
        &Theme::new(b"{{chapter_title}}".to_vec(), vec![]),
        &HtmlConfig::default(),
    )
    .unwrap();
    let mut book = Book::new();
    book.push_item(BookItem::Separator);
    let mut a = chapter("A", "", "a.md");
    a.sub_items.push(BookItem::Separator);
    a.sub_items.push(BookItem::Chapter(chapter("A1", "", "a/1.md")));
    book.push_item(BookItem::Chapter(a));
    book.push_item(BookItem::Separator);
    book.push_item(BookItem::Chapter(chapter("B", "", "b.md")));
    book.push_item(BookItem::Separator);
    let global = serde_json::Map::new();

    let mut pages = ChapterPages::new(&hbs, &book, &global, None);
    assert_eq!(pages.next_page(), Some(Ok(page("a.md", "A"))));
    assert_eq!(pages.next_page(), Some(Ok(page("a/1.md", "A1"))));
    assert_eq!(pages.next_page(), Some(Ok(page("b.md", "B"))));
    assert_eq!(pages.next_page(), None);
    assert_eq!(pages.next_page(), None);
}

#[test]
fn no_page_is_made_after_a_failure() {
    let hbs = load_handlebars_engine(
        &Theme::new(b"{{#if content}}{{> missing}}{{/if}}ok".to_vec(), vec![]),
        &HtmlConfig::default(),
    )
    .unwrap();
    let mut book = Book::new();
    book.push_item(BookItem::Chapter(chapter("A", "", "a.md")));
    book.push_item(BookItem::Chapter(chapter("B", "body", "b.md")));
    book.push_item(BookItem::Chapter(chapter("C", "", "c.md")));
    let global = serde_json::Map::new();

    let mut pages = ChapterPages::new(&hbs, &book, &global, None);
    assert_eq!(pages.next_page(), Some(Ok(page("a.md", "ok"))));
    match pages.next_page() {
        Some(Err(failure)) => {
            assert_eq!(failure.chapter, "B");
            assert_eq!(failure.path, "b.md");
        }
        other => panic!("expected a failure, got {:?}", other),
    }
    assert_eq!(pages.next_page(), None);

    let title = None;
    match HtmlRenderer.render_chapters(&hbs, &book, &global, title) {
        Err(failure) => assert_eq!(failure.chapter, "B"),
        other => panic!("expected a failure, got {:?}", other),
    }
}

#[test]
fn prepare_builds_the_context_and_loads_the_engine() {
    let book = two_chapters();
    let config = titled(Some("My Book"));
    let theme = Theme::new(INDEX.to_vec(), HEADER.to_vec());
    let settings = vec![Entry {
        key: "mathjax-support".to_string(),
        value: Setting::Boolean(true),
    }];
    let ctx = RenderContext {
        book: &book,
        config: &config,
        html_settings: Some(&settings),
        theme: &theme,
    };
    let prepared = HtmlRenderer.prepare(&ctx).unwrap();

    let mut html = HtmlConfig::default();
    html.mathjax_support = true;
    assert_eq!(prepared.global_ctx, construct_global_context(&config, &html, &book));
    assert!(prepared.engine.get_templates().contains_key("index"));
    assert!(prepared.engine.get_templates().contains_key("header"));
}

#[test]
fn prepare_fails_before_any_chapter_is_rendered() {
    let book = two_chapters();
    let config = titled(None);
    let theme = Theme::new(b"{{/each}}".to_vec(), HEADER.to_vec());
    let ctx = RenderContext { book: &book, config: &config, html_settings: None, theme: &theme };
    match HtmlRenderer.prepare(&ctx) {
        Err(Error::TemplateLoad(TemplateLoadError::Syntax { template, .. })) => {
            assert_eq!(template, "index")
        }
        Err(other) => panic!("expected a syntax error, got {:?}", other),
        Ok(_) => panic!("expected a syntax error"),
    }
}

#[test]
fn render_chapter_fails_without_an_index_template() {
    let mut hbs = handlebars::Handlebars::new();
    hbs.register_template_string("page", "{{title}}").unwrap();
    let ch = chapter("Intro", "body", "intro.md");
    let global = serde_json::Map::new();
    let failure = HtmlRenderer.render_chapter(&hbs, &ch, &global, None).unwrap_err();
    assert_eq!(failure.chapter, "Intro");
    assert_eq!(failure.path, "intro.md");
    assert!(!failure.detail.is_empty());

    hbs.register_template_string("index", "{{title}}").unwrap();
    assert_eq!(HtmlRenderer.render_chapter(&hbs, &ch, &global, None), Ok("Intro".to_string()));
}
