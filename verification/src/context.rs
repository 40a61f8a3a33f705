//! The template context: what every page is rendered with, and what one
//! chapter adds to it.

use vstd::prelude::*;
use crate::book::{Book, BookItemView, Chapter, ChapterView, lemma_sub_items_view};
use crate::config::{BookConfigView, Config, HtmlConfig, HtmlConfigView};
use crate::helpers::{PageDataView, page_data};
use crate::json::{
    Json, JsonObject, array_value, bool_value, new_object, null_value, object_clone, object_extend,
    object_insert, object_model, string_value, value_model, values_model,
};
use crate::text::{
    page_title, path_to_root, root_path, text_ref_view, text_view, texts_view, title_string,
};
use crate::toc::{create_toc_info, lemma_toc_round_trip, toc, toc_json};

verus! {

/// An optional text as JSON: the text, or null where there is none.
pub open spec fn optional_text(text: Option<Seq<char>>) -> Json {
    match text {
        Some(t) => Json::Text(t),
        None => Json::Null,
    }
}

/// A list of texts as a JSON list.
pub open spec fn text_list(texts: Seq<Seq<char>>) -> Json {
    Json::List(texts.map_values(|t: Seq<char>| Json::Text(t)))
}

/// The scripts of the editor, by the key under which a template finds each.
pub open spec fn editor_assets() -> Map<Seq<char>, Json> {
    Map::empty().insert("editor_js"@, Json::Text("editor.js"@)).insert(
        "ace_js"@,
        Json::Text("ace.js"@),
    ).insert("mode_rust_js"@, Json::Text("mode-rust.js"@)).insert(
        "theme_dawn_js"@,
        Json::Text("theme-dawn.js"@),
    ).insert("theme_tomorrow_night_js"@, Json::Text("theme-tomorrow_night.js"@))
}

/// What every page of a book is rendered with, whatever the playpen.
pub open spec fn base_context(
    book: BookConfigView,
    html: HtmlConfigView,
    items: Seq<BookItemView>,
) -> Map<Seq<char>, Json> {
    Map::empty().insert("language"@, Json::Text("en"@)).insert(
        "book_title"@,
        optional_text(book.title),
    ).insert("description"@, optional_text(book.description)).insert(
        "livereload"@,
        optional_text(html.livereload_url),
    ).insert("authors"@, text_list(book.authors)).insert(
        "google_analytics"@,
        optional_text(html.google_analytics),
    ).insert("favicon"@, Json::Text("favicon.ico"@)).insert(
        "mathjax_support"@,
        Json::Bool(html.mathjax_support),
    ).insert("chapters"@, toc_json(items)).insert(
        "playpens_editable"@,
        Json::Bool(html.playpen.editable),
    )
}

/// The context shared by all pages of a book: the base context, and the
/// editor's scripts where playpens are editable.
pub open spec fn global_context(
    book: BookConfigView,
    html: HtmlConfigView,
    items: Seq<BookItemView>,
) -> Map<Seq<char>, Json> {
    if html.playpen.editable {
        base_context(book, html, items).union_prefer_right(editor_assets())
    } else {
        base_context(book, html, items)
    }
}

/// What a chapter adds to the context of its page.
pub open spec fn chapter_fields(chapter: ChapterView, book_title: Option<Seq<char>>) -> Map<
    Seq<char>,
    Json,
> {
    Map::empty().insert("path"@, Json::Text(chapter.path)).insert(
        "content"@,
        Json::Text(chapter.content),
    ).insert("chapter_title"@, Json::Text(chapter.name)).insert(
        "title"@,
        Json::Text(page_title(book_title, chapter.name)),
    ).insert("path_to_root"@, Json::Text(root_path(chapter.path)))
}

/// The context of a chapter's page: the shared context and the chapter's own
/// fields, which win where both have a key.
pub open spec fn chapter_context(
    global: Map<Seq<char>, Json>,
    chapter: ChapterView,
    book_title: Option<Seq<char>>,
) -> Map<Seq<char>, Json> {
    global.union_prefer_right(chapter_fields(chapter, book_title))
}

fn optional_text_value(text: &Option<String>) -> (v: serde_json::Value)
    ensures
        value_model(v) == optional_text(text_view(*text)),
{
    match text {
        Some(t) => string_value(t.clone()),
        None => null_value(),
    }
}

fn text_list_value(texts: &Vec<String>) -> (v: serde_json::Value)
    ensures
        value_model(v) == text_list(texts_view(texts@)),
{
    let mut values: Vec<serde_json::Value> = Vec::new();
    let mut i: usize = 0;
    while i < texts.len()
        invariant
            i <= texts.len(),
            values.len() == i,
            forall|j: int| 0 <= j < i ==> value_model(#[trigger] values[j]) == Json::Text(texts[j]@),
        decreases texts.len() - i,
    {
        values.push(string_value(texts[i].clone()));
        i += 1;
    }
    assert(values_model(values@) =~= texts_view(texts@).map_values(
        |t: Seq<char>| Json::Text(t),
    ));
    array_value(values)
}

fn text_value(text: &str) -> (v: serde_json::Value)
    ensures
        value_model(v) == Json::Text(text@),
{
    string_value(String::from_str(text))
}

fn insert_text(object: &mut JsonObject, key: &str, text: &str)
    ensures
        object_model(*final(object)) == object_model(*old(object)).insert(key@, Json::Text(text@)),
{
    object_insert(object, String::from_str(key), text_value(text));
}

/// Builds the context shared by all pages of a book.
pub fn construct_global_context(cfg: &Config, html_config: &HtmlConfig, book: &Book) -> (context:
    JsonObject)
    ensures
        object_model(context) == global_context(cfg@.book, html_config@, book@),
{
    let toc_info = create_toc_info(book);

    let mut context = new_object();
    insert_text(&mut context, "language", "en");
    object_insert(&mut context, String::from_str("book_title"), optional_text_value(&cfg.book.title));
    object_insert(
        &mut context,
        String::from_str("description"),
        optional_text_value(&cfg.book.description),
    );
    object_insert(
        &mut context,
        String::from_str("livereload"),
        optional_text_value(&html_config.livereload_url),
    );
    object_insert(&mut context, String::from_str("authors"), text_list_value(&cfg.book.authors));
    object_insert(
        &mut context,
        String::from_str("google_analytics"),
        optional_text_value(&html_config.google_analytics),
    );
    insert_text(&mut context, "favicon", "favicon.ico");
    object_insert(
        &mut context,
        String::from_str("mathjax_support"),
        bool_value(html_config.mathjax_support),
    );
    object_insert(&mut context, String::from_str("chapters"), toc_info);
    object_insert(
        &mut context,
        String::from_str("playpens_editable"),
        bool_value(html_config.playpen.editable),
    );

    if html_config.playpen.editable {
        let mut extra_info = new_object();
        insert_text(&mut extra_info, "editor_js", "editor.js");
        insert_text(&mut extra_info, "ace_js", "ace.js");
        insert_text(&mut extra_info, "mode_rust_js", "mode-rust.js");
        insert_text(&mut extra_info, "theme_dawn_js", "theme-dawn.js");
        insert_text(&mut extra_info, "theme_tomorrow_night_js", "theme-tomorrow_night.js");
        object_extend(&mut context, extra_info);
    }
    context
}

/// Builds the context of a chapter's page from the shared context.
pub fn construct_chapter_context(
    ch: &Chapter,
    global_ctx: &JsonObject,
    book_title: Option<&String>,
) -> (context: JsonObject)
    ensures
        object_model(context) == chapter_context(
            object_model(*global_ctx),
            ch@,
            text_ref_view(book_title),
        ),
{
    proof {
        lemma_sub_items_view(*ch);
    }
    let title = title_string(book_title, &ch.name);
    let to_root = path_to_root(ch.path.as_str());

    let mut chapter_ctx = new_object();
    object_insert(&mut chapter_ctx, String::from_str("path"), string_value(ch.path.clone()));
    object_insert(&mut chapter_ctx, String::from_str("content"), string_value(ch.content.clone()));
    object_insert(&mut chapter_ctx, String::from_str("chapter_title"), string_value(ch.name.clone()));
    object_insert(&mut chapter_ctx, String::from_str("title"), string_value(title));
    object_insert(&mut chapter_ctx, String::from_str("path_to_root"), string_value(to_root));

    let mut context = object_clone(global_ctx);
    object_extend(&mut context, chapter_ctx);
    context
}

/// The keys that every shared context has.
pub open spec fn base_keys() -> Set<Seq<char>> {
    set![
        "language"@,
        "book_title"@,
        "description"@,
        "livereload"@,
        "authors"@,
        "google_analytics"@,
        "favicon"@,
        "mathjax_support"@,
        "chapters"@,
        "playpens_editable"@,
    ]
}

/// The keys of the editor's scripts.
pub open spec fn editor_asset_keys() -> Set<Seq<char>> {
    set!["editor_js"@, "ace_js"@, "mode_rust_js"@, "theme_dawn_js"@, "theme_tomorrow_night_js"@]
}

/// The keys that a chapter adds.
pub open spec fn chapter_keys() -> Set<Seq<char>> {
    set!["path"@, "content"@, "chapter_title"@, "title"@, "path_to_root"@]
}

proof fn reveal_keys()
    ensures
        "language"@.len() == 8 && "language"@[0] == 'l',
        "book_title"@.len() == 10 && "book_title"@[0] == 'b',
        "description"@.len() == 11 && "description"@[0] == 'd',
        "livereload"@.len() == 10 && "livereload"@[0] == 'l',
        "authors"@.len() == 7 && "authors"@[0] == 'a',
        "google_analytics"@.len() == 16 && "google_analytics"@[0] == 'g',
        "favicon"@.len() == 7 && "favicon"@[0] == 'f',
        "mathjax_support"@.len() == 15 && "mathjax_support"@[0] == 'm',
        "chapters"@.len() == 8 && "chapters"@[0] == 'c',
        "playpens_editable"@.len() == 17 && "playpens_editable"@[0] == 'p',
        "editor_js"@.len() == 9 && "editor_js"@[0] == 'e',
        "ace_js"@.len() == 6 && "ace_js"@[0] == 'a',
        "mode_rust_js"@.len() == 12 && "mode_rust_js"@[0] == 'm',
        "theme_dawn_js"@.len() == 13 && "theme_dawn_js"@[0] == 't',
        "theme_tomorrow_night_js"@.len() == 23 && "theme_tomorrow_night_js"@[0] == 't',
        "path"@.len() == 4 && "path"@[0] == 'p',
        "content"@.len() == 7 && "content"@[0] == 'c',
        "chapter_title"@.len() == 13 && "chapter_title"@[0] == 'c',
        "title"@.len() == 5 && "title"@[0] == 't',
        "path_to_root"@.len() == 12 && "path_to_root"@[0] == 'p',
{
    reveal_strlit("language");
    reveal_strlit("book_title");
    reveal_strlit("description");
    reveal_strlit("livereload");
    reveal_strlit("authors");
    reveal_strlit("google_analytics");
    reveal_strlit("favicon");
    reveal_strlit("mathjax_support");
    reveal_strlit("chapters");
    reveal_strlit("playpens_editable");
    reveal_strlit("editor_js");
    reveal_strlit("ace_js");
    reveal_strlit("mode_rust_js");
    reveal_strlit("theme_dawn_js");
    reveal_strlit("theme_tomorrow_night_js");
    reveal_strlit("path");
    reveal_strlit("content");
    reveal_strlit("chapter_title");
    reveal_strlit("title");
    reveal_strlit("path_to_root");
}

/// The shared context has the ten base keys, and besides them the five keys
/// of the editor's scripts exactly where playpens are editable.
pub proof fn lemma_global_context_keys(
    book: BookConfigView,
    html: HtmlConfigView,
    items: Seq<BookItemView>,
)
    ensures
        base_context(book, html, items).dom() == base_keys(),
        editor_assets().dom() == editor_asset_keys(),
        base_keys().disjoint(editor_asset_keys()),
        global_context(book, html, items).dom() == if html.playpen.editable {
            base_keys().union(editor_asset_keys())
        } else {
            base_keys()
        },
{
    reveal_keys();
    assert(base_context(book, html, items).dom() =~= base_keys());
    assert(editor_assets().dom() =~= editor_asset_keys());
    assert(global_context(book, html, items).dom() =~= if html.playpen.editable {
        base_keys().union(editor_asset_keys())
    } else {
        base_keys()
    });
}

/// The editor's scripts are in the shared context all together or not at
/// all: with editable playpens each of the five keys is present with its
/// fixed value, without them none of the five is present.
pub proof fn lemma_editor_assets_all_or_none(
    book: BookConfigView,
    html: HtmlConfigView,
    items: Seq<BookItemView>,
)
    ensures
        forall|key: Seq<char>| #[trigger]
            editor_asset_keys().contains(key) ==> (global_context(book, html, items).dom().contains(
                key,
            ) <==> html.playpen.editable),
        html.playpen.editable ==> {
            let context = global_context(book, html, items);
            &&& context["editor_js"@] == Json::Text("editor.js"@)
            &&& context["ace_js"@] == Json::Text("ace.js"@)
            &&& context["mode_rust_js"@] == Json::Text("mode-rust.js"@)
            &&& context["theme_dawn_js"@] == Json::Text("theme-dawn.js"@)
            &&& context["theme_tomorrow_night_js"@] == Json::Text("theme-tomorrow_night.js"@)
        },
{
    reveal_keys();
    lemma_global_context_keys(book, html, items);
}

/// No key of the shared context is a key that a chapter adds, so it makes no
/// difference which of the two wins in the context of a chapter's page.
pub proof fn lemma_chapter_keys_apart(
    book: BookConfigView,
    html: HtmlConfigView,
    items: Seq<BookItemView>,
    chapter: ChapterView,
    book_title: Option<Seq<char>>,
)
    ensures
        chapter_fields(chapter, book_title).dom() == chapter_keys(),
        global_context(book, html, items).dom().disjoint(chapter_keys()),
        chapter_context(global_context(book, html, items), chapter, book_title)
            == chapter_fields(chapter, book_title).union_prefer_right(
            global_context(book, html, items),
        ),
{
    reveal_keys();
    lemma_global_context_keys(book, html, items);
    assert(chapter_fields(chapter, book_title).dom() =~= chapter_keys());
    assert(chapter_context(global_context(book, html, items), chapter, book_title)
        =~= chapter_fields(chapter, book_title).union_prefer_right(
        global_context(book, html, items),
    ));
}

/// The shared context is a function of what the configuration and the book
/// hold: equal inputs give equal contexts.
pub proof fn lemma_global_context_deterministic(
    cfg_a: Config,
    html_a: HtmlConfig,
    book_a: Book,
    cfg_b: Config,
    html_b: HtmlConfig,
    book_b: Book,
)
    requires
        cfg_a@ == cfg_b@,
        html_a@ == html_b@,
        book_a@ == book_b@,
    ensures
        global_context(cfg_a@.book, html_a@, book_a@) == global_context(
            cfg_b@.book,
            html_b@,
            book_b@,
        ),
{
}

/// What the helpers read from the context of a chapter's page is the
/// book's table of contents, the chapter's path and the way from there to
/// the root.
pub proof fn lemma_chapter_page_data(
    book: BookConfigView,
    html: HtmlConfigView,
    items: Seq<BookItemView>,
    chapter: ChapterView,
    book_title: Option<Seq<char>>,
)
    ensures
        page_data(
            Json::Object(chapter_context(global_context(book, html, items), chapter, book_title)),
        ) == Some(
            PageDataView {
                entries: toc(items),
                path: chapter.path,
                path_to_root: root_path(chapter.path),
            },
        ),
{
    reveal_keys();
    lemma_global_context_keys(book, html, items);
    lemma_chapter_keys_apart(book, html, items, chapter, book_title);
    lemma_toc_round_trip(toc(items));
    let context = chapter_context(global_context(book, html, items), chapter, book_title);
    assert(context.contains_key("chapters"@));
    assert(context["chapters"@] == toc_json(items));
    assert(context["path"@] == Json::Text(chapter.path));
    assert(context["path_to_root"@] == Json::Text(root_path(chapter.path)));
}

} // verus!
