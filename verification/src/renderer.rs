//! The renderer: from a book, its configuration and a theme to the pages of
//! the book.

use vstd::prelude::*;
use crate::book::{
    Book, BookItem, BookItemView, Chapter, ChapterView, has_distinct_paths, lemma_sub_items_view,
    reading_order, reading_order_of, refs_view,
};
use crate::config::{Config, HtmlConfig, HtmlConfigView, default_html_config};
use crate::context::{construct_chapter_context, construct_global_context, global_context};
use crate::engine::{
    fault_of, helper_names, load_failure, load_handlebars_engine, render_template, template_names,
};
use crate::theme::Theme;
use crate::error::{Error, RenderFailure};
use crate::json::{JsonObject, object_model};
use crate::settings::{Entry, entries_view, html_config_of};

verus! {

/// Renders a book as HTML pages.
pub struct HtmlRenderer;

/// A page of the rendered book.
#[derive(Debug, Clone, PartialEq, Eq)]
pub struct RenderedPage {
    /// Where the page goes, relative to the output root.
    pub path: String,
    /// The page's HTML.
    pub content: String,
}

/// What a render has once its settings are read and the theme's templates
/// are loaded: the engine, and the context that all pages share.
pub struct Prepared {
    /// The engine, with the theme's templates and the renderer's helpers.
    pub engine: handlebars::Handlebars<'static>,
    /// The context shared by all pages.
    pub global_ctx: JsonObject,
}

/// What a render starts from.
#[derive(Debug, Clone, Copy)]
pub struct RenderContext<'a> {
    /// The book.
    pub book: &'a Book,
    /// The configuration of the build.
    pub config: &'a Config,
    /// The renderer's own settings, where the configuration has any.
    pub html_settings: Option<&'a Vec<Entry>>,
    /// The templates of the theme.
    pub theme: &'a Theme,
}

/// The chapters among some items, in the items' order.
pub open spec fn chapters_in(items: Seq<BookItemView>) -> Seq<ChapterView>
    decreases items.len(),
{
    if items.len() == 0 {
        Seq::empty()
    } else {
        match items.last() {
            BookItemView::Chapter(ch) => chapters_in(items.drop_last()).push(ch),
            BookItemView::Separator => chapters_in(items.drop_last()),
        }
    }
}

/// The chapters of a book in reading order, nested chapters included.
pub open spec fn chapters_of(book: Seq<BookItemView>) -> Seq<ChapterView> {
    chapters_in(reading_order(book))
}

/// The paths of some chapters, in order.
pub open spec fn chapter_paths(chapters: Seq<ChapterView>) -> Seq<Seq<char>> {
    chapters.map_values(|ch: ChapterView| ch.path)
}

/// The paths of some pages, in order.
pub open spec fn page_paths(pages: Seq<RenderedPage>) -> Seq<Seq<char>> {
    pages.map_values(|page: RenderedPage| page.path@)
}

/// Whether a failure is about the given chapter.
pub open spec fn is_about(failure: RenderFailure, chapter: ChapterView) -> bool {
    failure.chapter@ == chapter.name && failure.path@ == chapter.path
}

/// Whether a failure is about one of the book's chapters.
pub open spec fn is_about_chapter_of(failure: RenderFailure, book: Seq<BookItemView>) -> bool {
    exists|k: int|
        0 <= k < reading_order(book).len() && (#[trigger] reading_order(book)[k]) is Chapter
            && is_about(failure, reading_order(book)[k]->Chapter_0)
}

/// The configuration that a render works with: the default where the build
/// has no settings for the renderer, else what the settings describe.
pub open spec fn configured(settings: Option<&Vec<Entry>>) -> Result<HtmlConfigView, Seq<char>> {
    match settings {
        Some(entries) => html_config_of(entries_view(entries@)),
        None => Ok(default_html_config()),
    }
}

/// What the engine's answer for a chapter's page means for the render: the
/// page as it is, or a failure that names the chapter.
pub fn rendered_chapter(ch: &Chapter, outcome: Result<String, handlebars::RenderError>) -> (page:
    Result<String, RenderFailure>)
    ensures
        match outcome {
            Ok(text) => page == Ok::<String, RenderFailure>(text),
            Err(_) => page matches Err(failure) && is_about(failure, ch@),
        },
{
    proof {
        lemma_sub_items_view(*ch);
    }
    match outcome {
        Ok(text) => Ok(text),
        Err(e) => Err(
            RenderFailure {
                chapter: ch.name.clone(),
                path: ch.path.clone(),
                detail: e.to_string(),
            },
        ),
    }
}

/// Where the first chapter stands among some items.
pub open spec fn first_chapter_index(items: Seq<BookItemView>) -> Option<int>
    decreases items.len(),
{
    if items.len() == 0 {
        None
    } else if items[0] is Chapter {
        Some(0)
    } else {
        match first_chapter_index(items.drop_first()) {
            Some(i) => Some(i + 1),
            None => None,
        }
    }
}

/// The first chapter is past the separators that the items start with.
proof fn lemma_first_chapter_index_skip(items: Seq<BookItemView>, n: int)
    requires
        0 <= n <= items.len(),
        forall|j: int| 0 <= j < n ==> (#[trigger] items[j]) is Separator,
    ensures
        first_chapter_index(items) == match first_chapter_index(items.skip(n)) {
            Some(i) => Some(i + n),
            None => None,
        },
    decreases n,
{
    if n == 0 {
        assert(items.skip(0) =~= items);
    } else {
        assert(items[0] is Separator);
        assert forall|j: int| 0 <= j < n - 1 implies (
        #[trigger] items.drop_first()[j]) is Separator by {
            assert(items.drop_first()[j] == items[j + 1]);
        }
        lemma_first_chapter_index_skip(items.drop_first(), n - 1);
        assert(items.drop_first().skip(n - 1) =~= items.skip(n));
    }
}

/// The pages of a book, made one at a time and in reading order.
///
/// A render is under way until the book has no chapter left or a chapter
/// fails to render; after a failure no further page is made.
pub struct ChapterPages<'a> {
    engine: &'a handlebars::Handlebars<'static>,
    global_ctx: &'a JsonObject,
    items: Vec<&'a BookItem>,
    title: Option<&'a String>,
    next: usize,
    failed: bool,
}

impl<'a> ChapterPages<'a> {
    #[verifier::type_invariant]
    spec fn in_range(self) -> bool {
        self.next <= self.items@.len()
    }

    /// The items of the book that the render has not come to yet.
    pub closed spec fn pending(&self) -> Seq<BookItemView> {
        refs_view(self.items@).skip(self.next as int)
    }

    /// Whether a chapter has failed to render.
    pub closed spec fn has_failed(&self) -> bool {
        self.failed
    }

    /// Starts on the pages of a book: with the engine that renders them, the
    /// context that all pages share and the book's title.
    pub fn new(
        engine: &'a handlebars::Handlebars<'static>,
        book: &'a Book,
        global_ctx: &'a JsonObject,
        title: Option<&'a String>,
    ) -> (pages: ChapterPages<'a>)
        ensures
            pages.pending() == reading_order(book@),
            !pages.has_failed(),
    {
        let items = book.iter();
        assert(refs_view(items@).skip(0) =~= refs_view(items@));
        ChapterPages { engine, global_ctx, items, title, next: 0, failed: false }
    }

    /// Makes the page of the next chapter.
    ///
    /// Separators are passed over. The answer is the page of the first
    /// chapter that is pending, or the failure to render it, and `None`
    /// where no chapter is pending or a chapter has failed before.
    pub fn next_page(&mut self) -> (step: Option<Result<RenderedPage, RenderFailure>>)
        ensures
            old(self).has_failed() ==> step.is_none() && final(self).has_failed() && final(self).pending() == old(self).pending(),
            !old(self).has_failed() ==> match first_chapter_index(old(self).pending()) {
                Some(k) => final(self).pending() == old(self).pending().skip(k + 1) && match step {
                    Some(Ok(page)) => !final(self).has_failed() && page.path@ == old(self).pending()[k]->Chapter_0.path,
                    Some(Err(failure)) => final(self).has_failed() && is_about(
                        failure,
                        old(self).pending()[k]->Chapter_0,
                    ),
                    None => false,
                },
                None => step.is_none() && !final(self).has_failed() && final(self).pending().len()
                    == 0,
            },
    {
        proof {
            use_type_invariant(&*self);
        }
        if self.failed {
            return None;
        }
        let ghost views = refs_view(self.items@);
        let ghost start = self.next as int;
        let ghost waiting = views.skip(start);
        while self.next < self.items.len()
            invariant
                0 <= start <= self.next <= self.items@.len(),
                views == refs_view(self.items@),
                waiting == views.skip(start),
                waiting == old(self).pending(),
                !old(self).has_failed(),
                !self.failed,
                forall|j: int| 0 <= j < self.next - start ==> (#[trigger] waiting[j]) is Separator,
            decreases self.items@.len() - self.next,
        {
            let item = self.items[self.next];
            let ghost here = self.next - start;
            proof {
                assert(waiting[here] == views[self.next as int]);
                assert(views[self.next as int] == (*item)@);
                lemma_first_chapter_index_skip(waiting, here);
                assert(waiting.skip(here)[0] == waiting[here]);
                assert(waiting.skip(here + 1) =~= views.skip(self.next + 1));
            }
            self.next = self.next + 1;
            match item {
                BookItem::Chapter(ch) => {
                    proof {
                        lemma_sub_items_view(*ch);
                    }
                    match HtmlRenderer.render_chapter(self.engine, ch, self.global_ctx, self.title) {
                        Ok(content) => {
                            return Some(Ok(RenderedPage { path: ch.path.clone(), content }));
                        },
                        Err(failure) => {
                            self.failed = true;
                            return Some(Err(failure));
                        },
                    }
                },
                BookItem::Separator => {},
            }
        }
        proof {
            lemma_first_chapter_index_skip(waiting, waiting.len() as int);
            assert(waiting.skip(waiting.len() as int) =~= Seq::<BookItemView>::empty());
        }
        None
    }
}

impl HtmlRenderer {
    /// The renderer's name.
    pub fn name(&self) -> (name: &'static str)
        ensures
            name@ == "HTML"@,
    {
        "HTML"
    }

    /// Renders a single chapter as HTML: the engine's template "index" on
    /// the chapter's context. The page is what the engine makes of it, so
    /// there is none where the engine holds no template "index". A failure
    /// names the chapter.
    pub fn render_chapter(
        &self,
        hbs: &handlebars::Handlebars<'static>,
        ch: &Chapter,
        global_ctx: &JsonObject,
        book_title: Option<&String>,
    ) -> (page: Result<String, RenderFailure>)
        ensures
            !template_names(*hbs).contains("index"@) ==> page is Err,
            page matches Err(failure) ==> is_about(failure, ch@),
    {
        let chapter_ctx = construct_chapter_context(ch, global_ctx, book_title);
        let outcome = render_template(hbs, "index", &chapter_ctx);
        rendered_chapter(ch, outcome)
    }

    /// Renders all the chapters of a book, in reading order.
    ///
    /// There is one page for each chapter, at the chapter's path, and none
    /// for a separator. The first chapter that fails to render ends the
    /// render, and no page is returned.
    pub fn render_chapters(
        &self,
        hbs: &handlebars::Handlebars<'static>,
        book: &Book,
        global_ctx: &JsonObject,
        title: Option<&String>,
    ) -> (outcome: Result<Vec<RenderedPage>, RenderFailure>)
        ensures
            match outcome {
                Ok(pages) => page_paths(pages@) == chapter_paths(chapters_of(book@)),
                Err(failure) => is_about_chapter_of(failure, book@),
            },
    {
        let mut session = ChapterPages::new(hbs, book, global_ctx, title);
        let ghost all = reading_order(book@);
        let ghost mut done: int = 0;
        let mut pages: Vec<RenderedPage> = Vec::new();
        assert(all.skip(0) =~= all);
        assert(page_paths(pages@) + chapter_paths(chapters_in(all)) =~= chapter_paths(
            chapters_in(all),
        ));
        loop
            invariant
                all == reading_order(book@),
                0 <= done <= all.len(),
                session.pending() == all.skip(done),
                !session.has_failed(),
                page_paths(pages@) + chapter_paths(chapters_in(session.pending()))
                    == chapter_paths(chapters_in(all)),
            decreases session.pending().len(),
        {
            let ghost waiting = session.pending();
            let ghost before = page_paths(pages@);
            proof {
                lemma_first_chapter_index(waiting);
                lemma_chapters_from_first(waiting);
            }
            match session.next_page() {
                Some(Ok(page)) => {
                    proof {
                        let k = first_chapter_index(waiting)->Some_0;
                        assert(waiting.skip(k + 1) =~= all.skip(done + k + 1));
                        done = done + k + 1;
                    }
                    pages.push(page);
                    proof {
                        let rest = chapter_paths(chapters_in(session.pending()));
                        assert(page_paths(pages@) =~= before.push(page.path@));
                        assert(chapter_paths(chapters_in(waiting)) =~= seq![page.path@] + rest);
                        assert(page_paths(pages@) + rest =~= before + chapter_paths(
                            chapters_in(waiting),
                        ));
                    }
                },
                Some(Err(failure)) => {
                    proof {
                        let k = first_chapter_index(waiting)->Some_0;
                        assert(waiting[k] == all[done + k]);
                        assert(reading_order(book@)[done + k] is Chapter);
                    }
                    return Err(failure);
                },
                None => {
                    proof {
                        assert(chapter_paths(chapters_in(waiting)) =~= Seq::<Seq<char>>::empty());
                        assert(page_paths(pages@) + chapter_paths(chapters_in(waiting))
                            =~= page_paths(pages@));
                    }
                    return Ok(pages);
                },
            }
        }
    }

    /// Prepares a render: reads the renderer's settings, builds the shared
    /// context and loads the theme's templates into an engine.
    ///
    /// Fails on a setting of the wrong kind, and then on a template that
    /// does not load.
    pub fn prepare(&self, ctx: &RenderContext) -> (outcome: Result<Prepared, Error>)
        ensures
            match outcome {
                Ok(prepared) => {
                    &&& configured(ctx.html_settings) matches Ok(cfg) && object_model(
                        prepared.global_ctx,
                    ) == global_context(ctx.config@.book, cfg, ctx.book@)
                    &&& load_failure(ctx.theme.index@, ctx.theme.header@).is_none()
                    &&& template_names(prepared.engine) == set!["index"@, "header"@]
                    &&& helper_names(prepared.engine).contains("toc"@)
                    &&& helper_names(prepared.engine).contains("previous"@)
                    &&& helper_names(prepared.engine).contains("next"@)
                },
                Err(Error::Config(e)) => configured(ctx.html_settings) == Err::<
                    HtmlConfigView,
                    Seq<char>,
                >(e.key@),
                Err(Error::TemplateLoad(e)) => configured(ctx.html_settings) is Ok && load_failure(
                    ctx.theme.index@,
                    ctx.theme.header@,
                ) == Some(fault_of(e)),
                Err(Error::Render(_)) => false,
            },
    {
        let cfg = match ctx.html_settings {
            Some(entries) => match HtmlConfig::from_settings(entries) {
                Ok(cfg) => cfg,
                Err(e) => {
                    return Err(Error::Config(e));
                },
            },
            None => HtmlConfig::default(),
        };

        let global_ctx = construct_global_context(ctx.config, &cfg, ctx.book);

        match load_handlebars_engine(ctx.theme, &cfg) {
            Ok(engine) => Ok(Prepared { engine, global_ctx }),
            Err(e) => Err(Error::TemplateLoad(e)),
        }
    }

    /// Renders a book: prepares the render and makes the page of every
    /// chapter.
    ///
    /// Fails on the first thing that goes wrong: a setting of the wrong
    /// kind, then a template that does not load, then a chapter that does
    /// not render.
    pub fn render(&self, ctx: &RenderContext) -> (outcome: Result<Vec<RenderedPage>, Error>)
        ensures
            match outcome {
                Ok(pages) => configured(ctx.html_settings) is Ok && load_failure(
                    ctx.theme.index@,
                    ctx.theme.header@,
                ).is_none() && page_paths(pages@) == chapter_paths(chapters_of(ctx.book@)),
                Err(Error::Config(e)) => configured(ctx.html_settings) == Err::<
                    HtmlConfigView,
                    Seq<char>,
                >(e.key@),
                Err(Error::TemplateLoad(e)) => configured(ctx.html_settings) is Ok && load_failure(
                    ctx.theme.index@,
                    ctx.theme.header@,
                ) == Some(fault_of(e)),
                Err(Error::Render(failure)) => configured(ctx.html_settings) is Ok && load_failure(
                    ctx.theme.index@,
                    ctx.theme.header@,
                ).is_none() && is_about_chapter_of(failure, ctx.book@),
            },
    {
        let prepared = match self.prepare(ctx) {
            Ok(prepared) => prepared,
            Err(e) => {
                return Err(e);
            },
        };
        match self.render_chapters(
            &prepared.engine,
            ctx.book,
            &prepared.global_ctx,
            ctx.config.book.title.as_ref(),
        ) {
            Ok(pages) => Ok(pages),
            Err(failure) => Err(Error::Render(failure)),
        }
    }
}

/// Items that are all chapters have a page each, in the items' order.
pub proof fn lemma_chapters_without_separators(items: Seq<BookItemView>)
    requires
        forall|i: int| 0 <= i < items.len() ==> #[trigger] items[i] is Chapter,
    ensures
        chapters_in(items).len() == items.len(),
        forall|i: int|
            0 <= i < items.len() ==> BookItemView::Chapter(#[trigger] chapters_in(items)[i])
                == items[i],
    decreases items.len(),
{
    if items.len() > 0 {
        lemma_chapters_without_separators(items.drop_last());
    }
}

/// Separators have no page: items that are all separators hold no chapter.
pub proof fn lemma_chapters_only_separators(items: Seq<BookItemView>)
    requires
        forall|i: int| 0 <= i < items.len() ==> #[trigger] items[i] is Separator,
    ensures
        chapters_in(items).len() == 0,
    decreases items.len(),
{
    if items.len() > 0 {
        lemma_chapters_only_separators(items.drop_last());
    }
}

/// A book of separators alone has no page.
pub proof fn lemma_book_of_separators(book: Seq<BookItemView>)
    requires
        forall|i: int| 0 <= i < book.len() ==> #[trigger] book[i] is Separator,
    ensures
        reading_order(book) == book,
        chapters_of(book).len() == 0,
    decreases book.len(),
{
    if book.len() > 0 {
        lemma_book_of_separators(book.drop_last());
        assert(book.last() is Separator);
        assert(reading_order_of(book.last()) == seq![book.last()]);
        assert(reading_order(book) == reading_order(book.drop_last()) + reading_order_of(
            book.last(),
        ));
        assert(reading_order(book) =~= book);
    } else {
        assert(reading_order(book) =~= book);
    }
    lemma_chapters_only_separators(book);
}

/// A book without any separator has one page for each of its items, at the
/// item's path.
pub proof fn lemma_book_without_separators(book: Seq<BookItemView>)
    requires
        forall|i: int|
            0 <= i < reading_order(book).len() ==> (#[trigger] reading_order(book)[i]) is Chapter,
    ensures
        chapters_of(book).len() == reading_order(book).len(),
        forall|i: int|
            0 <= i < reading_order(book).len() ==> (#[trigger] chapter_paths(chapters_of(book))[i])
                == reading_order(book)[i]->Chapter_0.path,
{
    lemma_chapters_without_separators(reading_order(book));
    assert forall|i: int| 0 <= i < reading_order(book).len() implies (#[trigger] chapter_paths(
        chapters_of(book),
    )[i]) == reading_order(book)[i]->Chapter_0.path by {
        assert(BookItemView::Chapter(chapters_in(reading_order(book))[i]) == reading_order(
            book,
        )[i]);
    }
}

/// Whether the item at an index is the given chapter.
pub open spec fn is_chapter_at(items: Seq<BookItemView>, i: int, chapter: ChapterView) -> bool {
    0 <= i < items.len() && items[i] == BookItemView::Chapter(chapter)
}

/// Whether a chapter is one of the items.
pub open spec fn has_chapter(items: Seq<BookItemView>, chapter: ChapterView) -> bool {
    exists|i: int| #[trigger] is_chapter_at(items, i, chapter)
}

/// Whether two chapters are among the items, the first before the second.
pub open spec fn in_order(items: Seq<BookItemView>, first: ChapterView, second: ChapterView) -> bool {
    exists|i: int, j: int|
        i < j && #[trigger] is_chapter_at(items, i, first) && #[trigger] is_chapter_at(
            items,
            j,
            second,
        )
}

/// The chapters among some items are items, and stand in the items' order.
pub proof fn lemma_chapters_in_place(items: Seq<BookItemView>)
    ensures
        forall|a: int|
            0 <= a < chapters_in(items).len() ==> has_chapter(
                items,
                #[trigger] chapters_in(items)[a],
            ),
        forall|a: int, b: int|
            0 <= a < b < chapters_in(items).len() ==> in_order(
                items,
                #[trigger] chapters_in(items)[a],
                #[trigger] chapters_in(items)[b],
            ),
    decreases items.len(),
{
    if items.len() > 0 {
        let before = items.drop_last();
        let last = items.len() - 1;
        lemma_chapters_in_place(before);
        assert forall|a: int| 0 <= a < chapters_in(items).len() implies has_chapter(
            items,
            #[trigger] chapters_in(items)[a],
        ) by {
            if a < chapters_in(before).len() {
                assert(has_chapter(before, chapters_in(before)[a]));
                let i = choose|i: int| #[trigger]
                    is_chapter_at(before, i, chapters_in(before)[a]);
                assert(is_chapter_at(items, i, chapters_in(items)[a]));
            } else {
                assert(is_chapter_at(items, last, chapters_in(items)[a]));
            }
        }
        assert forall|a: int, b: int| 0 <= a < b < chapters_in(items).len() implies in_order(
            items,
            #[trigger] chapters_in(items)[a],
            #[trigger] chapters_in(items)[b],
        ) by {
            if b < chapters_in(before).len() {
                assert(in_order(before, chapters_in(before)[a], chapters_in(before)[b]));
                let (i, j) = choose|i: int, j: int|
                    i < j && #[trigger] is_chapter_at(before, i, chapters_in(before)[a])
                        && #[trigger] is_chapter_at(before, j, chapters_in(before)[b]);
                assert(is_chapter_at(items, i, chapters_in(items)[a]));
                assert(is_chapter_at(items, j, chapters_in(items)[b]));
            } else {
                assert(has_chapter(before, chapters_in(before)[a]));
                let i = choose|i: int| #[trigger]
                    is_chapter_at(before, i, chapters_in(before)[a]);
                assert(is_chapter_at(items, i, chapters_in(items)[a]));
                assert(is_chapter_at(items, last, chapters_in(items)[b]));
            }
        }
    }
}

/// Where the chapters of a book all have different paths, no two pages go to
/// the same place.
pub proof fn lemma_pages_apart(book: Seq<BookItemView>)
    requires
        has_distinct_paths(book),
    ensures
        forall|a: int, b: int|
            0 <= a < b < chapters_of(book).len() ==> (#[trigger] chapter_paths(chapters_of(book))[a])
                != (#[trigger] chapter_paths(chapters_of(book))[b]),
{
    let items = reading_order(book);
    lemma_chapters_in_place(items);
    assert forall|a: int, b: int| 0 <= a < b < chapters_of(book).len() implies (
    #[trigger] chapter_paths(chapters_of(book))[a]) != (#[trigger] chapter_paths(
        chapters_of(book),
    )[b]) by {
        assert(in_order(items, chapters_in(items)[a], chapters_in(items)[b]));
        let (i, j) = choose|i: int, j: int|
            i < j && #[trigger] is_chapter_at(items, i, chapters_in(items)[a])
                && #[trigger] is_chapter_at(items, j, chapters_in(items)[b]);
        assert(items[i] is Chapter && items[j] is Chapter);
    }
}

/// The chapters among items in two parts are those of the first part
/// followed by those of the second.
pub proof fn lemma_chapters_in_concat(a: Seq<BookItemView>, b: Seq<BookItemView>)
    ensures
        chapters_in(a + b) == chapters_in(a) + chapters_in(b),
    decreases b.len(),
{
    if b.len() == 0 {
        assert(a + b =~= a);
        assert(chapters_in(a) + chapters_in(b) =~= chapters_in(a));
    } else {
        lemma_chapters_in_concat(a, b.drop_last());
        assert((a + b).drop_last() =~= a + b.drop_last());
        assert((a + b).last() == b.last());
        assert(chapters_in(a + b) =~= chapters_in(a) + chapters_in(b));
    }
}

/// The first chapter among some items is a chapter, and only separators
/// stand before it; where there is none, all items are separators.
pub proof fn lemma_first_chapter_index(items: Seq<BookItemView>)
    ensures
        match first_chapter_index(items) {
            Some(k) => 0 <= k < items.len() && items[k] is Chapter && forall|j: int|
                0 <= j < k ==> (#[trigger] items[j]) is Separator,
            None => forall|j: int| 0 <= j < items.len() ==> (#[trigger] items[j]) is Separator,
        },
    decreases items.len(),
{
    if items.len() > 0 && !(items[0] is Chapter) {
        lemma_first_chapter_index(items.drop_first());
        match first_chapter_index(items.drop_first()) {
            Some(i) => {
                assert(items[i + 1] == items.drop_first()[i]);
                assert forall|j: int| 0 <= j < i + 1 implies (#[trigger] items[j]) is Separator by {
                    if j > 0 {
                        assert(items[j] == items.drop_first()[j - 1]);
                    }
                }
            },
            None => {
                assert forall|j: int| 0 <= j < items.len() implies (
                #[trigger] items[j]) is Separator by {
                    if j > 0 {
                        assert(items[j] == items.drop_first()[j - 1]);
                    }
                }
            },
        }
    }
}

/// The chapters among some items are the first chapter and the chapters
/// among the items after it.
pub proof fn lemma_chapters_from_first(items: Seq<BookItemView>)
    ensures
        match first_chapter_index(items) {
            Some(k) => chapters_in(items) == seq![items[k]->Chapter_0] + chapters_in(
                items.skip(k + 1),
            ),
            None => chapters_in(items).len() == 0,
        },
{
    lemma_first_chapter_index(items);
    match first_chapter_index(items) {
        Some(k) => {
            let head = items.take(k);
            let one = seq![items[k]];
            let tail = items.skip(k + 1);
            assert(items =~= head + one + tail);
            lemma_chapters_in_concat(head + one, tail);
            lemma_chapters_in_concat(head, one);
            lemma_chapters_only_separators(head);
            assert(one.drop_last() =~= Seq::<BookItemView>::empty());
            assert(chapters_in(Seq::<BookItemView>::empty()) =~= Seq::<ChapterView>::empty());
            assert(chapters_in(one) =~= seq![items[k]->Chapter_0]);
            assert(chapters_in(head) =~= Seq::<ChapterView>::empty());
            assert(chapters_in(items) =~= seq![items[k]->Chapter_0] + chapters_in(tail));
        },
        None => {
            lemma_chapters_only_separators(items);
        },
    }
}

} // verus!
