//! The links from a page to the chapters before and after it.
//!
//! Before and after are meant in the order of the table of contents. A
//! spacer is passed over: it is never where a link leads.

use vstd::prelude::*;
use crate::book::{BookItemView, has_distinct_paths, reading_order};
use crate::helpers::{PageData, incomplete_data, page_data};
use crate::json::value_model;
use crate::text::{escaped, push_escaped};
use crate::toc::{TocEntry, TocEntryView, entries_view, toc};

verus! {

/// Whether an entry is the chapter whose page is at `path`.
pub open spec fn is_page(entry: TocEntryView, path: Seq<char>) -> bool {
    entry matches TocEntryView::Chapter { path: p, .. } && p == path
}

/// Where the page at `path` stands in the table of contents: the index of
/// the first entry that is its chapter.
pub open spec fn position(entries: Seq<TocEntryView>, path: Seq<char>) -> Option<int>
    decreases entries.len(),
{
    if entries.len() == 0 {
        None
    } else if is_page(entries[0], path) {
        Some(0)
    } else {
        match position(entries.drop_first(), path) {
            Some(i) => Some(i + 1),
            None => None,
        }
    }
}

/// The last chapter among some entries.
pub open spec fn last_chapter(entries: Seq<TocEntryView>) -> Option<TocEntryView>
    decreases entries.len(),
{
    if entries.len() == 0 {
        None
    } else if entries.last() is Chapter {
        Some(entries.last())
    } else {
        last_chapter(entries.drop_last())
    }
}

/// The first chapter among some entries.
pub open spec fn first_chapter(entries: Seq<TocEntryView>) -> Option<TocEntryView>
    decreases entries.len(),
{
    if entries.len() == 0 {
        None
    } else if entries[0] is Chapter {
        Some(entries[0])
    } else {
        first_chapter(entries.drop_first())
    }
}

/// The chapter before the page at `path`: the last chapter among the entries
/// before the page's own. None where the page is not in the table, or is
/// its first chapter.
pub open spec fn previous_entry(entries: Seq<TocEntryView>, path: Seq<char>) -> Option<
    TocEntryView,
> {
    match position(entries, path) {
        Some(i) => last_chapter(entries.take(i)),
        None => None,
    }
}

/// The chapter after the page at `path`: the first chapter among the entries
/// after the page's own. None where the page is not in the table, or is its
/// last chapter.
pub open spec fn next_entry(entries: Seq<TocEntryView>, path: Seq<char>) -> Option<TocEntryView> {
    match position(entries, path) {
        Some(i) => first_chapter(entries.skip(i + 1)),
        None => None,
    }
}

/// A link to a chapter's page, with the chapter's name as its text; nothing
/// where there is no chapter to lead to.
pub open spec fn link_markup(rel: Seq<char>, target: Option<TocEntryView>, to_root: Seq<char>) -> Seq<
    char,
> {
    match target {
        Some(TocEntryView::Chapter { name, path, .. }) => "<a rel=\""@ + rel + "\" href=\""@
            + escaped(to_root) + escaped(path) + "\">"@ + escaped(name) + "</a>"@,
        _ => Seq::empty(),
    }
}

/// The position of a page is past the entries that are not its chapter.
proof fn lemma_position_skip(entries: Seq<TocEntryView>, path: Seq<char>, n: int)
    requires
        0 <= n <= entries.len(),
        forall|j: int| 0 <= j < n ==> !is_page(#[trigger] entries[j], path),
    ensures
        position(entries, path) == match position(entries.skip(n), path) {
            Some(i) => Some(i + n),
            None => None,
        },
    decreases n,
{
    if n == 0 {
        assert(entries.skip(0) =~= entries);
    } else {
        assert(!is_page(entries[0], path));
        assert forall|j: int| 0 <= j < n - 1 implies !is_page(
            #[trigger] entries.drop_first()[j],
            path,
        ) by {
            assert(entries.drop_first()[j] == entries[j + 1]);
        }
        lemma_position_skip(entries.drop_first(), path, n - 1);
        assert(entries.drop_first().skip(n - 1) =~= entries.skip(n));
    }
}

/// Finds where the page at `path` stands in the table of contents.
pub fn find_position(entries: &Vec<TocEntry>, path: &String) -> (found: Option<usize>)
    ensures
        match found {
            Some(i) => position(entries_view(entries@), path@) == Some(i as int) && i
                < entries.len(),
            None => position(entries_view(entries@), path@).is_none(),
        },
{
    let ghost views = entries_view(entries@);
    let mut i: usize = 0;
    while i < entries.len()
        invariant
            i <= entries.len(),
            views == entries_view(entries@),
            forall|j: int| 0 <= j < i ==> !is_page(#[trigger] views[j], path@),
        decreases entries.len() - i,
    {
        let here = match &entries[i] {
            TocEntry::Chapter { path: p, .. } => *p == *path,
            TocEntry::Spacer => false,
        };
        assert(here == is_page(views[i as int], path@));
        if here {
            proof {
                lemma_position_skip(views, path@, i as int);
                assert(views.skip(i as int)[0] == views[i as int]);
            }
            return Some(i);
        }
        i += 1;
    }
    proof {
        lemma_position_skip(views, path@, entries.len() as int);
    }
    None
}

/// Finds the chapter before the page at `path`.
pub fn previous_chapter<'a>(entries: &'a Vec<TocEntry>, path: &String) -> (found: Option<
    &'a TocEntry,
>)
    ensures
        match found {
            Some(entry) => previous_entry(entries_view(entries@), path@) == Some(entry@),
            None => previous_entry(entries_view(entries@), path@).is_none(),
        },
{
    let ghost views = entries_view(entries@);
    let here = match find_position(entries, path) {
        Some(i) => i,
        None => {
            return None;
        },
    };
    let mut j: usize = here;
    while j > 0
        invariant
            j <= here,
            here < entries.len(),
            views == entries_view(entries@),
            position(views, path@) == Some(here as int),
            last_chapter(views.take(here as int)) == last_chapter(views.take(j as int)),
        decreases j,
    {
        proof {
            assert(views.take(j as int).drop_last() =~= views.take(j - 1));
            assert(views.take(j as int).last() == views[j - 1]);
        }
        j -= 1;
        assert(views[j as int] == entries[j as int]@);
        match &entries[j] {
            TocEntry::Chapter { .. } => {
                return Some(&entries[j]);
            },
            TocEntry::Spacer => {},
        }
    }
    None
}

/// Finds the chapter after the page at `path`.
pub fn next_chapter<'a>(entries: &'a Vec<TocEntry>, path: &String) -> (found: Option<&'a TocEntry>)
    ensures
        match found {
            Some(entry) => next_entry(entries_view(entries@), path@) == Some(entry@),
            None => next_entry(entries_view(entries@), path@).is_none(),
        },
{
    let ghost views = entries_view(entries@);
    let here = match find_position(entries, path) {
        Some(i) => i,
        None => {
            return None;
        },
    };
    let mut k: usize = here + 1;
    while k < entries.len()
        invariant
            here < k <= entries.len(),
            views == entries_view(entries@),
            position(views, path@) == Some(here as int),
            first_chapter(views.skip(here + 1)) == first_chapter(views.skip(k as int)),
        decreases entries.len() - k,
    {
        proof {
            assert(views.skip(k as int).drop_first() =~= views.skip(k + 1));
            assert(views.skip(k as int)[0] == views[k as int]);
            assert(views[k as int] == entries[k as int]@);
        }
        match &entries[k] {
            TocEntry::Chapter { .. } => {
                return Some(&entries[k]);
            },
            TocEntry::Spacer => {},
        }
        k += 1;
    }
    None
}

fn render_link(rel: &str, target: Option<&TocEntry>, to_root: &String) -> (markup: String)
    ensures
        markup@ == link_markup(
            rel@,
            match target {
                Some(entry) => Some(entry@),
                None => None,
            },
            to_root@,
        ),
{
    let mut out = String::new();
    match target {
        Some(TocEntry::Chapter { name, path, .. }) => {
            out.append("<a rel=\"");
            out.append(rel);
            out.append("\" href=\"");
            push_escaped(&mut out, to_root.as_str());
            push_escaped(&mut out, path.as_str());
            out.append("\">");
            push_escaped(&mut out, name.as_str());
            out.append("</a>");
            assert(out@ =~= "<a rel=\""@ + rel@ + "\" href=\""@ + escaped(to_root@) + escaped(
                path@,
            ) + "\">"@ + escaped(name@) + "</a>"@);
        },
        _ => {},
    }
    out
}

/// The link to the chapter before the page whose data is given; nothing for
/// the first chapter. Fails where the data lacks what the helper reads.
pub fn previous(data: &serde_json::Value) -> (outcome: Result<String, String>)
    ensures
        match page_data(value_model(*data)) {
            Some(page) => outcome matches Ok(markup) && markup@ == link_markup(
                "prev"@,
                previous_entry(page.entries, page.path),
                page.path_to_root,
            ),
            None => outcome matches Err(message) && message@ == incomplete_data(),
        },
{
    match PageData::read(data) {
        Ok(page) => Ok(
            render_link("prev", previous_chapter(&page.entries, &page.path), &page.path_to_root),
        ),
        Err(message) => Err(message),
    }
}

/// The link to the chapter after the page whose data is given; nothing for
/// the last chapter. Fails where the data lacks what the helper reads.
pub fn next(data: &serde_json::Value) -> (outcome: Result<String, String>)
    ensures
        match page_data(value_model(*data)) {
            Some(page) => outcome matches Ok(markup) && markup@ == link_markup(
                "next"@,
                next_entry(page.entries, page.path),
                page.path_to_root,
            ),
            None => outcome matches Err(message) && message@ == incomplete_data(),
        },
{
    match PageData::read(data) {
        Ok(page) => Ok(
            render_link("next", next_chapter(&page.entries, &page.path), &page.path_to_root),
        ),
        Err(message) => Err(message),
    }
}

/// The position of a page is the index of its chapter's entry, and no
/// earlier entry is that chapter.
pub proof fn lemma_position(entries: Seq<TocEntryView>, path: Seq<char>)
    ensures
        match position(entries, path) {
            Some(i) => 0 <= i < entries.len() && is_page(entries[i], path) && forall|j: int|
                0 <= j < i ==> !is_page(#[trigger] entries[j], path),
            None => forall|j: int| 0 <= j < entries.len() ==> !is_page(#[trigger] entries[j], path),
        },
    decreases entries.len(),
{
    if entries.len() > 0 && !is_page(entries[0], path) {
        lemma_position(entries.drop_first(), path);
        match position(entries.drop_first(), path) {
            Some(i) => {
                assert forall|j: int| 0 <= j < i + 1 implies !is_page(
                    #[trigger] entries[j],
                    path,
                ) by {
                    if j > 0 {
                        assert(entries[j] == entries.drop_first()[j - 1]);
                    }
                }
            },
            None => {
                assert forall|j: int| 0 <= j < entries.len() implies !is_page(
                    #[trigger] entries[j],
                    path,
                ) by {
                    if j > 0 {
                        assert(entries[j] == entries.drop_first()[j - 1]);
                    }
                }
            },
        }
    }
}

/// The last chapter among some entries is a chapter, it is one of the
/// entries, and only spacers come after it.
pub proof fn lemma_last_chapter(entries: Seq<TocEntryView>)
    ensures
        match last_chapter(entries) {
            Some(entry) => entry is Chapter && exists|i: int|
                0 <= i < entries.len() && entries[i] == entry && forall|j: int|
                    i < j < entries.len() ==> (#[trigger] entries[j]) is Spacer,
            None => forall|j: int| 0 <= j < entries.len() ==> (#[trigger] entries[j]) is Spacer,
        },
    decreases entries.len(),
{
    if entries.len() > 0 {
        if entries.last() is Chapter {
            let i = entries.len() - 1;
            assert(entries[i] == entries.last());
        } else {
            lemma_last_chapter(entries.drop_last());
            match last_chapter(entries.drop_last()) {
                Some(entry) => {
                    let i = choose|i: int|
                        0 <= i < entries.drop_last().len() && entries.drop_last()[i] == entry
                            && forall|j: int|
                            i < j < entries.drop_last().len() ==> (
                            #[trigger] entries.drop_last()[j]) is Spacer;
                    assert(entries[i] == entry);
                    assert forall|j: int| i < j < entries.len() implies (
                    #[trigger] entries[j]) is Spacer by {
                        if j < entries.len() - 1 {
                            assert(entries[j] == entries.drop_last()[j]);
                        }
                    }
                },
                None => {
                    assert forall|j: int| 0 <= j < entries.len() implies (
                    #[trigger] entries[j]) is Spacer by {
                        if j < entries.len() - 1 {
                            assert(entries[j] == entries.drop_last()[j]);
                        }
                    }
                },
            }
        }
    }
}

/// The first chapter among some entries is a chapter, it is one of the
/// entries, and only spacers come before it.
pub proof fn lemma_first_chapter(entries: Seq<TocEntryView>)
    ensures
        match first_chapter(entries) {
            Some(entry) => entry is Chapter && exists|i: int|
                0 <= i < entries.len() && entries[i] == entry && forall|j: int|
                    0 <= j < i ==> (#[trigger] entries[j]) is Spacer,
            None => forall|j: int| 0 <= j < entries.len() ==> (#[trigger] entries[j]) is Spacer,
        },
    decreases entries.len(),
{
    if entries.len() > 0 {
        if entries[0] is Chapter {
            assert(entries[0] == entries[0]);
        } else {
            lemma_first_chapter(entries.drop_first());
            match first_chapter(entries.drop_first()) {
                Some(entry) => {
                    let i = choose|i: int|
                        0 <= i < entries.drop_first().len() && entries.drop_first()[i] == entry
                            && forall|j: int|
                            0 <= j < i ==> (#[trigger] entries.drop_first()[j]) is Spacer;
                    assert(entries[i + 1] == entry);
                    assert forall|j: int| 0 <= j < i + 1 implies (
                    #[trigger] entries[j]) is Spacer by {
                        if j > 0 {
                            assert(entries[j] == entries.drop_first()[j - 1]);
                        }
                    }
                },
                None => {
                    assert forall|j: int| 0 <= j < entries.len() implies (
                    #[trigger] entries[j]) is Spacer by {
                        if j > 0 {
                            assert(entries[j] == entries.drop_first()[j - 1]);
                        }
                    }
                },
            }
        }
    }
}

/// A link never leads to a spacer: the chapter before a page and the chapter
/// after it are chapters.
pub proof fn lemma_neighbours_are_chapters(entries: Seq<TocEntryView>, path: Seq<char>)
    ensures
        previous_entry(entries, path) matches Some(entry) ==> entry is Chapter,
        next_entry(entries, path) matches Some(entry) ==> entry is Chapter,
{
    lemma_position(entries, path);
    match position(entries, path) {
        Some(i) => {
            lemma_last_chapter(entries.take(i));
            lemma_first_chapter(entries.skip(i + 1));
        },
        None => {},
    }
}

/// In the table of contents of a book whose chapters all have different
/// paths, a chapter's page stands where the chapter stands in reading order.
pub proof fn lemma_position_in_toc(book: Seq<BookItemView>, k: int)
    requires
        has_distinct_paths(book),
        0 <= k < reading_order(book).len(),
        reading_order(book)[k] is Chapter,
    ensures
        position(toc(book), reading_order(book)[k]->Chapter_0.path) == Some(k),
{
    let path = reading_order(book)[k]->Chapter_0.path;
    lemma_position(toc(book), path);
    assert(is_page(toc(book)[k], path));
    match position(toc(book), path) {
        Some(p) => {
            if p < k {
                assert(is_page(toc(book)[p], path));
                assert(reading_order(book)[p] is Chapter);
            }
        },
        None => {},
    }
}

} // verus!
