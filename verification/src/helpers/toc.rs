//! The table of contents as markup: a list of links, nested as the sections
//! are.

use vstd::prelude::*;
use crate::helpers::{PageData, incomplete_data, page_data};
use crate::json::value_model;
use crate::text::{decimal, escaped, push_escaped, section_label};
use crate::toc::{TocEntry, TocEntryView, entries_view};

verus! {

/// The helper that writes the table of contents.
#[derive(Debug, Clone, Copy, PartialEq, Eq)]
pub struct RenderToc {
    /// Leave the section labels out.
    pub no_section_label: bool,
}

/// How many dots a text has.
pub open spec fn dots(text: Seq<char>) -> nat
    decreases text.len(),
{
    if text.len() == 0 {
        0
    } else {
        dots(text.drop_last()) + if text.last() == '.' {
            1nat
        } else {
            0nat
        }
    }
}

/// How deep an entry is nested: a chapter with the label "1.2." is at level
/// 2. A chapter without a label, as any entry whose label has no dot, is at
/// level 1.
pub open spec fn level_of(entry: TocEntryView) -> nat {
    match entry {
        TocEntryView::Chapter { section: Some(label), .. } => if dots(label) > 1 {
            dots(label)
        } else {
            1
        },
        _ => 1,
    }
}

/// The level at which the list stands after some entries: that of the last
/// chapter among them, 1 where there is none.
pub open spec fn level_after(entries: Seq<TocEntryView>) -> nat
    decreases entries.len(),
{
    if entries.len() == 0 {
        1
    } else if entries.last() is Spacer {
        level_after(entries.drop_last())
    } else {
        level_of(entries.last())
    }
}

/// A text written `n` times.
pub open spec fn repeated(unit: Seq<char>, n: nat) -> Seq<char>
    decreases n,
{
    if n == 0 {
        Seq::empty()
    } else {
        repeated(unit, (n - 1) as nat) + unit
    }
}

/// The markup that takes the list from one level to another: a nested list
/// is opened for each level down, and closed for each level up.
pub open spec fn level_shift(from: nat, to: nat) -> Seq<char> {
    if to > from {
        repeated("<li><ul class=\"section\">"@, (to - from) as nat)
    } else {
        repeated("</ul></li>"@, (from - to) as nat)
    }
}

/// The label of an entry as markup: nothing where labels are left out or the
/// entry has none.
pub open spec fn label_markup(section: Option<Seq<char>>, no_section_label: bool) -> Seq<char> {
    match section {
        Some(label) => if no_section_label {
            Seq::empty()
        } else {
            "<strong aria-hidden=\"true\">"@ + escaped(label) + "</strong> "@
        },
        None => Seq::empty(),
    }
}

/// An entry as a list item: a link to the chapter's page, marked as active
/// where it is the page being rendered, or an empty item for a spacer.
pub open spec fn entry_markup(
    entry: TocEntryView,
    current: Seq<char>,
    to_root: Seq<char>,
    no_section_label: bool,
) -> Seq<char> {
    match entry {
        TocEntryView::Spacer => "<li class=\"spacer\"></li>"@,
        TocEntryView::Chapter { name, path, section } => "<li><a href=\""@ + escaped(to_root)
            + escaped(path) + "\""@ + (if path == current {
            " class=\"active\""@
        } else {
            ""@
        }) + ">"@ + label_markup(section, no_section_label) + escaped(name) + "</a></li>"@,
    }
}

/// The items of the list, in the order of the entries. Before a chapter the
/// list is taken to the chapter's level; a spacer stands at the level at
/// which the list is.
pub open spec fn toc_items(
    entries: Seq<TocEntryView>,
    current: Seq<char>,
    to_root: Seq<char>,
    no_section_label: bool,
) -> Seq<char>
    decreases entries.len(),
{
    if entries.len() == 0 {
        Seq::empty()
    } else {
        toc_items(entries.drop_last(), current, to_root, no_section_label) + (if entries.last() is Spacer {
            Seq::empty()
        } else {
            level_shift(level_after(entries.drop_last()), level_of(entries.last()))
        }) + entry_markup(entries.last(), current, to_root, no_section_label)
    }
}

/// The table of contents as markup: the list of all entries, with every
/// nested list closed at the end.
pub open spec fn toc_markup(
    entries: Seq<TocEntryView>,
    current: Seq<char>,
    to_root: Seq<char>,
    no_section_label: bool,
) -> Seq<char> {
    "<ul class=\"chapter\">"@ + toc_items(entries, current, to_root, no_section_label)
        + level_shift(level_after(entries), 1) + "</ul>"@
}

fn count_dots(text: &str) -> (n: usize)
    ensures
        n == dots(text@),
{
    let len = text.unicode_len();
    let mut n: usize = 0;
    assert(text@.take(0) =~= Seq::<char>::empty());
    for c in it: text.chars()
        invariant
            it.seq() == text@,
            len == text@.len(),
            n <= it.index(),
            n == dots(text@.take(it.index() as int)),
    {
        proof {
            assert(text@.take(it.index() + 1).drop_last() =~= text@.take(it.index() as int));
            assert(text@.take(it.index() + 1).last() == c);
        }
        if c == '.' {
            n += 1;
        }
    }
    assert(text@.take(len as int) =~= text@);
    n
}

fn entry_level(entry: &TocEntry) -> (level: usize)
    ensures
        level == level_of(entry@),
{
    match entry {
        TocEntry::Chapter { section: Some(label), .. } => {
            let n = count_dots(label.as_str());
            if n > 1 {
                n
            } else {
                1
            }
        },
        _ => 1,
    }
}

fn push_repeated(out: &mut String, unit: &str, n: usize)
    ensures
        final(out)@ == old(out)@ + repeated(unit@, n as nat),
{
    let ghost start = out@;
    let mut i: usize = 0;
    assert(start + repeated(unit@, 0) =~= start);
    while i < n
        invariant
            i <= n,
            out@ == start + repeated(unit@, i as nat),
        decreases n - i,
    {
        out.append(unit);
        i += 1;
        assert(out@ =~= start + repeated(unit@, i as nat));
    }
}

fn push_level_shift(out: &mut String, from: usize, to: usize)
    ensures
        final(out)@ == old(out)@ + level_shift(from as nat, to as nat),
{
    if to > from {
        push_repeated(out, "<li><ul class=\"section\">", to - from);
    } else {
        push_repeated(out, "</ul></li>", from - to);
    }
}

fn label_string(section: &Option<String>, no_section_label: bool) -> (markup: String)
    ensures
        markup@ == label_markup(crate::text::text_view(*section), no_section_label),
{
    match section {
        Some(label) => {
            if no_section_label {
                String::new()
            } else {
                let mut markup = String::from_str("<strong aria-hidden=\"true\">");
                push_escaped(&mut markup, label.as_str());
                markup.append("</strong> ");
                markup
            }
        },
        None => String::new(),
    }
}

fn entry_string(entry: &TocEntry, current: &String, to_root: &String, no_section_label: bool) -> (markup:
    String)
    ensures
        markup@ == entry_markup(entry@, current@, to_root@, no_section_label),
{
    match entry {
        TocEntry::Spacer => String::from_str("<li class=\"spacer\"></li>"),
        TocEntry::Chapter { name, path, section } => {
            let mut markup = String::from_str("<li><a href=\"");
            push_escaped(&mut markup, to_root.as_str());
            push_escaped(&mut markup, path.as_str());
            markup.append("\"");
            markup.append(
                if *path == *current {
                    " class=\"active\""
                } else {
                    ""
                },
            );
            markup.append(">");
            let label = label_string(section, no_section_label);
            markup.append(label.as_str());
            push_escaped(&mut markup, name.as_str());
            markup.append("</a></li>");
            markup
        },
    }
}

/// Writes a table of contents as markup.
pub fn render_toc(
    entries: &Vec<TocEntry>,
    current: &String,
    to_root: &String,
    no_section_label: bool,
) -> (markup: String)
    ensures
        markup@ == toc_markup(entries_view(entries@), current@, to_root@, no_section_label),
{
    let ghost views = entries_view(entries@);
    let mut out = String::from_str("<ul class=\"chapter\">");
    let mut level: usize = 1;
    let mut i: usize = 0;
    assert(views.take(0) =~= Seq::<TocEntryView>::empty());
    assert(out@ =~= "<ul class=\"chapter\">"@ + toc_items(
        views.take(0),
        current@,
        to_root@,
        no_section_label,
    ));
    while i < entries.len()
        invariant
            i <= entries.len(),
            views == entries_view(entries@),
            level == level_after(views.take(i as int)),
            out@ == "<ul class=\"chapter\">"@ + toc_items(
                views.take(i as int),
                current@,
                to_root@,
                no_section_label,
            ),
        decreases entries.len() - i,
    {
        let entry = &entries[i];
        proof {
            assert(views.take(i + 1).drop_last() =~= views.take(i as int));
            assert(views.take(i + 1).last() == entry@);
        }
        match entry {
            TocEntry::Spacer => {},
            TocEntry::Chapter { .. } => {
                let to = entry_level(entry);
                push_level_shift(&mut out, level, to);
                level = to;
            },
        }
        let item = entry_string(entry, current, to_root, no_section_label);
        out.append(item.as_str());
        assert(out@ =~= "<ul class=\"chapter\">"@ + toc_items(
            views.take(i + 1),
            current@,
            to_root@,
            no_section_label,
        ));
        i += 1;
    }
    assert(views.take(entries.len() as int) =~= views);
    push_level_shift(&mut out, level, 1);
    out.append("</ul>");
    out
}

impl RenderToc {
    /// The table of contents of the page whose data is given, as markup.
    /// Fails where the data lacks what the helper reads.
    pub fn render(&self, data: &serde_json::Value) -> (outcome: Result<String, String>)
        ensures
            match page_data(value_model(*data)) {
                Some(page) => outcome matches Ok(markup) && markup@ == toc_markup(
                    page.entries,
                    page.path,
                    page.path_to_root,
                    self.no_section_label,
                ),
                None => outcome matches Err(message) && message@ == incomplete_data(),
            },
    {
        match PageData::read(data) {
            Ok(page) => Ok(
                render_toc(&page.entries, &page.path, &page.path_to_root, self.no_section_label),
            ),
            Err(message) => Err(message),
        }
    }
}

/// The dots of a text in two parts are those of the parts.
pub proof fn lemma_dots_concat(a: Seq<char>, b: Seq<char>)
    ensures
        dots(a + b) == dots(a) + dots(b),
    decreases b.len(),
{
    if b.len() == 0 {
        assert(a + b =~= a);
    } else {
        lemma_dots_concat(a, b.drop_last());
        assert((a + b).drop_last() =~= a + b.drop_last());
    }
}

/// A number in decimal has no dot.
pub proof fn lemma_decimal_has_no_dot(n: nat)
    ensures
        dots(decimal(n)) == 0,
    decreases n,
{
    assert(dots(Seq::<char>::empty()) == 0);
    if n < 10 {
        assert(decimal(n).drop_last() =~= Seq::<char>::empty());
        assert(decimal(n).last() == crate::text::digit_char(n));
    } else {
        lemma_decimal_has_no_dot(n / 10);
        assert(decimal(n).drop_last() =~= decimal(n / 10));
        assert(decimal(n).last() == crate::text::digit_char(n % 10));
    }
}

/// A section label has one dot for each component of the number, so a
/// numbered chapter is nested as deep as its number is long.
pub proof fn lemma_label_dots(number: Seq<u32>)
    ensures
        dots(section_label(number)) == number.len(),
    decreases number.len(),
{
    if number.len() > 0 {
        lemma_label_dots(number.drop_last());
        lemma_decimal_has_no_dot(number.last() as nat);
        lemma_dots_concat(section_label(number.drop_last()), decimal(number.last() as nat));
        lemma_dots_concat(
            section_label(number.drop_last()) + decimal(number.last() as nat),
            seq!['.'],
        );
        assert(dots(Seq::<char>::empty()) == 0);
        assert(seq!['.'].drop_last() =~= Seq::<char>::empty());
        assert(seq!['.'].last() == '.');
        assert(dots(seq!['.']) == 1);
    } else {
        assert(section_label(number) =~= Seq::<char>::empty());
    }
}

} // verus!
