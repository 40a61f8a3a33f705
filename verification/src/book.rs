//! The book: an ordered tree of chapters and separators.

use vstd::prelude::*;

verus! {

/// The hierarchical number of a chapter: `[1, 2]` is section "1.2.".
#[derive(Debug, Clone, PartialEq, Eq)]
pub struct SectionNumber(pub Vec<u32>);

/// A chapter, with the chapters nested below it.
#[derive(Debug, PartialEq, Eq)]
pub struct Chapter {
    /// The chapter's name.
    pub name: String,
    /// The chapter's body, already rendered.
    pub content: String,
    /// The chapter's section number, if it has one.
    pub number: Option<SectionNumber>,
    /// Nested items, in reading order.
    pub sub_items: Vec<BookItem>,
    /// Where the chapter's page goes, relative to the output root.
    pub path: String,
}

/// One item of a book.
#[derive(Debug, PartialEq, Eq)]
pub enum BookItem {
    /// A chapter and all that is nested in it.
    Chapter(Chapter),
    /// A visual break between chapters.
    Separator,
}

/// A book: its top-level items in reading order.
#[derive(Debug, PartialEq, Eq)]
pub struct Book {
    /// The items of the top level.
    pub sections: Vec<BookItem>,
}

/// What a chapter is, as plain mathematical data.
pub struct ChapterView {
    pub name: Seq<char>,
    pub content: Seq<char>,
    pub number: Option<Seq<u32>>,
    pub sub_items: Seq<BookItemView>,
    pub path: Seq<char>,
}

/// What a book item is, as plain mathematical data.
pub enum BookItemView {
    Chapter(ChapterView),
    Separator,
}

/// The components of an optional section number.
pub open spec fn number_view(number: Option<SectionNumber>) -> Option<Seq<u32>> {
    match number {
        Some(n) => Some(n.0@),
        None => None,
    }
}

/// What an item is: for a chapter its texts, its number and, in order, what
/// the items nested in it are.
pub open spec fn item_view(item: BookItem) -> BookItemView
    decreases item,
{
    match item {
        BookItem::Chapter(ch) => BookItemView::Chapter(
            ChapterView {
                name: ch.name@,
                content: ch.content@,
                number: number_view(ch.number),
                sub_items: Seq::new(
                    ch.sub_items@.len(),
                    |i: int|
                        if 0 <= i < ch.sub_items@.len() {
                            item_view(ch.sub_items@[i])
                        } else {
                            BookItemView::Separator
                        },
                ),
                path: ch.path@,
            },
        ),
        BookItem::Separator => BookItemView::Separator,
    }
}

/// What some items are, in order.
pub open spec fn items_view(items: Seq<BookItem>) -> Seq<BookItemView> {
    items.map_values(|item: BookItem| item_view(item))
}

/// What the items behind some references are, in order.
pub open spec fn refs_view(items: Seq<&BookItem>) -> Seq<BookItemView> {
    items.map_values(|item: &BookItem| item_view(*item))
}

impl View for BookItem {
    type V = BookItemView;

    open spec fn view(&self) -> BookItemView {
        item_view(*self)
    }
}

impl View for Chapter {
    type V = ChapterView;

    open spec fn view(&self) -> ChapterView {
        item_view(BookItem::Chapter(*self))->Chapter_0
    }
}

impl View for Book {
    type V = Seq<BookItemView>;

    open spec fn view(&self) -> Seq<BookItemView> {
        items_view(self.sections@)
    }
}

/// An item followed by everything nested in it, depth first.
pub open spec fn reading_order_of(item: BookItemView) -> Seq<BookItemView>
    decreases item,
{
    match item {
        BookItemView::Chapter(ch) => seq![item] + reading_order(ch.sub_items),
        BookItemView::Separator => seq![item],
    }
}

/// The items of a tree in reading order: each item, then what is nested in
/// it, then its next sibling.
pub open spec fn reading_order(items: Seq<BookItemView>) -> Seq<BookItemView>
    decreases items,
{
    if items.len() == 0 {
        Seq::empty()
    } else {
        reading_order(items.drop_last()) + reading_order_of(items.last())
    }
}


/// The reading order of a list that ends in `item` is that of the items
/// before it, followed by `item` and what is nested in it.
pub proof fn lemma_reading_order_push(items: Seq<BookItemView>, item: BookItemView)
    ensures
        reading_order(items.push(item)) == reading_order(items) + reading_order_of(item),
{
    assert(items.push(item).drop_last() =~= items);
}

/// Reading order keeps the order of the source: the items of `a`, with all
/// that is nested in them, come before those of `b`.
pub proof fn lemma_reading_order_concat(a: Seq<BookItemView>, b: Seq<BookItemView>)
    ensures
        reading_order(a + b) == reading_order(a) + reading_order(b),
    decreases b.len(),
{
    if b.len() == 0 {
        assert(a + b =~= a);
        assert(reading_order(a) + reading_order(b) =~= reading_order(a));
    } else {
        lemma_reading_order_concat(a, b.drop_last());
        assert((a + b).drop_last() =~= a + b.drop_last());
        assert((a + b).last() == b.last());
        assert(reading_order(a + b) =~= reading_order(a) + reading_order(b));
    }
}

/// Reading order is pre-order: an item comes first, directly followed by what
/// is nested in it, and only then by its next sibling.
pub proof fn lemma_reading_order_first(first: BookItemView, rest: Seq<BookItemView>)
    ensures
        reading_order(seq![first] + rest) == reading_order_of(first) + reading_order(rest),
        reading_order_of(first)[0] == first,
        first matches BookItemView::Chapter(ch) ==> reading_order_of(first) == seq![first]
            + reading_order(ch.sub_items),
        first is Separator ==> reading_order_of(first) == seq![first],
{
    lemma_reading_order_concat(seq![first], rest);
    lemma_reading_order_push(Seq::empty(), first);
    assert(Seq::<BookItemView>::empty().push(first) =~= seq![first]);
    assert(reading_order(Seq::<BookItemView>::empty()) + reading_order_of(first)
        =~= reading_order_of(first));
}

/// How many items a tree holds: each item counts, and so does every item
/// nested in it.
pub open spec fn item_count(items: Seq<BookItemView>) -> nat
    decreases items,
{
    if items.len() == 0 {
        0
    } else {
        item_count(items.drop_last()) + 1 + match items.last() {
            BookItemView::Chapter(ch) => item_count(ch.sub_items),
            BookItemView::Separator => 0,
        }
    }
}

/// Reading order leaves nothing out and repeats nothing: it is as long as
/// the tree has items.
pub proof fn lemma_reading_order_len(items: Seq<BookItemView>)
    ensures
        reading_order(items).len() == item_count(items),
    decreases items,
{
    if items.len() > 0 {
        lemma_reading_order_len(items.drop_last());
        assert(reading_order(items) == reading_order(items.drop_last()) + reading_order_of(
            items.last(),
        ));
        match items.last() {
            BookItemView::Chapter(ch) => {
                lemma_reading_order_len(ch.sub_items);
                assert(reading_order_of(items.last()) == seq![items.last()] + reading_order(
                    ch.sub_items,
                ));
            },
            BookItemView::Separator => {
                assert(reading_order_of(items.last()) == seq![items.last()]);
            },
        }
    }
}

/// The view of a chapter lists the views of its nested items.
pub proof fn lemma_sub_items_view(ch: Chapter)
    ensures
        ch@.sub_items == items_view(ch.sub_items@),
        ch@.name == ch.name@,
        ch@.content == ch.content@,
        ch@.path == ch.path@,
        ch@.number == number_view(ch.number),
        BookItem::Chapter(ch)@ == BookItemView::Chapter(ch@),
{
    assert(ch@.sub_items =~= items_view(ch.sub_items@));
}

impl Chapter {
    /// A chapter without a number and without nested items.
    pub fn new(name: &str, content: String, path: &str) -> (ch: Chapter)
        ensures
            ch@.name == name@,
            ch@.content == content@,
            ch@.path == path@,
            ch@.number.is_none(),
            ch@.sub_items.len() == 0,
    {
        let ch = Chapter {
            name: String::from_str(name),
            content,
            number: None,
            sub_items: Vec::new(),
            path: String::from_str(path),
        };
        proof {
            lemma_sub_items_view(ch);
        }
        ch
    }
}

impl Book {
    /// A book without items.
    pub fn new() -> (book: Book)
        ensures
            book@.len() == 0,
    {
        Book { sections: Vec::new() }
    }

    /// Adds an item at the end of the top level.
    pub fn push_item(&mut self, item: BookItem)
        ensures
            final(self)@ == old(self)@.push(item@),
    {
        self.sections.push(item);
        assert(items_view(self.sections@) =~= items_view(old(self).sections@).push(item@));
    }

    /// Every item of the book in reading order, nested items included.
    pub fn iter(&self) -> (items: Vec<&BookItem>)
        ensures
            refs_view(items@) == reading_order(self@),
    {
        let mut items: Vec<&BookItem> = Vec::new();
        assert(refs_view(items@) =~= Seq::<BookItemView>::empty());
        collect_items(&self.sections, &mut items);
        assert(Seq::<BookItemView>::empty() + reading_order(self@) =~= reading_order(self@));
        items
    }
}

/// Appends the items of a subtree to `out`, in reading order.
fn collect_items<'a>(items: &'a Vec<BookItem>, out: &mut Vec<&'a BookItem>)
    ensures
        refs_view(final(out)@) == refs_view(old(out)@) + reading_order(items_view(items@)),
    decreases items,
{
    let ghost before = refs_view(out@);
    let ghost views = items_view(items@);
    let mut i: usize = 0;
    assert(before + reading_order(views.take(0)) =~= before);
    while i < items.len()
        invariant
            i <= items.len(),
            views == items_view(items@),
            refs_view(out@) == before + reading_order(views.take(i as int)),
        decreases items.len() - i,
    {
        let item = &items[i];
        let ghost prev = refs_view(out@);
        out.push(item);
        assert(refs_view(out@) =~= prev.push(item_view(*item)));
        match item {
            BookItem::Chapter(ch) => {
                collect_items(&ch.sub_items, out);
                proof {
                    lemma_sub_items_view(*ch);
                }
            },
            BookItem::Separator => {},
        }
        proof {
            assert(views.take(i + 1) =~= views.take(i as int).push(views[i as int]));
            lemma_reading_order_push(views.take(i as int), views[i as int]);
            assert(views[i as int] == item_view(*item));
            assert(refs_view(out@) =~= prev + reading_order_of(views[i as int]));
        }
        i += 1;
    }
    assert(views.take(items.len() as int) =~= views);
}

/// Whether the chapters of a book all have different paths.
pub open spec fn has_distinct_paths(book: Seq<BookItemView>) -> bool {
    forall|i: int, j: int|
        0 <= i < j < reading_order(book).len() && (#[trigger] reading_order(book)[i]) is Chapter && (
        #[trigger] reading_order(book)[j]) is Chapter ==> reading_order(book)[i]->Chapter_0.path
            != reading_order(book)[j]->Chapter_0.path
}

} // verus!
