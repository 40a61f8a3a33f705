//! The table of contents: one entry for each item of the book, in reading
//! order, and the JSON form in which templates receive it.

use vstd::prelude::*;
use crate::book::{
    Book, BookItem, BookItemView, SectionNumber, lemma_sub_items_view, reading_order, refs_view,
};
use crate::json::{
    Json, JsonObject, array_value, new_object, null_value, object_get, object_insert, object_model,
    object_value, string_value, value_as_array, value_as_object, value_as_str, value_is_null,
    value_model, values_model,
};
use crate::text::{section_label, section_string, text_view};

verus! {

/// One line of the table of contents.
#[derive(Debug, Clone, PartialEq, Eq)]
pub enum TocEntry {
    /// A chapter: its name, where its page is, and its section label, if
    /// the chapter is numbered.
    Chapter { name: String, path: String, section: Option<String> },
    /// The place of a separator.
    Spacer,
}

/// A line of the table of contents as plain mathematical data.
pub enum TocEntryView {
    Chapter { name: Seq<char>, path: Seq<char>, section: Option<Seq<char>> },
    Spacer,
}

impl View for TocEntry {
    type V = TocEntryView;

    open spec fn view(&self) -> TocEntryView {
        match *self {
            TocEntry::Chapter { name, path, section } => TocEntryView::Chapter {
                name: name@,
                path: path@,
                section: text_view(section),
            },
            TocEntry::Spacer => TocEntryView::Spacer,
        }
    }
}

/// The views of some entries, in order.
pub open spec fn entries_view(entries: Seq<TocEntry>) -> Seq<TocEntryView> {
    entries.map_values(|e: TocEntry| e@)
}

/// The entry of one item: a chapter's name, path and section label (absent
/// where the chapter has no number), or the spacer for a separator.
pub open spec fn toc_entry(item: BookItemView) -> TocEntryView {
    match item {
        BookItemView::Chapter(ch) => TocEntryView::Chapter {
            name: ch.name,
            path: ch.path,
            section: match ch.number {
                Some(number) => Some(section_label(number)),
                None => None,
            },
        },
        BookItemView::Separator => TocEntryView::Spacer,
    }
}

/// The table of contents of a book: the entry of each item, in reading
/// order. Nothing is left out and nothing changes place.
pub open spec fn toc(items: Seq<BookItemView>) -> Seq<TocEntryView> {
    reading_order(items).map_values(|item: BookItemView| toc_entry(item))
}

/// An entry as a JSON object. A chapter has the keys "name", "section" and
/// "path", with a null section where it has no label; a spacer has the one
/// key "spacer".
pub open spec fn entry_json(entry: TocEntryView) -> Json {
    match entry {
        TocEntryView::Chapter { name, path, section } => Json::Object(
            Map::empty().insert("name"@, Json::Text(name)).insert(
                "section"@,
                match section {
                    Some(label) => Json::Text(label),
                    None => Json::Null,
                },
            ).insert("path"@, Json::Text(path)),
        ),
        TocEntryView::Spacer => Json::Object(
            Map::empty().insert("spacer"@, Json::Text("_spacer_"@)),
        ),
    }
}

/// A table of contents as a JSON list of its entries.
pub open spec fn entries_json(entries: Seq<TocEntryView>) -> Json {
    Json::List(entries.map_values(|entry: TocEntryView| entry_json(entry)))
}

/// The table of contents of a book as JSON.
pub open spec fn toc_json(items: Seq<BookItemView>) -> Json {
    entries_json(toc(items))
}

impl SectionNumber {
    /// The label of the section: "1.2." for `[1, 2]`.
    pub fn to_string(&self) -> (s: String)
        ensures
            s@ == section_label(self.0@),
    {
        section_string(&self.0)
    }
}

impl TocEntry {
    /// The entry that stands for an item of the book.
    pub fn of_item(item: &BookItem) -> (entry: TocEntry)
        ensures
            entry@ == toc_entry(item@),
    {
        match item {
            BookItem::Chapter(ch) => {
                proof {
                    lemma_sub_items_view(*ch);
                }
                let section = match &ch.number {
                    Some(number) => Some(number.to_string()),
                    None => None,
                };
                TocEntry::Chapter { name: ch.name.clone(), path: ch.path.clone(), section }
            },
            BookItem::Separator => TocEntry::Spacer,
        }
    }

    /// The entry as a JSON object.
    pub fn to_json(&self) -> (v: serde_json::Value)
        ensures
            value_model(v) == entry_json(self@),
    {
        let mut object = new_object();
        match self {
            TocEntry::Chapter { name, path, section } => {
                object_insert(&mut object, String::from_str("name"), string_value(name.clone()));
                let label = match section {
                    Some(text) => string_value(text.clone()),
                    None => null_value(),
                };
                object_insert(&mut object, String::from_str("section"), label);
                object_insert(&mut object, String::from_str("path"), string_value(path.clone()));
            },
            TocEntry::Spacer => {
                object_insert(
                    &mut object,
                    String::from_str("spacer"),
                    string_value(String::from_str("_spacer_")),
                );
            },
        }
        object_value(object)
    }
}

/// Lists the entries of a book's table of contents.
pub fn toc_entries(book: &Book) -> (entries: Vec<TocEntry>)
    ensures
        entries_view(entries@) == toc(book@),
{
    let items = book.iter();
    let mut entries: Vec<TocEntry> = Vec::new();
    let mut i: usize = 0;
    while i < items.len()
        invariant
            i <= items.len(),
            entries.len() == i,
            forall|j: int| 0 <= j < i ==> (#[trigger] entries[j])@ == toc_entry(item_view_at(items@, j)),
        decreases items.len() - i,
    {
        let entry = TocEntry::of_item(items[i]);
        entries.push(entry);
        i += 1;
    }
    assert(entries_view(entries@) =~= toc(book@)) by {
        assert(refs_view(items@) == reading_order(book@));
        assert forall|j: int| 0 <= j < entries.len() implies entries_view(entries@)[j] == toc(
            book@,
        )[j] by {
            assert(entries[j]@ == toc_entry(item_view_at(items@, j)));
            assert(refs_view(items@)[j] == item_view_at(items@, j));
        }
    }
    entries
}

spec fn item_view_at(items: Seq<&BookItem>, j: int) -> BookItemView {
    (*items[j])@
}

/// Builds the table of contents of a book as the JSON list that templates
/// read under the key "chapters".
pub fn create_toc_info(book: &Book) -> (v: serde_json::Value)
    ensures
        value_model(v) == toc_json(book@),
{
    let entries = toc_entries(book);
    let mut values: Vec<serde_json::Value> = Vec::new();
    let mut i: usize = 0;
    while i < entries.len()
        invariant
            i <= entries.len(),
            values.len() == i,
            forall|j: int| 0 <= j < i ==> value_model(#[trigger] values[j]) == entry_json(entries[j]@),
        decreases entries.len() - i,
    {
        let value = entries[i].to_json();
        values.push(value);
        i += 1;
    }
    assert(values_model(values@) =~= toc(book@).map_values(|entry: TocEntryView| entry_json(entry)))
        by {
        assert forall|j: int| 0 <= j < values.len() implies values_model(values@)[j] == entry_json(
            toc(book@)[j],
        ) by {
            assert(value_model(values[j]) == entry_json(entries[j]@));
            assert(entries_view(entries@)[j] == entries[j]@);
        }
    }
    array_value(values)
}

/// The section label that a JSON object gives to an entry: the text under
/// "section", or none where "section" is null or missing. `None` where
/// "section" holds anything else.
pub open spec fn json_section(fields: Map<Seq<char>, Json>) -> Option<Option<Seq<char>>> {
    if !fields.contains_key("section"@) {
        Some(None)
    } else {
        match fields["section"@] {
            Json::Text(label) => Some(Some(label)),
            Json::Null => Some(None),
            _ => None,
        }
    }
}

/// The entry that a JSON document describes: the spacer for an object with
/// the key "spacer", a chapter for an object with texts under "name" and
/// "path". `None` for any other document.
pub open spec fn json_entry(json: Json) -> Option<TocEntryView> {
    match json {
        Json::Object(fields) => if fields.contains_key("spacer"@) {
            Some(TocEntryView::Spacer)
        } else if fields.contains_key("name"@) && fields["name"@] is Text && fields.contains_key(
            "path"@,
        ) && fields["path"@] is Text && json_section(fields) is Some {
            Some(
                TocEntryView::Chapter {
                    name: fields["name"@]->Text_0,
                    path: fields["path"@]->Text_0,
                    section: json_section(fields)->Some_0,
                },
            )
        } else {
            None
        },
        _ => None,
    }
}

/// Whether every document of a list describes an entry.
pub open spec fn all_entries(items: Seq<Json>) -> bool {
    forall|i: int| 0 <= i < items.len() ==> (#[trigger] json_entry(items[i])) is Some
}

/// The table of contents that a JSON document describes: the entries of a
/// list of which every item describes one. `None` for any other document.
pub open spec fn json_entries(json: Json) -> Option<Seq<TocEntryView>> {
    match json {
        Json::List(items) => if all_entries(items) {
            Some(Seq::new(items.len(), |i: int| json_entry(items[i])->Some_0))
        } else {
            None
        },
        _ => None,
    }
}

/// The view of an optional entry.
pub open spec fn option_entry_view(entry: Option<TocEntry>) -> Option<TocEntryView> {
    match entry {
        Some(e) => Some(e@),
        None => None,
    }
}

/// The views of an optional list of entries.
pub open spec fn option_entries_view(entries: Option<Vec<TocEntry>>) -> Option<Seq<TocEntryView>> {
    match entries {
        Some(es) => Some(entries_view(es@)),
        None => None,
    }
}

/// The text that an object holds under a key, if it holds a text there.
pub fn text_at(object: &JsonObject, key: &str) -> (text: Option<String>)
    ensures
        match text {
            Some(t) => object_model(*object).contains_key(key@) && object_model(*object)[key@]
                == Json::Text(t@),
            None => !(object_model(*object).contains_key(key@) && object_model(
                *object,
            )[key@] is Text),
        },
{
    match object_get(object, key) {
        Some(value) => match value_as_str(value) {
            Some(text) => Some(String::from_str(text)),
            None => None,
        },
        None => None,
    }
}

fn section_at(object: &JsonObject) -> (section: Option<Option<String>>)
    ensures
        match section {
            Some(label) => json_section(object_model(*object)) == Some(text_view(label)),
            None => json_section(object_model(*object)).is_none(),
        },
{
    match object_get(object, "section") {
        None => Some(None),
        Some(value) => match value_as_str(value) {
            Some(text) => Some(Some(String::from_str(text))),
            None => if value_is_null(value) {
                Some(None)
            } else {
                None
            },
        },
    }
}

impl TocEntry {
    /// Reads an entry from its JSON form.
    pub fn from_json(v: &serde_json::Value) -> (entry: Option<TocEntry>)
        ensures
            option_entry_view(entry) == json_entry(value_model(*v)),
    {
        let object = match value_as_object(v) {
            Some(object) => object,
            None => {
                return None;
            },
        };
        if object_get(object, "spacer").is_some() {
            return Some(TocEntry::Spacer);
        }
        let name = match text_at(object, "name") {
            Some(name) => name,
            None => {
                return None;
            },
        };
        let path = match text_at(object, "path") {
            Some(path) => path,
            None => {
                return None;
            },
        };
        match section_at(object) {
            Some(section) => Some(TocEntry::Chapter { name, path, section }),
            None => None,
        }
    }
}

/// Reads a table of contents from its JSON form.
pub fn toc_from_json(v: &serde_json::Value) -> (entries: Option<Vec<TocEntry>>)
    ensures
        option_entries_view(entries) == json_entries(value_model(*v)),
{
    let items = match value_as_array(v) {
        Some(items) => items,
        None => {
            return None;
        },
    };
    let ghost models = values_model(items@);
    let mut entries: Vec<TocEntry> = Vec::new();
    let mut i: usize = 0;
    while i < items.len()
        invariant
            i <= items.len(),
            entries.len() == i,
            models == values_model(items@),
            value_model(*v) == Json::List(models),
            forall|j: int| 0 <= j < i ==> json_entry(#[trigger] models[j]) == Some(entries[j]@),
        decreases items.len() - i,
    {
        assert(models[i as int] == value_model(items[i as int]));
        match TocEntry::from_json(&items[i]) {
            Some(entry) => {
                entries.push(entry);
            },
            None => {
                assert(!all_entries(models));
                return None;
            },
        }
        i += 1;
    }
    assert(all_entries(models));
    assert(entries_view(entries@) =~= Seq::new(models.len(), |i: int| json_entry(models[i])->Some_0));
    Some(entries)
}

proof fn reveal_entry_keys()
    ensures
        "spacer"@.len() == 6,
        "name"@.len() == 4 && "name"@[0] == 'n',
        "section"@.len() == 7,
        "path"@.len() == 4 && "path"@[0] == 'p',
{
    reveal_strlit("spacer");
    reveal_strlit("name");
    reveal_strlit("section");
    reveal_strlit("path");
}

/// Reading the JSON form of an entry gives the entry back.
pub proof fn lemma_entry_round_trip(entry: TocEntryView)
    ensures
        json_entry(entry_json(entry)) == Some(entry),
{
    reveal_entry_keys();
}

/// Reading the JSON form of a table of contents gives the table back.
pub proof fn lemma_toc_round_trip(entries: Seq<TocEntryView>)
    ensures
        json_entries(entries_json(entries)) == Some(entries),
{
    let items = entries.map_values(|entry: TocEntryView| entry_json(entry));
    assert forall|i: int| 0 <= i < items.len() implies (#[trigger] json_entry(items[i]))
        == Some(entries[i]) by {
        lemma_entry_round_trip(entries[i]);
    }
    assert(all_entries(items));
    assert(Seq::new(items.len(), |i: int| json_entry(items[i])->Some_0) =~= entries);
}

/// The section of an entry in its JSON form is the label of the chapter's
/// number, and null, not an empty text, for a chapter without a number.
pub proof fn lemma_section_in_json(item: BookItemView)
    requires
        item is Chapter,
    ensures
        entry_json(toc_entry(item)) is Object,
        entry_json(toc_entry(item))->Object_0.contains_key("section"@),
        entry_json(toc_entry(item))->Object_0["section"@] == match item->Chapter_0.number {
            Some(number) => Json::Text(section_label(number)),
            None => Json::Null,
        },
{
    reveal_entry_keys();
}

} // verus!
