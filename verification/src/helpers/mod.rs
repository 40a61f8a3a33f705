//! The helpers that the renderer gives to the templates of a theme: the
//! table of contents, and the links to the previous and the next chapter.
//!
//! A helper is a function from the data of the page being rendered to the
//! markup that takes the helper's place in the page.

pub mod navigation;
pub mod toc;

pub use self::navigation::{next, previous};
pub use self::toc::RenderToc;

use vstd::prelude::*;
use crate::json::{Json, object_get, value_as_object, value_model};
use crate::toc::{TocEntry, TocEntryView, entries_view, json_entries, text_at, toc_from_json};

verus! {

/// What the helpers read from the data of a page.
#[derive(Debug, Clone, PartialEq, Eq)]
pub struct PageData {
    /// The table of contents, from "chapters".
    pub entries: Vec<TocEntry>,
    /// The path of the page, from "path".
    pub path: String,
    /// The way from the page to the root of the output, from "path_to_root".
    pub path_to_root: String,
}

/// What the helpers read from the data of a page, as plain mathematical data.
pub struct PageDataView {
    pub entries: Seq<TocEntryView>,
    pub path: Seq<char>,
    pub path_to_root: Seq<char>,
}

impl View for PageData {
    type V = PageDataView;

    open spec fn view(&self) -> PageDataView {
        PageDataView {
            entries: entries_view(self.entries@),
            path: self.path@,
            path_to_root: self.path_to_root@,
        }
    }
}

/// What the helpers read from the data of a page: present where the data is
/// an object with a table of contents under "chapters" and texts under "path"
/// and "path_to_root".
pub open spec fn page_data(json: Json) -> Option<PageDataView> {
    match json {
        Json::Object(fields) => if fields.contains_key("chapters"@) && json_entries(
            fields["chapters"@],
        ) is Some && fields.contains_key("path"@) && fields["path"@] is Text && fields.contains_key(
            "path_to_root"@,
        ) && fields["path_to_root"@] is Text {
            Some(
                PageDataView {
                    entries: json_entries(fields["chapters"@])->Some_0,
                    path: fields["path"@]->Text_0,
                    path_to_root: fields["path_to_root"@]->Text_0,
                },
            )
        } else {
            None
        },
        _ => None,
    }
}

/// What a helper answers where the page's data lacks what it reads.
pub open spec fn incomplete_data() -> Seq<char> {
    "the data of the page lacks its table of contents, its path or its way to the root"@
}

impl PageData {
    /// Reads from the data of a page what the helpers need.
    pub fn read(data: &serde_json::Value) -> (outcome: Result<PageData, String>)
        ensures
            match outcome {
                Ok(page) => page_data(value_model(*data)) == Some(page@),
                Err(message) => page_data(value_model(*data)).is_none() && message@
                    == incomplete_data(),
            },
    {
        let fields = match value_as_object(data) {
            Some(fields) => fields,
            None => {
                return incomplete();
            },
        };
        let entries = match object_get(fields, "chapters") {
            Some(chapters) => match toc_from_json(chapters) {
                Some(entries) => entries,
                None => {
                    return incomplete();
                },
            },
            None => {
                return incomplete();
            },
        };
        let path = match text_at(fields, "path") {
            Some(path) => path,
            None => {
                return incomplete();
            },
        };
        let path_to_root = match text_at(fields, "path_to_root") {
            Some(path_to_root) => path_to_root,
            None => {
                return incomplete();
            },
        };
        Ok(PageData { entries, path, path_to_root })
    }
}

fn incomplete() -> (outcome: Result<PageData, String>)
    ensures
        outcome matches Err(message) && message@ == incomplete_data(),
{
    Err(
        String::from_str(
            "the data of the page lacks its table of contents, its path or its way to the root",
        ),
    )
}

} // verus!
