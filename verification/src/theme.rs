//! The theme: the templates that pages are rendered with.

use vstd::prelude::*;

verus! {

/// The templates of a theme, as raw bytes.
#[derive(Debug, Clone, PartialEq, Eq)]
pub struct Theme {
    /// The template of a page.
    pub index: Vec<u8>,
    /// The partial that a page's head includes.
    pub header: Vec<u8>,
}

impl Theme {
    /// A theme of the given templates.
    pub fn new(index: Vec<u8>, header: Vec<u8>) -> (theme: Theme)
        ensures
            theme.index@ == index@,
            theme.header@ == header@,
    {
        Theme { index, header }
    }
}

} // verus!
