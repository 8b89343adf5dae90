use vstd::prelude::*;
use crate::tagtypes::TagType;

verus! {

/// The panels of the tag browser.
#[derive(Clone, Copy, Debug, PartialEq, Eq, Structural)]
pub enum Panel {
    Tag,
    NamedTags,
    Packages,
}

/// The package browser: the selected package, the labels and types of its
/// entries, and the two search filters.
pub struct PackagesView {
    pub selected_package: u16,
    pub package_entry_search_cache: Vec<(String, TagType)>,
    pub package_filter: String,
    pub package_entry_filter: String,
}

impl PackagesView {
    /// A browser with no package selected (`u16::MAX`) and empty filters.
    pub fn new() -> (r: PackagesView)
        ensures
            r.selected_package == u16::MAX,
            r.package_entry_search_cache@.len() == 0,
            r.package_filter@.len() == 0,
            r.package_entry_filter@.len() == 0,
    {
        PackagesView {
            selected_package: u16::MAX,
            package_entry_search_cache: Vec::new(),
            package_filter: String::new(),
            package_entry_filter: String::new(),
        }
    }

    /// True when a package is selected.
    pub fn has_selection(&self) -> (r: bool)
        ensures
            r == (self.selected_package != u16::MAX),
    {
        self.selected_package != u16::MAX
    }
}

/// The marker word at offset 0x20 of a texture header.
pub const CAFE_MARKER: u16 = 0xcafe;

/// The marker of a texture header; it always holds `0xcafe`.
#[derive(Clone, Copy, Debug, PartialEq, Eq, Structural)]
pub struct CafeMarker(pub u16);

impl CafeMarker {
    /// The marker read from a header, or none when the word is not `0xcafe`.
    pub fn from_word(word: u16) -> (r: Option<CafeMarker>)
        ensures
            r == (if word == CAFE_MARKER {
                Some(CafeMarker(word))
            } else {
                None
            }),
    {
        if word == CAFE_MARKER {
            Some(CafeMarker(word))
        } else {
            None
        }
    }
}

} // verus!
