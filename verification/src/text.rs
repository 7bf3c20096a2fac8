//! Texts by their views: the characters of optional texts and of lists of
//! texts, as contracts speak of them.

use vstd::prelude::*;

verus! {

/// An optional text by its view.
pub open spec fn text_view(text: Option<String>) -> Option<Seq<char>> {
    match text {
        Some(t) => Some(t@),
        None => None,
    }
}

/// The texts of a list, each by its view.
pub open spec fn text_views(texts: Seq<String>) -> Seq<Seq<char>> {
    texts.map_values(|t: String| t@)
}

} // verus!
