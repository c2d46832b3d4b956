//! The shared title record that metadata lookups produce.

use vstd::prelude::*;

verus! {

/// A media title in its three customary renderings.  `romaji` is always
/// present; the other two only when a source provides them.
#[derive(Debug, Clone)]
pub struct MediaTitle {
    /// The romanized title.
    pub romaji: String,
    /// The English title, if one is known.
    pub english: Option<String>,
    /// The native-script title, if one is known.
    pub native: Option<String>,
}

} // verus!
