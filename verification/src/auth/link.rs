//! Navigation links.

use vstd::prelude::*;

verus! {

/// Represents a navigation link
#[derive(Clone, Debug, PartialEq, Eq)]
pub struct Link {
    pub name: String,
    pub to: String,
}

} // verus!
