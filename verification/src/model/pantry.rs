//! Staples the household keeps at home.

use vstd::prelude::*;

use crate::dates::Timestamp;
use crate::ids::PantryItemId;

verus! {

/// A staple.
#[derive(Clone, Debug)]
pub struct PantryItem {
    /// Identifies the staple.
    pub id: PantryItemId,
    /// What it is, never blank.
    pub name: String,
    /// Free-form note.
    pub note: Option<String>,
    /// When it was written down.
    pub created_at: Timestamp,
}

} // verus!
