//! Grocery lists and what is on them.

use vstd::prelude::*;

use crate::dates::Timestamp;
use crate::ids::{GroceryItemId, GroceryListId, MealId};

verus! {

/// A grocery list.
#[derive(Clone, Debug)]
pub struct GroceryList {
    /// Identifies the list.
    pub id: GroceryListId,
    /// Display name, never blank.
    pub name: String,
    /// When it was made.
    pub created_at: Timestamp,
}

/// How an item came onto its list.
#[derive(Clone, Copy, Debug, PartialEq, Eq, Structural)]
pub enum GrocerySource {
    /// Someone wrote it down.
    Manual,
    /// A planned meal needs it.
    FromMeal,
}

impl GrocerySource {
    /// The text of the source.
    pub open spec fn text(self) -> Seq<char> {
        match self {
            GrocerySource::Manual => "manual"@,
            GrocerySource::FromMeal => "from_meal"@,
        }
    }

    /// The text of the source.
    pub fn as_str(self) -> (r: &'static str)
        ensures
            r@ == self.text(),
    {
        match self {
            GrocerySource::Manual => "manual",
            GrocerySource::FromMeal => "from_meal",
        }
    }
}

/// An item on a grocery list.
#[derive(Clone, Debug)]
pub struct GroceryItem {
    /// Identifies the item.
    pub id: GroceryItemId,
    /// The list it is on.
    pub list_id: GroceryListId,
    /// What it is, never blank.
    pub name: String,
    /// How much of it, in free text.
    pub qty: Option<String>,
    /// What it is grouped under.
    pub category: Option<String>,
    /// Whether it is checked off.
    pub checked: bool,
    /// How it came onto the list.
    pub source: GrocerySource,
    /// The meal that needs it.
    pub source_meal_id: Option<MealId>,
    /// When it came onto the list.
    pub created_at: Timestamp,
}

} // verus!
