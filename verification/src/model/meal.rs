//! Planned meals.

use vstd::prelude::*;

use crate::dates::{Date, Timestamp};
use crate::ids::{MealId, MemberId};
use crate::text::same_text;

verus! {

/// The part of the day a meal is planned for.
#[derive(Clone, Copy, Debug, PartialEq, Eq, Structural)]
pub enum MealSlot {
    /// The evening meal, what is meant when nothing is said.
    Dinner,
    /// The morning meal.
    Breakfast,
    /// The midday meal.
    Lunch,
    /// Anything else.
    Other,
}

impl MealSlot {
    /// The text of the slot.
    pub open spec fn text(self) -> Seq<char> {
        match self {
            MealSlot::Dinner => "dinner"@,
            MealSlot::Breakfast => "breakfast"@,
            MealSlot::Lunch => "lunch"@,
            MealSlot::Other => "other"@,
        }
    }

    /// The slot with the given text.
    pub open spec fn of_text(text: Seq<char>) -> Option<MealSlot> {
        if text == "dinner"@ {
            Some(MealSlot::Dinner)
        } else if text == "breakfast"@ {
            Some(MealSlot::Breakfast)
        } else if text == "lunch"@ {
            Some(MealSlot::Lunch)
        } else if text == "other"@ {
            Some(MealSlot::Other)
        } else {
            None
        }
    }

    /// The text of the slot.
    pub fn as_str(self) -> (r: &'static str)
        ensures
            r@ == self.text(),
    {
        match self {
            MealSlot::Dinner => "dinner",
            MealSlot::Breakfast => "breakfast",
            MealSlot::Lunch => "lunch",
            MealSlot::Other => "other",
        }
    }

    /// Reads a slot from its text.
    pub fn parse(text: &str) -> (r: Option<MealSlot>)
        ensures
            r == MealSlot::of_text(text@),
    {
        if same_text(text, "dinner") {
            Some(MealSlot::Dinner)
        } else if same_text(text, "breakfast") {
            Some(MealSlot::Breakfast)
        } else if same_text(text, "lunch") {
            Some(MealSlot::Lunch)
        } else if same_text(text, "other") {
            Some(MealSlot::Other)
        } else {
            None
        }
    }
}

/// Reading the text of a slot gives the slot back.
pub proof fn slot_text_round_trip(slot: MealSlot)
    ensures
        MealSlot::of_text(slot.text()) == Some(slot),
{
    reveal_strlit("dinner");
    reveal_strlit("breakfast");
    reveal_strlit("lunch");
    reveal_strlit("other");
    assert("dinner"@.len() == 6 && "breakfast"@.len() == 9 && "lunch"@.len() == 5 && "other"@.len()
        == 5);
    assert("lunch"@[0] != "other"@[0]);
}

/// One line of what a meal needs.
#[derive(Clone, Debug)]
pub struct IngredientLine {
    /// The ingredient.
    pub name: String,
    /// How much of it, in free text.
    pub qty: Option<String>,
}

/// A planned meal.
#[derive(Clone, Debug)]
pub struct Meal {
    /// Identifies the meal.
    pub id: MealId,
    /// The day it is planned for.
    pub date: Date,
    /// The part of the day.
    pub slot: MealSlot,
    /// What there is, never blank.
    pub name: String,
    /// Who cooks.
    pub cook: Option<MemberId>,
    /// What it needs, in the order it was written down.
    pub ingredient_lines: Vec<IngredientLine>,
    /// Free-form notes.
    pub notes: Option<String>,
    /// When it was planned.
    pub created_at: Timestamp,
}

} // verus!
