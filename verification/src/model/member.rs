//! Household members.

use vstd::prelude::*;

use crate::dates::Timestamp;
use crate::ids::MemberId;

verus! {

/// A household member.
#[derive(Clone, Debug)]
pub struct Member {
    /// Identifies the member.
    pub id: MemberId,
    /// Display name, never blank.
    pub display_name: String,
    /// Short label.
    pub initial: Option<String>,
    /// Name of an accent colour.
    pub color: Option<String>,
    /// When the member was registered.
    pub created_at: Timestamp,
}

} // verus!
