//! Captured thoughts that wait to be sorted.

use vstd::prelude::*;

use crate::dates::Timestamp;
use crate::ids::{InboxItemId, MemberId};

verus! {

/// A captured thought.
#[derive(Clone, Debug)]
pub struct InboxItem {
    /// Identifies the item.
    pub id: InboxItemId,
    /// The text as it was captured, never blank.
    pub raw_text: String,
    /// Who captured it.
    pub captured_by: MemberId,
    /// When.
    pub captured_at: Timestamp,
    /// Name of the way it was captured.
    pub source: String,
    /// Name of how far its sorting got.
    pub triage_state: String,
    /// What it became.
    pub triaged_to: Option<String>,
}

} // verus!
