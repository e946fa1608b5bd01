//! Subscribed calendars and how their last synchronisation went.

use vstd::prelude::*;

use crate::dates::Timestamp;
use crate::ids::CalendarId;
use crate::text::{join, same_text};

verus! {

/// A subscription to an external ICS feed.
#[derive(Clone, Debug)]
pub struct Calendar {
    /// Identifies the calendar.
    pub id: CalendarId,
    /// Display name, never blank.
    pub name: String,
    /// The address of the feed, `http://` or `https://`.
    pub url: String,
    /// What the feed is about.
    pub category: String,
    /// Whether the feed is synchronised.
    pub enabled: bool,
    /// When it was subscribed to.
    pub created_at: Timestamp,
}

/// How the last synchronisation of a feed went.
#[derive(Clone, Copy, Debug, PartialEq, Eq, Structural)]
pub enum SyncStatus {
    /// There was none yet.
    Never,
    /// It succeeded.
    Synced,
    /// The feed could not be downloaded.
    Unreachable,
    /// The feed is not a calendar.
    ParseError,
}

impl SyncStatus {
    /// The text of the status.
    pub open spec fn text(self) -> Seq<char> {
        match self {
            SyncStatus::Never => "never"@,
            SyncStatus::Synced => "ok"@,
            SyncStatus::Unreachable => "unreachable"@,
            SyncStatus::ParseError => "parse_error"@,
        }
    }

    /// The text of the status.
    pub fn as_str(self) -> (r: &'static str)
        ensures
            r@ == self.text(),
    {
        match self {
            SyncStatus::Never => "never",
            SyncStatus::Synced => "ok",
            SyncStatus::Unreachable => "unreachable",
            SyncStatus::ParseError => "parse_error",
        }
    }
}

/// What is known of the synchronisation of a feed.
#[derive(Clone, Debug)]
pub struct CalendarSyncState {
    /// When the last successful synchronisation took place.
    pub last_synced_at: Option<Timestamp>,
    /// How the last one went.
    pub last_status: SyncStatus,
    /// What was said of the last one if it failed.
    pub last_error: Option<String>,
    /// How many events the last successful one brought.
    pub event_count: u32,
}

impl CalendarSyncState {
    /// The state of a feed that was never synchronised.
    pub open spec fn never_synced() -> CalendarSyncState {
        CalendarSyncState {
            last_synced_at: None,
            last_status: SyncStatus::Never,
            last_error: None,
            event_count: 0,
        }
    }

    /// The state of a feed that was never synchronised.
    pub fn fresh() -> (r: CalendarSyncState)
        ensures
            r == CalendarSyncState::never_synced(),
    {
        CalendarSyncState {
            last_synced_at: None,
            last_status: SyncStatus::Never,
            last_error: None,
            event_count: 0,
        }
    }
}

/// A calendar with what is known of its synchronisation.
#[derive(Clone, Debug)]
pub struct StoredCalendar {
    /// The subscription.
    pub calendar: Calendar,
    /// How its synchronisation goes.
    pub sync: CalendarSyncState,
}

/// The address a feed is kept under: `webcal://` stands for `https://`, `http://`
/// and `https://` are kept, and any other scheme is refused.
pub open spec fn normalised_url(url: Seq<char>) -> Option<Seq<char>> {
    if "webcal://"@.is_prefix_of(url) {
        Some("https://"@ + url.skip(9))
    } else if "https://"@.is_prefix_of(url) || "http://"@.is_prefix_of(url) {
        Some(url)
    } else {
        None
    }
}

fn starts_with(text: &str, prefix: &str) -> (r: bool)
    ensures
        r == prefix@.is_prefix_of(text@),
{
    let n: usize = prefix.unicode_len();
    if n > text.unicode_len() {
        return false;
    }
    let head = text.substring_char(0, n);
    proof {
        if prefix@.is_prefix_of(text@) {
            assert(prefix@ =~= text@.subrange(0, n as int));
        }
    }
    same_text(head, prefix)
}

/// The address a feed is kept under, if its scheme is one that is supported.
pub fn normalise_feed_url(url: String) -> (r: Option<String>)
    ensures
        crate::text::text_of(r) == normalised_url(url@),
{
    proof {
        reveal_strlit("webcal://");
        assert("webcal://"@.len() == 9);
    }
    if starts_with(url.as_str(), "webcal://") {
        let n: usize = url.as_str().unicode_len();
        let rest = url.as_str().substring_char(9, n);
        proof {
            assert(rest@ =~= url@.skip(9));
        }
        Some(join("https://", rest))
    } else if starts_with(url.as_str(), "https://") || starts_with(url.as_str(), "http://") {
        Some(url)
    } else {
        None
    }
}

/// Whatever address a feed is kept under uses `http://` or `https://`.
pub proof fn kept_urls_are_http(url: Seq<char>)
    ensures
        normalised_url(url) matches Some(kept) ==> "https://"@.is_prefix_of(kept)
            || "http://"@.is_prefix_of(kept),
{
    if "webcal://"@.is_prefix_of(url) {
        let kept = "https://"@ + url.skip(9);
        assert(kept.subrange(0, "https://"@.len() as int) =~= "https://"@);
    }
}

/// Normalising an address that is already kept leaves it as it is.
pub proof fn url_normalisation_is_idempotent(url: Seq<char>)
    ensures
        normalised_url(url) matches Some(kept) ==> normalised_url(kept) == Some(kept),
{
    kept_urls_are_http(url);
    if let Some(kept) = normalised_url(url) {
        reveal_strlit("webcal://");
        reveal_strlit("https://");
        reveal_strlit("http://");
        if "webcal://"@.is_prefix_of(kept) {
            assert(kept[0] == "webcal://"@[0]);
            assert("webcal://"@[0] == 'w');
            assert("https://"@[0] == 'h');
            assert("http://"@[0] == 'h');
            if "https://"@.is_prefix_of(kept) {
                assert(kept[0] == "https://"@[0]);
            } else {
                assert(kept[0] == "http://"@[0]);
            }
        }
    }
}

} // verus!
