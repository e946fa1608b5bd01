//! The download of an ICS feed: which answers of a server are accepted, and how
//! much of a body is.
//!
//! A feed is some third party's text. Its server must answer with success, its
//! body is collected piece by piece and given up as soon as it would grow past
//! [`MAX_FEED_BYTES`], and it has to be UTF-8.

use vstd::prelude::*;
use vstd::utf8::{decode_utf8, valid_utf8};

use crate::text::{decimal, decimal_text, join};

verus! {

/// The largest body of a feed, in bytes.
pub const MAX_FEED_BYTES: usize = 5_242_880;

/// How long a whole download may take, in seconds.
pub const REQUEST_TIMEOUT_SECS: u64 = 20;

/// How many redirects a download follows.
pub const MAX_REDIRECTS: usize = 5;

/// Why a feed could not be downloaded.
#[derive(Debug)]
pub enum FetchError {
    /// The request failed, or its body is not UTF-8.
    Request(String),
    /// The body is larger than [`MAX_FEED_BYTES`].
    TooLarge,
    /// The server answered with a status other than success.
    BadStatus(u16),
}

impl FetchError {
    /// What is said of the error.
    pub open spec fn text(self) -> Seq<char> {
        match self {
            FetchError::Request(reason) => "request failed: "@ + reason@,
            FetchError::TooLarge => "response exceeded 5242880 bytes"@,
            FetchError::BadStatus(status) => "unexpected status: "@ + decimal(status as nat),
        }
    }

    /// What is said of the error.
    pub fn message(&self) -> (r: String)
        ensures
            r@ == self.text(),
    {
        match self {
            FetchError::Request(reason) => join("request failed: ", reason.as_str()),
            FetchError::TooLarge => "response exceeded 5242880 bytes".to_owned(),
            FetchError::BadStatus(status) => join(
                "unexpected status: ",
                decimal_text(*status as u32).as_str(),
            ),
        }
    }
}

/// What `std::string::FromUtf8Error` says of bytes that are not UTF-8.
pub uninterp spec fn utf8_complaint(bytes: Seq<u8>) -> Seq<char>;

/// Calls `String::from_utf8`: the text that the bytes encode if they are UTF-8,
/// otherwise what its error says of them, which is a function of the bytes
/// alone.
#[verifier::external_body]
fn text_from_utf8(bytes: Vec<u8>) -> (r: Result<String, String>)
    ensures
        match r {
            Ok(text) => valid_utf8(bytes@) && text@ == decode_utf8(bytes@),
            Err(complaint) => !valid_utf8(bytes@) && complaint@ == utf8_complaint(bytes@),
        },
{
    String::from_utf8(bytes).map_err(|error| error.to_string())
}

/// A download under way: what has been received of the body, never more than
/// [`MAX_FEED_BYTES`].
#[derive(Debug)]
pub struct FeedDownload {
    body: Vec<u8>,
}

impl View for FeedDownload {
    type V = Seq<u8>;

    closed spec fn view(&self) -> Seq<u8> {
        self.body@
    }
}

/// What a downloaded body comes to: its text if it is UTF-8.
pub open spec fn is_feed_text(r: Result<String, FetchError>, body: Seq<u8>) -> bool {
    match r {
        Ok(text) => valid_utf8(body) && text@ == decode_utf8(body),
        Err(FetchError::Request(reason)) => !valid_utf8(body) && reason@ == utf8_complaint(body),
        Err(_) => false,
    }
}

impl FeedDownload {
    #[verifier::type_invariant]
    spec fn within_cap(self) -> bool {
        self.body@.len() <= MAX_FEED_BYTES
    }

    /// Starts a download, unless the server did not answer with success.
    pub fn start(status: u16) -> (r: Result<FeedDownload, FetchError>)
        ensures
            match r {
                Ok(download) => 200 <= status <= 299 && download@ == Seq::<u8>::empty(),
                Err(error) => !(200 <= status <= 299) && error == FetchError::BadStatus(status),
            },
    {
        if 200 <= status && status <= 299 {
            Ok(FeedDownload { body: Vec::new() })
        } else {
            Err(FetchError::BadStatus(status))
        }
    }

    /// Takes in the next piece of the body, unless it would grow past the cap.
    pub fn receive(self, chunk: &[u8]) -> (r: Result<FeedDownload, FetchError>)
        ensures
            match r {
                Ok(download) => self@.len() + chunk@.len() <= MAX_FEED_BYTES && download@ == self@
                    + chunk@,
                Err(error) => self@.len() + chunk@.len() > MAX_FEED_BYTES && error
                    == FetchError::TooLarge,
            },
    {
        proof {
            use_type_invariant(&self);
        }
        if chunk.len() > MAX_FEED_BYTES - self.body.len() {
            return Err(FetchError::TooLarge);
        }
        let mut body = self.body;
        let ghost before = body@;
        body.extend_from_slice(chunk);
        assert(body@ =~= before + chunk@);
        Ok(FeedDownload { body })
    }

    /// Ends the download and reads its body as text.
    pub fn finish(self) -> (r: Result<String, FetchError>)
        ensures
            is_feed_text(r, self@),
    {
        match text_from_utf8(self.body) {
            Ok(text) => Ok(text),
            Err(complaint) => Err(FetchError::Request(complaint)),
        }
    }
}

/// What a download holds after the given pieces: nothing once one of them made
/// it grow past the cap.
pub open spec fn received(chunks: Seq<Seq<u8>>) -> Option<Seq<u8>>
    decreases chunks.len(),
{
    if chunks.len() == 0 {
        Some(Seq::empty())
    } else {
        match received(chunks.drop_last()) {
            None => None,
            Some(body) => if body.len() + chunks.last().len() <= MAX_FEED_BYTES {
                Some(body + chunks.last())
            } else {
                None
            },
        }
    }
}

/// However a body is cut into pieces, it is accepted exactly if it is no larger
/// than the cap, and then as a whole.
pub proof fn body_is_accepted_up_to_the_cap(chunks: Seq<Seq<u8>>)
    ensures
        received(chunks) == (if chunks.flatten().len() <= MAX_FEED_BYTES {
            Some(chunks.flatten())
        } else {
            None
        }),
    decreases chunks.len(),
{
    chunks.lemma_flatten_and_flatten_alt_are_equivalent();
    if chunks.len() == 0 {
        assert(chunks.flatten() =~= Seq::empty());
    } else {
        let fewer = chunks.drop_last();
        fewer.lemma_flatten_and_flatten_alt_are_equivalent();
        body_is_accepted_up_to_the_cap(fewer);
        assert(chunks.flatten() =~= fewer.flatten() + chunks.last());
    }
}

} // verus!
