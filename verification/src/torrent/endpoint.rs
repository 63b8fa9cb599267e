//! The answer of the endpoint that serves the magnet link.

use vstd::prelude::*;
use crate::text::{debug_form, decimal, decimal_text, quoted, starts_with};

verus! {

/// The endpoint. It answers `{"magnet": "<magnet-uri>"}`.
pub const TORRENT_ENDPOINT: &'static str = "https://www.stegall.me/ffxiv/1.0/patches/torrent";

/// How long a request may take, in seconds.
pub const REQUEST_TIMEOUT_SECS: u64 = 10;

/// Why there is no magnet link.
#[derive(Debug, PartialEq, Eq)]
pub enum MagnetFetchError {
    Transport(String),
    Malformed(String),
}

impl MagnetFetchError {
    /// The text of the error.
    pub open spec fn text(self) -> Seq<char> {
        match self {
            MagnetFetchError::Transport(
                e,
            ) => "could not reach the patch distribution endpoint: "@ + e@,
            MagnetFetchError::Malformed(
                e,
            ) => "patch distribution endpoint returned a malformed response: "@ + e@,
        }
    }

    /// The text of the error.
    pub fn message(&self) -> (r: String)
        ensures
            r@ == self.text(),
    {
        match self {
            MagnetFetchError::Transport(e) => {
                let mut out: String =
                    "could not reach the patch distribution endpoint: ".to_owned();
                out.append(e.as_str());
                out
            },
            MagnetFetchError::Malformed(e) => {
                let mut out: String =
                    "patch distribution endpoint returned a malformed response: ".to_owned();
                out.append(e.as_str());
                out
            },
        }
    }

    /// Whether this is a malformed answer with the given reason.
    pub open spec fn is_malformed(self, reason: Seq<char>) -> bool {
        self is Malformed && self->Malformed_0@ == reason
    }
}

/// What the endpoint answered.
#[derive(Debug, PartialEq, Eq)]
pub enum MagnetReply {
    /// A status that is no success.
    Status(u16),
    /// No answer.
    Transport(String),
    /// An answer that is not the JSON that it must be.
    InvalidJson(String),
    /// The value of `magnet`.
    Decoded(String),
}

/// The error for a `magnet` value that is no magnet link; the value comes in quotes.
pub fn not_a_magnet(quoted_value: &str) -> (r: MagnetFetchError)
    ensures
        r.is_malformed("expected a magnet: URI, got "@ + quoted_value@),
{
    let mut reason: String = "expected a magnet: URI, got ".to_owned();
    reason.append(quoted_value);
    MagnetFetchError::Malformed(reason)
}

/// The magnet link out of the endpoint's answer.
pub fn fetch_magnet(reply: MagnetReply) -> (r: Result<String, MagnetFetchError>)
    ensures
        match reply {
            MagnetReply::Status(code) => r is Err && r->Err_0.is_malformed(
                "HTTP "@ + decimal(code as nat),
            ),
            MagnetReply::Transport(e) => r == Err::<String, _>(MagnetFetchError::Transport(e)),
            MagnetReply::InvalidJson(e) => r is Err && r->Err_0.is_malformed(
                "invalid JSON: "@ + e@,
            ),
            MagnetReply::Decoded(magnet) => if "magnet:"@.is_prefix_of(magnet@) {
                r == Ok::<_, MagnetFetchError>(magnet)
            } else {
                r is Err && r->Err_0.is_malformed(
                    "expected a magnet: URI, got "@ + debug_form(magnet@),
                )
            },
        },
{
    match reply {
        MagnetReply::Status(code) => {
            let mut reason: String = "HTTP ".to_owned();
            reason.append(decimal_text(code as u64).as_str());
            Err(MagnetFetchError::Malformed(reason))
        },
        MagnetReply::Transport(e) => Err(MagnetFetchError::Transport(e)),
        MagnetReply::InvalidJson(e) => {
            let mut reason: String = "invalid JSON: ".to_owned();
            reason.append(e.as_str());
            Err(MagnetFetchError::Malformed(reason))
        },
        MagnetReply::Decoded(magnet) => {
            if starts_with(magnet.as_str(), "magnet:") {
                Ok(magnet)
            } else {
                Err(not_a_magnet(quoted(magnet.as_str()).as_str()))
            }
        },
    }
}

/// What is said of a magnet link that there is not.
pub proof fn law_magnet_errors_are_told(error: MagnetFetchError, e: String, reason: Seq<char>)
    ensures
        MagnetFetchError::Transport(e).text()
            == "could not reach the patch distribution endpoint: "@ + e@,
        MagnetFetchError::Malformed(e).text()
            == "patch distribution endpoint returned a malformed response: "@ + e@,
        error.is_malformed(reason) ==> error.text()
            == "patch distribution endpoint returned a malformed response: "@ + reason,
{
}

} // verus!
