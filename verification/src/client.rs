//! Classification of generation-call outcomes.
//!
//! The network call itself happens outside the library; what comes back —
//! a transport failure, an HTTP status with a body, or a reply that did
//! or did not parse — is classified here into a uniform upstream error
//! with a human-readable message, or passed on as the list of candidate
//! texts. Malformed replies are a recoverable request failure on every
//! path, and an empty candidate list is rejected by an explicit bounds
//! check rather than trusted.

use vstd::prelude::*;

use crate::encode::{dec_of, dec_u32};

verus! {

/// A failure of one generation call, in the upstream taxonomy: the
/// transport failed, the endpoint answered with a non-success status, or
/// the reply body was unusable.
#[derive(Debug)]
pub enum UpstreamError {
    /// Connection, DNS or TLS failure; carries the transport's own text.
    Transport(String),
    /// Non-success HTTP status from the endpoint; the body is discarded.
    Protocol(u16),
    /// The reply body could not be read or did not parse into the
    /// expected shape; carries the cause text.
    Malformed(String),
}

/// The human-readable message of an upstream error.
pub open spec fn error_message_spec(e: UpstreamError) -> Seq<char> {
    match e {
        UpstreamError::Transport(cause) => "Failed to call Gemini API: "@ + cause@,
        UpstreamError::Protocol(status) => "Gemini API returned error: "@ + dec_of(status as int),
        UpstreamError::Malformed(cause) => "Failed to parse Gemini API response: "@ + cause@,
    }
}

impl UpstreamError {
    /// Renders the error's message.
    pub fn message(&self) -> (m: String)
        ensures
            m@ == error_message_spec(*self),
    {
        match self {
            UpstreamError::Transport(cause) => {
                let mut m = String::from_str("Failed to call Gemini API: ");
                m.append(cause.as_str());
                m
            },
            UpstreamError::Protocol(status) => {
                let mut m = String::from_str("Gemini API returned error: ");
                let digits = dec_u32(*status as u32);
                m.append(digits.as_str());
                m
            },
            UpstreamError::Malformed(cause) => {
                let mut m = String::from_str("Failed to parse Gemini API response: ");
                m.append(cause.as_str());
                m
            },
        }
    }
}

/// Whether an HTTP status is a success in the sense the upstream contract
/// uses: the 2xx range.
pub open spec fn is_success_status(status: u16) -> bool {
    200 <= status < 300
}

/// Decides what a returned HTTP status means: success lets the reply body
/// be used; anything else is a protocol failure carrying that status.
pub fn classify_status(status: u16) -> (r: Result<(), UpstreamError>)
    ensures
        is_success_status(status) <==> r is Ok,
        !is_success_status(status) ==> r == Result::<(), UpstreamError>::Err(
            UpstreamError::Protocol(status),
        ),
{
    if 200 <= status && status < 300 {
        Ok(())
    } else {
        Err(UpstreamError::Protocol(status))
    }
}

/// The cause text of the defensive bounds check on an empty candidate
/// list.
pub open spec fn no_candidates_cause() -> Seq<char> {
    "no candidates in reply"@
}

/// Picks the text of the first candidate of a reply, or rejects a reply
/// without candidates as malformed.
pub fn first_candidate(candidates: &Vec<String>) -> (r: Result<String, UpstreamError>)
    ensures
        candidates.deep_view().len() > 0 ==> (r matches Ok(t) && t@ == candidates.deep_view()[0]),
        candidates.deep_view().len() == 0 ==> (r matches Err(e) && (e matches
            UpstreamError::Malformed(cause) && cause@ == no_candidates_cause())),
{
    if candidates.len() == 0 {
        Err(UpstreamError::Malformed(String::from_str("no candidates in reply")))
    } else {
        Ok(candidates[0].clone())
    }
}

} // verus!
