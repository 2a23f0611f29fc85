//! Why a decoded-audio source stops producing audio.

use vstd::prelude::*;
use vstd::string::*;

verus! {

/// Why a PCM source stopped producing audio.
#[derive(Debug, PartialEq, Eq)]
pub enum PcmError {
    /// Transient: the stream/connection ended or hit a read error. For a live
    /// stream the player reconnects (with backoff); for a one-shot it stops.
    Ended,
    /// Permanent: unrecoverable for this stream (e.g. an unsupported codec, or a
    /// malformed playlist). Reconnecting would fail identically, so the player
    /// stops and surfaces the message to the user.
    Permanent(String),
}

/// The message shown for an error.
pub open spec fn pcm_error_message(e: PcmError) -> Seq<char> {
    match e {
        PcmError::Ended => "stream ended"@,
        PcmError::Permanent(m) => m@,
    }
}

impl PcmError {
    /// The user-facing message: "stream ended", or the permanent error's text.
    pub fn message(&self) -> (m: String)
        ensures
            m@ == pcm_error_message(*self),
    {
        match self {
            PcmError::Ended => String::from_str("stream ended"),
            PcmError::Permanent(m) => m.clone(),
        }
    }
}

} // verus!
