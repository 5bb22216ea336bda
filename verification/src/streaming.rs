//! Decisions of the quote-streaming loop.
//!
//! The WebSocket connection, subscription and receive loop run with the
//! async runner; each incoming frame is reported here and answered with
//! what the loop must do: decode and handle a text frame, stop on a close,
//! fail on a transport error, ignore the rest.

use vstd::prelude::*;

use crate::config_payload::{b64_standard_decoded, b64_decode};
use crate::errors::NgError;

verus! {

/// One frame, or fault, of the quote stream.
pub enum StreamEvent {
    /// A text frame carrying a base64-encoded binary update.
    Text(String),
    /// The server closed the connection.
    Close,
    /// The transport failed.
    Failed(String),
    /// Any other frame kind.
    Other,
}

/// What the streaming loop must do with one event.
#[derive(Debug)]
pub enum StreamAction {
    /// Decode the text as base64 and hand the bytes to the data handler.
    Decode(String),
    /// Stop the loop normally.
    Stop,
    /// Abort the loop with the error.
    Fail(NgError),
    /// Ignore the frame.
    Ignore,
}

/// The streaming loop's decision for one event.
pub fn stream_step(ev: StreamEvent) -> (r: StreamAction)
    ensures
        match ev {
            StreamEvent::Text(t) => r == StreamAction::Decode(t),
            StreamEvent::Close => r is Stop,
            StreamEvent::Failed(m) => (r matches StreamAction::Fail(NgError::InternalError(e))
                && e@ == m@),
            StreamEvent::Other => r is Ignore,
        },
{
    match ev {
        StreamEvent::Text(t) => StreamAction::Decode(t),
        StreamEvent::Close => StreamAction::Stop,
        StreamEvent::Failed(m) => StreamAction::Fail(NgError::InternalError(m)),
        StreamEvent::Other => StreamAction::Ignore,
    }
}

/// The binary update carried by a text frame, when the frame is valid
/// base64.
pub fn decode_stream_frame(text: &str) -> (r: Option<Vec<u8>>)
    ensures
        r is Some <==> b64_standard_decoded(text@) is Some,
        r matches Some(v) ==> b64_standard_decoded(text@) == Some(v@),
{
    b64_decode(text)
}

} // verus!
