//! What can go wrong in one transcription call.
use vstd::prelude::*;

verus! {

/// An input rejected before any work is done.
#[derive(Debug, Clone, Copy, PartialEq, Eq, Structural)]
pub enum InputError {
    /// The audio sequence is empty.
    NoAudio,
    /// The API key is empty.
    NoApiKey,
}

/// Every way a transcription call fails. None of them is retried.
#[derive(Debug)]
pub enum TranscribeError {
    /// An argument was rejected before any network activity.
    Input(InputError),
    /// The WAV writer could not produce the file.
    Encoding,
    /// The API key holds characters that an HTTP header value cannot carry.
    Header,
    /// The HTTP client could not be built, or the request could not be
    /// sent or completed; the text describes the failure.
    Transport(String),
    /// The service answered with a non-success status.
    Api { status: u16, message: String },
    /// The service reported success but its body was not the expected JSON.
    ResponseParse(String),
}

} // verus!
