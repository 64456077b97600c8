//! A client for OpenAI-compatible speech-transcription endpoints: encodes
//! audio as an in-memory WAV file, prepares the multipart request and
//! interprets the service's answer.
pub mod error;
pub mod request;
pub mod response;
pub mod wav;
