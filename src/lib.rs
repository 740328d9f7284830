//! Decisions of a single-file video upload workflow: validating the input
//! path, interpreting the upload negotiation, judging the upload response and
//! driving the status poll until a playback URL appears or time runs out.
//!
//! The network, the file system and the clock stay with the caller: each
//! function here takes what the caller observed and says what happens next.

pub mod error;
pub mod json;
pub mod media;
pub mod validate;
pub mod negotiate;
pub mod poll;
