//! A stream-to-terminal rendering core for generative-model output.
//!
//! Token fragments arrive one at a time. Inline markers (`<think>` /
//! `</think>`) switch the stream between a transient, width-truncated
//! "reasoning" display and a permanent, verbatim "answer" display. The
//! classifier detects the markers as suffixes of a rolling buffer (so a
//! marker split across fragments is still found), and the renderer turns
//! each classified fragment into a short list of terminal operations.

pub mod classify;
pub mod prompt;
pub mod render;
pub mod text;
pub mod truncate;
