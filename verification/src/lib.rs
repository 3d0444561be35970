//! Finds out when a Homebrew installation last refreshed its core tap.
//!
//! The library holds the decisions and the text extraction: what each
//! subprocess outcome means, how the captured configuration text is decoded,
//! and how the label line and the timestamp on it are located. Running the
//! subprocesses is left to the caller, who reports each outcome as a
//! [`command::CommandOutcome`].

pub mod error;
pub mod matching;
pub mod decode;
pub mod extract;
pub mod command;
