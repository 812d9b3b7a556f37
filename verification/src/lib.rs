//! Decisions of a tool that copies the audio files of a directory tree whose
//! playing time lies in a given range of milliseconds.
//!
//! The crate computes and decides; it neither reads nor writes a file. A
//! caller performs each [`pipeline::Action`] on the file system and reports
//! what happened as an [`pipeline::Event`].

pub mod dialogue;
pub mod duration;
pub mod error;
pub mod path;
pub mod pipeline;
pub mod range;
pub mod report;
