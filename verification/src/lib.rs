//! Grading of exam submissions.
//!
//! The multiple-choice section is scored against a fixed answer key. Each
//! written answer is graded by a provider that is asked over the network,
//! with a second provider to fall back on; its reply is read leniently into
//! feedback. Both are merged into the result of the submission, and the
//! submission moves from pending over in progress to completed or failed.
//!
//! The library makes no request and stores nothing outside memory. Where
//! such work is due, it names the next step and takes what the step gave.
//! Scores are held exactly, in thousandths of a mark.

use vstd::prelude::*;

pub mod aggregate;
pub mod ai;
pub mod assoc;
pub mod config;
pub mod decimal;
pub mod error;
pub mod feedback;
pub mod grading;
pub mod health;
pub mod json;
pub mod models;
pub mod pdf;
pub mod reporting;
pub mod repository;
pub mod scoring;
pub mod storage;
pub mod submissions;
pub mod system;
pub mod text;
