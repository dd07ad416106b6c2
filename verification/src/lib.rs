//! Core of a catalog mirroring tool: it diffs a remote film catalog against a
//! local relational store, normalizes fetched records into that store, and
//! drives a resumable download lifecycle for entries that lack a completed
//! local artifact.
//!
//! The store itself is modeled here as verified in-memory tables; opening a
//! database file, HTTP transport and subprocess handling live outside the
//! library and talk to it through plain values.

pub mod cli;
pub mod clock;
pub mod database;
pub mod download;
pub mod error;
pub mod laws;
pub mod record;
pub mod sync;
pub mod xsrf;
