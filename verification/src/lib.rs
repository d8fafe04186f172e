//! The decisions of a small front-end over the `conda` command line tool.
//!
//! The front-end starts `conda`, reads what it wrote and shows a summary: the
//! environments it manages, or the packages of one environment. This crate
//! holds everything such a front-end decides. It never starts a process,
//! reads a stream or prints: a caller does that and hands over plain values.
//!
//! - [`text`]: decimal numbers and the text helpers the other modules share.
//! - [`error`]: the failures a run can end in, their messages and hints.
//! - [`runner`]: the command lines to run and the classification of what
//!   came back.
//! - [`presenter`]: the lines and the table shown for a successful run.

pub mod error;
pub mod presenter;
pub mod runner;
pub mod text;
