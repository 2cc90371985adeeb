//! A personal site in three parts: a builder that renders the site's pages,
//! the rules by which the built files are served over HTTP, and a small
//! picker that draws one entry from a list of interests.
//!
//! Everything here computes on plain values. Reading templates, writing the
//! rendered files, and talking to the network are left to the program that
//! links this library.

pub mod builder;
pub mod interests;
pub mod serve;
pub mod startup;
