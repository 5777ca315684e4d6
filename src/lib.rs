//! Feed-to-document pipeline: entries of a syndication feed are classified,
//! their markup converted to Markdown, and each result routed to an output
//! file or to a missing-content record.

pub mod convert;
pub mod feed;
pub mod classify;
pub mod laws;
pub mod markup;
pub mod persist;
pub mod run;
pub mod xml;
