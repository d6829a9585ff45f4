//! Extracts the link targets of an HTML fragment: the `href` of each element
//! that a CSS selector matches, first occurrences only, optionally prefixed
//! by a base.

pub mod model;
pub mod format;
pub mod html;
pub mod input;
pub mod seen;
pub mod dedup;
pub mod pipeline;
pub mod laws;
