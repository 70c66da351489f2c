//! Canonical forms of URLs for deduplication.
//!
//! A URL is rewritten by five ordered rules (scheme, host alias, tracking
//! parameters, fragment, trailing slash); a batch keeps the first input of
//! each canonical form.
pub mod batch;
pub mod normalizer;
pub mod rules;
pub mod url_ops;

pub use batch::BatchStats;
pub use normalizer::UrlNormalizer;
