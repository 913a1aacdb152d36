//! A verified image-catalog pipeline: classify candidate files by extension,
//! extract filesystem / decode / capture metadata from their bytes, fold in a
//! description and keyword list parsed from an enrichment service's reply, and
//! append the resulting records to a relational store.
//!
//! The decoding, encoding and storage engines themselves are outside crates,
//! reached through small trusted wrappers; everything the pipeline decides —
//! filtering, splitting, record shaping, counting, error isolation — is
//! verified against the contracts stated here.

pub mod enrich;
pub mod extract;
pub mod filter;
pub mod record;
pub mod scan;
pub mod store;
