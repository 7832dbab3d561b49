//! Conversion of OData CSDL metadata documents into CDS schema text.
//!
//! The crate is organised as a small pipeline: a tag source yields open/close
//! events for the handful of CSDL elements that matter (`tags`), a state
//! machine folds those events into a data model of entities and fields
//! (`parser`), an EDM type mapper and a deterministic renderer turn that model
//! into the final CDS text (`cds`). `xml_source` adapts a real XML reader to
//! the tag-event interface.

pub mod cds;
pub mod error;
pub mod parser;
pub mod tags;
pub mod text;
pub mod xml_source;
