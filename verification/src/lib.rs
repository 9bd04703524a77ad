//! Verified export pipeline for bibliographic metadata.
//!
//! A fully populated `Work` aggregate (a title with its publications,
//! contributions, languages, issues, subjects and fundings) is serialized
//! into industry interchange formats: two ONIX XML dialects and a CSV
//! dialect.  The tree walks, code tables, eligibility rules and cell
//! serialization are verified; the XML emitter and the CSV quoting engine
//! of the underlying crates stand behind small trusted wrappers.
//!
//! The pieces, bottom up: [`text`] holds the verified string building
//! blocks and [`seq_util`] one shared sequence fact; [`model`] the
//! value types of the data model (identifiers, dates, closed
//! enumerations with their display strings and sort fields); [`client`]
//! the work aggregate as the exporter consumes it; [`csv_writer`] and
//! [`xml_writer`] the two trusted sinks with their written-text models;
//! [`publication_data`] what the walks read off a publication list;
//! [`onix_codes`] the shared ONIX code tables; [`csv_thoth`],
//! [`onix21_ebsco_host`] and [`onix3_project_muse`] the three dialects;
//! and [`record`] the dispatch facade over them.

pub mod client;
pub mod csv_thoth;
pub mod csv_writer;
pub mod errors;
pub mod model;
pub mod onix21_ebsco_host;
pub mod onix3_project_muse;
pub mod onix_codes;
pub mod publication_data;
pub mod record;
pub mod seq_util;
pub mod text;
pub mod xml_writer;

pub use errors::ThothError;
