//! The relational data model's value types: identifiers, dates, the
//! closed enumerations with their display strings, and the sort fields
//! of each record list.

pub mod contribution;
pub mod date;
pub mod identifiers;
pub mod imprint;
pub mod location;
pub mod ordering;
pub mod price;
pub mod publisher;
pub mod series;
pub mod work;

pub use date::{Date, TimeParts};
pub use identifiers::{Doi, Isbn, Orcid, Ror};
