//! The publisher table's sort fields and the shape of a new publisher.

use vstd::prelude::*;

verus! {

/// A sortable column of the publishers list.
#[derive(Clone, Debug, PartialEq)]
pub enum PublisherField {
    PublisherID,
    PublisherName,
    PublisherShortname,
    PublisherURL,
    CreatedAt,
    UpdatedAt,
}

impl PublisherField {
}
/// The data a new publisher record is created from.
#[derive(Clone, Debug, PartialEq)]
pub struct NewPublisher {
    pub publisher_name: String,
    pub publisher_shortname: Option<String>,
    pub publisher_url: Option<String>,
}

} // verus!
