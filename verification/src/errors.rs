//! Typed failures of the export pipeline.

use vstd::prelude::*;

verus! {

/// Every failure the library can return to a caller.
///
/// No variant is recoverable inside the library: a failed export call
/// returns one of these and emits no partial output.
#[derive(Clone, Debug, PartialEq)]
pub enum ThothError {
    /// A caller asked for a specification key that does not exist.
    /// Carries the offending key.
    InvalidMetadataSpecification(String),
    /// A work (or batch) failed a format's eligibility rule.
    /// Carries the specification name and a human-readable reason.
    IncompleteMetadataRecord(String, String),
    /// An underlying writer failed; carries a fixed diagnostic message.
    InternalError(String),
    /// A string did not name a series type.
    InvalidSeriesType(String),
    /// A string did not name a sortable field; carries the string and
    /// the entity whose field list was searched.
    SortFieldError(String, String),
    /// A string did not match any variant of a closed enumeration.
    VariantNotFound,
    /// A string is not a valid DOI.
    InvalidDoi(String),
    /// A string is not a valid ISBN-13.
    InvalidIsbn(String),
    /// A string is not a valid ORCID identifier.
    InvalidOrcid(String),
    /// A string is not a valid ROR identifier.
    InvalidRor(String),
}

impl ThothError {
    /// The user-visible description of the failure.
    pub fn message(&self) -> (r: String)
        ensures
            r@ == self.spec_message(),
    {
        match self {
            ThothError::InvalidMetadataSpecification(s) => {
                let mut m = s.clone();
                m.append(" is not a valid metadata specification");
                m
            },
            ThothError::IncompleteMetadataRecord(spec, reason) => {
                let mut m = String::from_str("Could not generate ");
                m.append(spec.as_str());
                m.append(": ");
                m.append(reason.as_str());
                m
            },
            ThothError::InternalError(s) => {
                let mut m = String::from_str("Internal error: ");
                m.append(s.as_str());
                m
            },
            ThothError::InvalidSeriesType(s) => {
                let mut m = s.clone();
                m.append(" is not a valid series type");
                m
            },
            ThothError::SortFieldError(s, entity) => {
                let mut m = s.clone();
                m.append(" is not a valid field for entity ");
                m.append(entity.as_str());
                m
            },
            ThothError::VariantNotFound => String::from_str("Matching variant not found"),
            ThothError::InvalidDoi(s) => {
                let mut m = s.clone();
                m.append(" is not a valid DOI");
                m
            },
            ThothError::InvalidIsbn(s) => {
                let mut m = s.clone();
                m.append(" is not a valid ISBN");
                m
            },
            ThothError::InvalidOrcid(s) => {
                let mut m = s.clone();
                m.append(" is not a valid ORCID ID");
                m
            },
            ThothError::InvalidRor(s) => {
                let mut m = s.clone();
                m.append(" is not a valid ROR ID");
                m
            },
        }
    }

    /// What `message` returns, variant by variant.
    pub open spec fn spec_message(&self) -> Seq<char> {
        match self {
            ThothError::InvalidMetadataSpecification(s) => s@
                + " is not a valid metadata specification"@,
            ThothError::IncompleteMetadataRecord(spec, reason) => "Could not generate "@ + spec@
                + ": "@ + reason@,
            ThothError::InternalError(s) => "Internal error: "@ + s@,
            ThothError::InvalidSeriesType(s) => s@ + " is not a valid series type"@,
            ThothError::SortFieldError(s, entity) => s@ + " is not a valid field for entity "@
                + entity@,
            ThothError::VariantNotFound => "Matching variant not found"@,
            ThothError::InvalidDoi(s) => s@ + " is not a valid DOI"@,
            ThothError::InvalidIsbn(s) => s@ + " is not a valid ISBN"@,
            ThothError::InvalidOrcid(s) => s@ + " is not a valid ORCID ID"@,
            ThothError::InvalidRor(s) => s@ + " is not a valid ROR ID"@,
        }
    }
}

} // verus!
