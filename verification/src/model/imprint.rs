//! The imprint table's sort fields and ordering.

use vstd::prelude::*;

use crate::errors::ThothError;
use crate::model::ordering::Direction;
use crate::text::str_eq;

verus! {

/// A sortable column of the imprints list.
#[derive(Clone, Debug, PartialEq)]
pub enum ImprintField {
    ImprintId,
    ImprintName,
    ImprintUrl,
    CreatedAt,
    UpdatedAt,
}

impl ImprintField {
    /// The display string of the variant.
    pub open spec fn spec_to_str(self) -> Seq<char> {
        match self {
            ImprintField::ImprintId => "ID"@,
            ImprintField::ImprintName => "Imprint"@,
            ImprintField::ImprintUrl => "ImprintURL"@,
            ImprintField::CreatedAt => "CreatedAt"@,
            ImprintField::UpdatedAt => "UpdatedAt"@,
        }
    }

    /// Renders the display string.
    pub fn to_str(&self) -> (r: &'static str)
        ensures
            r@ == self.spec_to_str(),
    {
        match self {
            ImprintField::ImprintId => "ID",
            ImprintField::ImprintName => "Imprint",
            ImprintField::ImprintUrl => "ImprintURL",
            ImprintField::CreatedAt => "CreatedAt",
            ImprintField::UpdatedAt => "UpdatedAt",
        }
    }

    /// The variant a string names, if any.
    pub open spec fn spec_from_str(s: Seq<char>) -> Option<ImprintField> {
        if s == "ID"@ {
            Option::Some(ImprintField::ImprintId)
        } else if s == "Imprint"@ {
            Option::Some(ImprintField::ImprintName)
        } else if s == "ImprintURL"@ {
            Option::Some(ImprintField::ImprintUrl)
        } else if s == "CreatedAt"@ {
            Option::Some(ImprintField::CreatedAt)
        } else if s == "UpdatedAt"@ {
            Option::Some(ImprintField::UpdatedAt)
        } else {
            Option::None
        }
    }

    /// Parses a display string; unknown strings are refused.
    pub fn from_str(input: &str) -> (r: Result<ImprintField, ThothError>)
        ensures
            (match Self::spec_from_str(input@) {
                Option::Some(v) => r matches Ok(x) && x == v,
                Option::None => r matches Err(e) && e is VariantNotFound,
            }),
    {
        if str_eq(input, "ID") {
            Ok(ImprintField::ImprintId)
        } else if str_eq(input, "Imprint") {
            Ok(ImprintField::ImprintName)
        } else if str_eq(input, "ImprintURL") {
            Ok(ImprintField::ImprintUrl)
        } else if str_eq(input, "CreatedAt") {
            Ok(ImprintField::CreatedAt)
        } else if str_eq(input, "UpdatedAt") {
            Ok(ImprintField::UpdatedAt)
        } else {
            Err(ThothError::VariantNotFound)
        }
    }
}

impl Default for ImprintField {
    /// The default variant: `ImprintName`.
    fn default() -> (r: ImprintField)
        ensures
            r == ImprintField::ImprintName,
    {
        ImprintField::ImprintName
    }
}
/// A field and direction to sort the imprints list by.
#[derive(Clone, Debug, PartialEq)]
pub struct ImprintOrderBy {
    pub field: ImprintField,
    pub direction: Direction,
}

impl Default for ImprintOrderBy {
    /// The default order: by imprint name, ascending.
    fn default() -> (r: ImprintOrderBy)
        ensures
            r == (ImprintOrderBy { field: ImprintField::ImprintName, direction: Direction::Asc }),
    {
        ImprintOrderBy { field: ImprintField::ImprintName, direction: Direction::Asc }
    }
}

} // verus!
