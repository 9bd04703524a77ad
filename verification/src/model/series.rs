//! The series table's enumerations: kind and sort field.

use vstd::prelude::*;

use crate::errors::ThothError;
use crate::model::ordering::Direction;
use crate::text::str_eq;

verus! {

/// The kind of series.
#[derive(Clone, Debug, PartialEq)]
pub enum SeriesType {
    Journal,
    BookSeries,
}

impl SeriesType {
    /// The display string of the variant.
    pub open spec fn spec_to_str(self) -> Seq<char> {
        match self {
            SeriesType::Journal => "Journal"@,
            SeriesType::BookSeries => "Book Series"@,
        }
    }

    /// Renders the display string.
    pub fn to_str(&self) -> (r: &'static str)
        ensures
            r@ == self.spec_to_str(),
    {
        match self {
            SeriesType::Journal => "Journal",
            SeriesType::BookSeries => "Book Series",
        }
    }

    /// The variant a string names, if any.
    pub open spec fn spec_from_str(s: Seq<char>) -> Option<SeriesType> {
        if s == "Journal"@ {
            Option::Some(SeriesType::Journal)
        } else if s == "Book Series"@ {
            Option::Some(SeriesType::BookSeries)
        } else {
            Option::None
        }
    }

    /// Parses a display string; unknown strings are refused.
    pub fn from_str(input: &str) -> (r: Result<SeriesType, ThothError>)
        ensures
            (match Self::spec_from_str(input@) {
                Option::Some(v) => r matches Ok(x) && x == v,
                Option::None => r matches Err(e) && e matches ThothError::InvalidSeriesType(k) && k@ == input@,
            }),
    {
        if str_eq(input, "Journal") {
            Ok(SeriesType::Journal)
        } else if str_eq(input, "Book Series") {
            Ok(SeriesType::BookSeries)
        } else {
            Err(ThothError::InvalidSeriesType(input.to_owned()))
        }
    }
}

impl Default for SeriesType {
    /// The default variant: `BookSeries`.
    fn default() -> (r: SeriesType)
        ensures
            r == SeriesType::BookSeries,
    {
        SeriesType::BookSeries
    }
}
/// A sortable column of the series list.
#[derive(Clone, Debug, PartialEq)]
pub enum SeriesField {
    SeriesID,
    SeriesType,
    SeriesName,
    ISSNPrint,
    ISSNDigital,
    SeriesURL,
    CreatedAt,
    UpdatedAt,
}

impl SeriesField {

    /// The variant a string names, if any.
    pub open spec fn spec_from_str(s: Seq<char>) -> Option<SeriesField> {
        if s == "ID"@ {
            Option::Some(SeriesField::SeriesID)
        } else if s == "Series"@ {
            Option::Some(SeriesField::SeriesName)
        } else if s == "SeriesType"@ {
            Option::Some(SeriesField::SeriesType)
        } else if s == "ISSNPrint"@ {
            Option::Some(SeriesField::ISSNPrint)
        } else if s == "ISSNDigital"@ {
            Option::Some(SeriesField::ISSNDigital)
        } else if s == "Updated"@ {
            Option::Some(SeriesField::UpdatedAt)
        } else {
            Option::None
        }
    }

    /// Parses a display string; unknown strings are refused.
    pub fn from_str(input: &str) -> (r: Result<SeriesField, ThothError>)
        ensures
            (match Self::spec_from_str(input@) {
                Option::Some(v) => r matches Ok(x) && x == v,
                Option::None => r matches Err(e) && e matches ThothError::SortFieldError(k, ent) && k@ == input@ && ent@ == "Series"@,
            }),
    {
        if str_eq(input, "ID") {
            Ok(SeriesField::SeriesID)
        } else if str_eq(input, "Series") {
            Ok(SeriesField::SeriesName)
        } else if str_eq(input, "SeriesType") {
            Ok(SeriesField::SeriesType)
        } else if str_eq(input, "ISSNPrint") {
            Ok(SeriesField::ISSNPrint)
        } else if str_eq(input, "ISSNDigital") {
            Ok(SeriesField::ISSNDigital)
        } else if str_eq(input, "Updated") {
            Ok(SeriesField::UpdatedAt)
        } else {
            Err(ThothError::SortFieldError(input.to_owned(), String::from_str("Series")))
        }
    }
}

impl Default for SeriesField {
    /// The default variant: `SeriesName`.
    fn default() -> (r: SeriesField)
        ensures
            r == SeriesField::SeriesName,
    {
        SeriesField::SeriesName
    }
}
/// A field and direction to sort the series list by.
#[derive(Clone, Debug, PartialEq)]
pub struct SeriesOrderBy {
    pub field: SeriesField,
    pub direction: Direction,
}

impl Default for SeriesOrderBy {
    /// The default order: by series name, ascending.
    fn default() -> (r: SeriesOrderBy)
        ensures
            r == (SeriesOrderBy { field: SeriesField::SeriesName, direction: Direction::Asc }),
    {
        SeriesOrderBy { field: SeriesField::SeriesName, direction: Direction::Asc }
    }
}

/// The closed list of series kinds, as the editing forms fetch it.
#[derive(Clone, Debug, PartialEq)]
pub struct SeriesTypeDefinition {
    pub enum_values: Vec<SeriesTypeValues>,
}

/// One entry of the series-kind list.
#[derive(Clone, Debug, PartialEq)]
pub struct SeriesTypeValues {
    pub name: SeriesType,
}

} // verus!
