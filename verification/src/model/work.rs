//! The work table's enumerations: kind, status and sort field.

use vstd::prelude::*;

use crate::errors::ThothError;
use crate::model::ordering::Direction;
use crate::text::str_eq;

verus! {

/// The kind of publishable title.
#[derive(Clone, Debug, PartialEq)]
pub enum WorkType {
    BookChapter,
    Monograph,
    EditedBook,
    Textbook,
    JournalIssue,
    BookSet,
}

impl WorkType {
    /// The display string of the variant.
    pub open spec fn spec_to_str(self) -> Seq<char> {
        match self {
            WorkType::BookChapter => "Book Chapter"@,
            WorkType::Monograph => "Monograph"@,
            WorkType::EditedBook => "Edited Book"@,
            WorkType::Textbook => "Textbook"@,
            WorkType::JournalIssue => "Journal Issue"@,
            WorkType::BookSet => "Book Set"@,
        }
    }

    /// Renders the display string.
    pub fn to_str(&self) -> (r: &'static str)
        ensures
            r@ == self.spec_to_str(),
    {
        match self {
            WorkType::BookChapter => "Book Chapter",
            WorkType::Monograph => "Monograph",
            WorkType::EditedBook => "Edited Book",
            WorkType::Textbook => "Textbook",
            WorkType::JournalIssue => "Journal Issue",
            WorkType::BookSet => "Book Set",
        }
    }

    /// The variant a string names, if any.
    pub open spec fn spec_from_str(s: Seq<char>) -> Option<WorkType> {
        if s == "Book Chapter"@ {
            Option::Some(WorkType::BookChapter)
        } else if s == "Monograph"@ {
            Option::Some(WorkType::Monograph)
        } else if s == "Edited Book"@ {
            Option::Some(WorkType::EditedBook)
        } else if s == "Textbook"@ {
            Option::Some(WorkType::Textbook)
        } else if s == "Journal Issue"@ {
            Option::Some(WorkType::JournalIssue)
        } else if s == "Book Set"@ {
            Option::Some(WorkType::BookSet)
        } else {
            Option::None
        }
    }

    /// Parses a display string; unknown strings are refused.
    pub fn from_str(input: &str) -> (r: Result<WorkType, ThothError>)
        ensures
            (match Self::spec_from_str(input@) {
                Option::Some(v) => r matches Ok(x) && x == v,
                Option::None => r matches Err(e) && e is VariantNotFound,
            }),
    {
        if str_eq(input, "Book Chapter") {
            Ok(WorkType::BookChapter)
        } else if str_eq(input, "Monograph") {
            Ok(WorkType::Monograph)
        } else if str_eq(input, "Edited Book") {
            Ok(WorkType::EditedBook)
        } else if str_eq(input, "Textbook") {
            Ok(WorkType::Textbook)
        } else if str_eq(input, "Journal Issue") {
            Ok(WorkType::JournalIssue)
        } else if str_eq(input, "Book Set") {
            Ok(WorkType::BookSet)
        } else {
            Err(ThothError::VariantNotFound)
        }
    }
}

impl Default for WorkType {
    /// The default variant: `Monograph`.
    fn default() -> (r: WorkType)
        ensures
            r == WorkType::Monograph,
    {
        WorkType::Monograph
    }
}
/// The publishing status of a work.
#[derive(Clone, Debug, PartialEq)]
pub enum WorkStatus {
    Unspecified,
    Cancelled,
    Forthcoming,
    PostponedIndefinitely,
    Active,
    NoLongerOurProduct,
    OutOfStockIndefinitely,
    OutOfPrint,
    Inactive,
    Unknown,
    Remaindered,
    WithdrawnFromSale,
    Recalled,
}

impl WorkStatus {
    /// The display string of the variant.
    pub open spec fn spec_to_str(self) -> Seq<char> {
        match self {
            WorkStatus::Unspecified => "Unspecified"@,
            WorkStatus::Cancelled => "Cancelled"@,
            WorkStatus::Forthcoming => "Forthcoming"@,
            WorkStatus::PostponedIndefinitely => "Postponed Indefinitely"@,
            WorkStatus::Active => "Active"@,
            WorkStatus::NoLongerOurProduct => "No Longer Our Product"@,
            WorkStatus::OutOfStockIndefinitely => "Out Of Stock Indefinitely"@,
            WorkStatus::OutOfPrint => "Out Of Print"@,
            WorkStatus::Inactive => "Inactive"@,
            WorkStatus::Unknown => "Unknown"@,
            WorkStatus::Remaindered => "Remaindered"@,
            WorkStatus::WithdrawnFromSale => "Withdrawn From Sale"@,
            WorkStatus::Recalled => "Recalled"@,
        }
    }

    /// Renders the display string.
    pub fn to_str(&self) -> (r: &'static str)
        ensures
            r@ == self.spec_to_str(),
    {
        match self {
            WorkStatus::Unspecified => "Unspecified",
            WorkStatus::Cancelled => "Cancelled",
            WorkStatus::Forthcoming => "Forthcoming",
            WorkStatus::PostponedIndefinitely => "Postponed Indefinitely",
            WorkStatus::Active => "Active",
            WorkStatus::NoLongerOurProduct => "No Longer Our Product",
            WorkStatus::OutOfStockIndefinitely => "Out Of Stock Indefinitely",
            WorkStatus::OutOfPrint => "Out Of Print",
            WorkStatus::Inactive => "Inactive",
            WorkStatus::Unknown => "Unknown",
            WorkStatus::Remaindered => "Remaindered",
            WorkStatus::WithdrawnFromSale => "Withdrawn From Sale",
            WorkStatus::Recalled => "Recalled",
        }
    }

    /// The variant a string names, if any.
    pub open spec fn spec_from_str(s: Seq<char>) -> Option<WorkStatus> {
        if s == "Unspecified"@ {
            Option::Some(WorkStatus::Unspecified)
        } else if s == "Cancelled"@ {
            Option::Some(WorkStatus::Cancelled)
        } else if s == "Forthcoming"@ {
            Option::Some(WorkStatus::Forthcoming)
        } else if s == "Postponed Indefinitely"@ {
            Option::Some(WorkStatus::PostponedIndefinitely)
        } else if s == "Active"@ {
            Option::Some(WorkStatus::Active)
        } else if s == "No Longer Our Product"@ {
            Option::Some(WorkStatus::NoLongerOurProduct)
        } else if s == "Out Of Stock Indefinitely"@ {
            Option::Some(WorkStatus::OutOfStockIndefinitely)
        } else if s == "Out Of Print"@ {
            Option::Some(WorkStatus::OutOfPrint)
        } else if s == "Inactive"@ {
            Option::Some(WorkStatus::Inactive)
        } else if s == "Unknown"@ {
            Option::Some(WorkStatus::Unknown)
        } else if s == "Remaindered"@ {
            Option::Some(WorkStatus::Remaindered)
        } else if s == "Withdrawn From Sale"@ {
            Option::Some(WorkStatus::WithdrawnFromSale)
        } else if s == "Recalled"@ {
            Option::Some(WorkStatus::Recalled)
        } else {
            Option::None
        }
    }

    /// Parses a display string; unknown strings are refused.
    pub fn from_str(input: &str) -> (r: Result<WorkStatus, ThothError>)
        ensures
            (match Self::spec_from_str(input@) {
                Option::Some(v) => r matches Ok(x) && x == v,
                Option::None => r matches Err(e) && e is VariantNotFound,
            }),
    {
        if str_eq(input, "Unspecified") {
            Ok(WorkStatus::Unspecified)
        } else if str_eq(input, "Cancelled") {
            Ok(WorkStatus::Cancelled)
        } else if str_eq(input, "Forthcoming") {
            Ok(WorkStatus::Forthcoming)
        } else if str_eq(input, "Postponed Indefinitely") {
            Ok(WorkStatus::PostponedIndefinitely)
        } else if str_eq(input, "Active") {
            Ok(WorkStatus::Active)
        } else if str_eq(input, "No Longer Our Product") {
            Ok(WorkStatus::NoLongerOurProduct)
        } else if str_eq(input, "Out Of Stock Indefinitely") {
            Ok(WorkStatus::OutOfStockIndefinitely)
        } else if str_eq(input, "Out Of Print") {
            Ok(WorkStatus::OutOfPrint)
        } else if str_eq(input, "Inactive") {
            Ok(WorkStatus::Inactive)
        } else if str_eq(input, "Unknown") {
            Ok(WorkStatus::Unknown)
        } else if str_eq(input, "Remaindered") {
            Ok(WorkStatus::Remaindered)
        } else if str_eq(input, "Withdrawn From Sale") {
            Ok(WorkStatus::WithdrawnFromSale)
        } else if str_eq(input, "Recalled") {
            Ok(WorkStatus::Recalled)
        } else {
            Err(ThothError::VariantNotFound)
        }
    }
}

impl Default for WorkStatus {
    /// The default variant: `Inactive`.
    fn default() -> (r: WorkStatus)
        ensures
            r == WorkStatus::Inactive,
    {
        WorkStatus::Inactive
    }
}
/// A sortable column of the works list.
#[derive(Clone, Debug, PartialEq)]
pub enum WorkField {
    WorkId,
    WorkType,
    WorkStatus,
    FullTitle,
    Title,
    Subtitle,
    Reference,
    Edition,
    Doi,
    PublicationDate,
    Place,
    Width,
    Height,
    PageCount,
    PageBreakdown,
    ImageCount,
    TableCount,
    AudioCount,
    VideoCount,
    License,
    CopyrightHolder,
    LandingPage,
    Lccn,
    Oclc,
    ShortAbstract,
    LongAbstract,
    GeneralNote,
    Toc,
    CoverUrl,
    CoverCaption,
    CreatedAt,
    UpdatedAt,
}

impl WorkField {
    /// The display string of the variant.
    pub open spec fn spec_to_str(self) -> Seq<char> {
        match self {
            WorkField::WorkId => "ID"@,
            WorkField::WorkType => "Type"@,
            WorkField::WorkStatus => "WorkStatus"@,
            WorkField::FullTitle => "Title"@,
            WorkField::Title => "ShortTitle"@,
            WorkField::Subtitle => "Subtitle"@,
            WorkField::Reference => "Reference"@,
            WorkField::Edition => "Edition"@,
            WorkField::Doi => "DOI"@,
            WorkField::PublicationDate => "PublicationDate"@,
            WorkField::Place => "Place"@,
            WorkField::Width => "Width"@,
            WorkField::Height => "Height"@,
            WorkField::PageCount => "PageCount"@,
            WorkField::PageBreakdown => "PageBreakdown"@,
            WorkField::ImageCount => "ImageCount"@,
            WorkField::TableCount => "TableCount"@,
            WorkField::AudioCount => "AudioCount"@,
            WorkField::VideoCount => "VideoCount"@,
            WorkField::License => "License"@,
            WorkField::CopyrightHolder => "CopyrightHolder"@,
            WorkField::LandingPage => "LandingPage"@,
            WorkField::Lccn => "LCCN"@,
            WorkField::Oclc => "OCLC"@,
            WorkField::ShortAbstract => "ShortAbstract"@,
            WorkField::LongAbstract => "LongAbstract"@,
            WorkField::GeneralNote => "GeneralNote"@,
            WorkField::Toc => "TOC"@,
            WorkField::CoverUrl => "CoverURL"@,
            WorkField::CoverCaption => "CoverCaption"@,
            WorkField::CreatedAt => "CreatedAt"@,
            WorkField::UpdatedAt => "UpdatedAt"@,
        }
    }

    /// Renders the display string.
    pub fn to_str(&self) -> (r: &'static str)
        ensures
            r@ == self.spec_to_str(),
    {
        match self {
            WorkField::WorkId => "ID",
            WorkField::WorkType => "Type",
            WorkField::WorkStatus => "WorkStatus",
            WorkField::FullTitle => "Title",
            WorkField::Title => "ShortTitle",
            WorkField::Subtitle => "Subtitle",
            WorkField::Reference => "Reference",
            WorkField::Edition => "Edition",
            WorkField::Doi => "DOI",
            WorkField::PublicationDate => "PublicationDate",
            WorkField::Place => "Place",
            WorkField::Width => "Width",
            WorkField::Height => "Height",
            WorkField::PageCount => "PageCount",
            WorkField::PageBreakdown => "PageBreakdown",
            WorkField::ImageCount => "ImageCount",
            WorkField::TableCount => "TableCount",
            WorkField::AudioCount => "AudioCount",
            WorkField::VideoCount => "VideoCount",
            WorkField::License => "License",
            WorkField::CopyrightHolder => "CopyrightHolder",
            WorkField::LandingPage => "LandingPage",
            WorkField::Lccn => "LCCN",
            WorkField::Oclc => "OCLC",
            WorkField::ShortAbstract => "ShortAbstract",
            WorkField::LongAbstract => "LongAbstract",
            WorkField::GeneralNote => "GeneralNote",
            WorkField::Toc => "TOC",
            WorkField::CoverUrl => "CoverURL",
            WorkField::CoverCaption => "CoverCaption",
            WorkField::CreatedAt => "CreatedAt",
            WorkField::UpdatedAt => "UpdatedAt",
        }
    }

    /// The variant a string names, if any.
    pub open spec fn spec_from_str(s: Seq<char>) -> Option<WorkField> {
        if s == "ID"@ {
            Option::Some(WorkField::WorkId)
        } else if s == "Type"@ {
            Option::Some(WorkField::WorkType)
        } else if s == "WorkStatus"@ {
            Option::Some(WorkField::WorkStatus)
        } else if s == "Title"@ {
            Option::Some(WorkField::FullTitle)
        } else if s == "ShortTitle"@ {
            Option::Some(WorkField::Title)
        } else if s == "Subtitle"@ {
            Option::Some(WorkField::Subtitle)
        } else if s == "Reference"@ {
            Option::Some(WorkField::Reference)
        } else if s == "Edition"@ {
            Option::Some(WorkField::Edition)
        } else if s == "DOI"@ {
            Option::Some(WorkField::Doi)
        } else if s == "PublicationDate"@ {
            Option::Some(WorkField::PublicationDate)
        } else if s == "Place"@ {
            Option::Some(WorkField::Place)
        } else if s == "Width"@ {
            Option::Some(WorkField::Width)
        } else if s == "Height"@ {
            Option::Some(WorkField::Height)
        } else if s == "PageCount"@ {
            Option::Some(WorkField::PageCount)
        } else if s == "PageBreakdown"@ {
            Option::Some(WorkField::PageBreakdown)
        } else if s == "ImageCount"@ {
            Option::Some(WorkField::ImageCount)
        } else if s == "TableCount"@ {
            Option::Some(WorkField::TableCount)
        } else if s == "AudioCount"@ {
            Option::Some(WorkField::AudioCount)
        } else if s == "VideoCount"@ {
            Option::Some(WorkField::VideoCount)
        } else if s == "License"@ {
            Option::Some(WorkField::License)
        } else if s == "CopyrightHolder"@ {
            Option::Some(WorkField::CopyrightHolder)
        } else if s == "LandingPage"@ {
            Option::Some(WorkField::LandingPage)
        } else if s == "LCCN"@ {
            Option::Some(WorkField::Lccn)
        } else if s == "OCLC"@ {
            Option::Some(WorkField::Oclc)
        } else if s == "ShortAbstract"@ {
            Option::Some(WorkField::ShortAbstract)
        } else if s == "LongAbstract"@ {
            Option::Some(WorkField::LongAbstract)
        } else if s == "GeneralNote"@ {
            Option::Some(WorkField::GeneralNote)
        } else if s == "TOC"@ {
            Option::Some(WorkField::Toc)
        } else if s == "CoverURL"@ {
            Option::Some(WorkField::CoverUrl)
        } else if s == "CoverCaption"@ {
            Option::Some(WorkField::CoverCaption)
        } else if s == "CreatedAt"@ {
            Option::Some(WorkField::CreatedAt)
        } else if s == "UpdatedAt"@ {
            Option::Some(WorkField::UpdatedAt)
        } else {
            Option::None
        }
    }

    /// Parses a display string; unknown strings are refused.
    pub fn from_str(input: &str) -> (r: Result<WorkField, ThothError>)
        ensures
            (match Self::spec_from_str(input@) {
                Option::Some(v) => r matches Ok(x) && x == v,
                Option::None => r matches Err(e) && e is VariantNotFound,
            }),
    {
        if str_eq(input, "ID") {
            Ok(WorkField::WorkId)
        } else if str_eq(input, "Type") {
            Ok(WorkField::WorkType)
        } else if str_eq(input, "WorkStatus") {
            Ok(WorkField::WorkStatus)
        } else if str_eq(input, "Title") {
            Ok(WorkField::FullTitle)
        } else if str_eq(input, "ShortTitle") {
            Ok(WorkField::Title)
        } else if str_eq(input, "Subtitle") {
            Ok(WorkField::Subtitle)
        } else if str_eq(input, "Reference") {
            Ok(WorkField::Reference)
        } else if str_eq(input, "Edition") {
            Ok(WorkField::Edition)
        } else if str_eq(input, "DOI") {
            Ok(WorkField::Doi)
        } else if str_eq(input, "PublicationDate") {
            Ok(WorkField::PublicationDate)
        } else if str_eq(input, "Place") {
            Ok(WorkField::Place)
        } else if str_eq(input, "Width") {
            Ok(WorkField::Width)
        } else if str_eq(input, "Height") {
            Ok(WorkField::Height)
        } else if str_eq(input, "PageCount") {
            Ok(WorkField::PageCount)
        } else if str_eq(input, "PageBreakdown") {
            Ok(WorkField::PageBreakdown)
        } else if str_eq(input, "ImageCount") {
            Ok(WorkField::ImageCount)
        } else if str_eq(input, "TableCount") {
            Ok(WorkField::TableCount)
        } else if str_eq(input, "AudioCount") {
            Ok(WorkField::AudioCount)
        } else if str_eq(input, "VideoCount") {
            Ok(WorkField::VideoCount)
        } else if str_eq(input, "License") {
            Ok(WorkField::License)
        } else if str_eq(input, "CopyrightHolder") {
            Ok(WorkField::CopyrightHolder)
        } else if str_eq(input, "LandingPage") {
            Ok(WorkField::LandingPage)
        } else if str_eq(input, "LCCN") {
            Ok(WorkField::Lccn)
        } else if str_eq(input, "OCLC") {
            Ok(WorkField::Oclc)
        } else if str_eq(input, "ShortAbstract") {
            Ok(WorkField::ShortAbstract)
        } else if str_eq(input, "LongAbstract") {
            Ok(WorkField::LongAbstract)
        } else if str_eq(input, "GeneralNote") {
            Ok(WorkField::GeneralNote)
        } else if str_eq(input, "TOC") {
            Ok(WorkField::Toc)
        } else if str_eq(input, "CoverURL") {
            Ok(WorkField::CoverUrl)
        } else if str_eq(input, "CoverCaption") {
            Ok(WorkField::CoverCaption)
        } else if str_eq(input, "CreatedAt") {
            Ok(WorkField::CreatedAt)
        } else if str_eq(input, "UpdatedAt") {
            Ok(WorkField::UpdatedAt)
        } else {
            Err(ThothError::VariantNotFound)
        }
    }
}

impl Default for WorkField {
    /// The default variant: `FullTitle`.
    fn default() -> (r: WorkField)
        ensures
            r == WorkField::FullTitle,
    {
        WorkField::FullTitle
    }
}
/// A field and direction to sort the works list by.
#[derive(Clone, Debug, PartialEq)]
pub struct WorkOrderBy {
    pub field: WorkField,
    pub direction: Direction,
}

impl Default for WorkOrderBy {
    /// The default order: by full title, ascending.
    fn default() -> (r: WorkOrderBy)
        ensures
            r == (WorkOrderBy { field: WorkField::FullTitle, direction: Direction::Asc }),
    {
        WorkOrderBy { field: WorkField::FullTitle, direction: Direction::Asc }
    }
}

} // verus!
