//! The sortable-field and status enumerations: defaults, display
//! strings and parsing.

use thoth_export::model::imprint::ImprintField;
use thoth_export::model::location::LocationPlatform;
use thoth_export::model::series::{SeriesField, SeriesType};
use thoth_export::model::work::{WorkField, WorkStatus, WorkType};


#[test]
fn test_imprintfield_default() {
    let impfield: ImprintField = Default::default();
    assert_eq!(impfield, ImprintField::ImprintName);
}

#[test]
fn test_imprintfield_display() {
    assert_eq!(ImprintField::ImprintId.to_str(), "ID");
    assert_eq!(ImprintField::ImprintName.to_str(), "Imprint");
    assert_eq!(ImprintField::ImprintUrl.to_str(), "ImprintURL");
    assert_eq!(ImprintField::CreatedAt.to_str(), "CreatedAt");
    assert_eq!(ImprintField::UpdatedAt.to_str(), "UpdatedAt");
}

#[test]
fn test_imprintfield_fromstr() {
    assert_eq!(ImprintField::from_str("ID").unwrap(), ImprintField::ImprintId);
    assert_eq!(ImprintField::from_str("Imprint").unwrap(), ImprintField::ImprintName);
    assert_eq!(ImprintField::from_str("ImprintURL").unwrap(), ImprintField::ImprintUrl);
    assert_eq!(ImprintField::from_str("CreatedAt").unwrap(), ImprintField::CreatedAt);
    assert_eq!(ImprintField::from_str("UpdatedAt").unwrap(), ImprintField::UpdatedAt);
    assert!(ImprintField::from_str("ImprintID").is_err());
    assert!(ImprintField::from_str("Publisher").is_err());
    assert!(ImprintField::from_str("Website").is_err());
}

#[test]
fn test_locationplatform_default() {
    let locationplatform: LocationPlatform = Default::default();
    assert_eq!(locationplatform, LocationPlatform::Other);
}

#[test]
fn test_locationplatform_display() {
    assert_eq!(LocationPlatform::ProjectMuse.to_str(), "Project MUSE");
    assert_eq!(LocationPlatform::Oapen.to_str(), "OAPEN");
    assert_eq!(LocationPlatform::Doab.to_str(), "DOAB");
    assert_eq!(LocationPlatform::Jstor.to_str(), "JSTOR");
    assert_eq!(LocationPlatform::EbscoHost.to_str(), "EBSCO Host");
    assert_eq!(LocationPlatform::OclcKb.to_str(), "OCLC KB");
    assert_eq!(LocationPlatform::ProquestKb.to_str(), "ProQuest KB");
    assert_eq!(LocationPlatform::ProquestExlibris.to_str(), "ProQuest ExLibris");
    assert_eq!(LocationPlatform::EbscoKb.to_str(), "EBSCO KB");
    assert_eq!(LocationPlatform::JiscKb.to_str(), "JISC KB");
    assert_eq!(LocationPlatform::Other.to_str(), "Other");
}

#[test]
fn test_locationplatform_fromstr() {
    assert_eq!(LocationPlatform::from_str("Project MUSE").unwrap(), LocationPlatform::ProjectMuse);
    assert_eq!(LocationPlatform::from_str("OAPEN").unwrap(), LocationPlatform::Oapen);
    assert_eq!(LocationPlatform::from_str("DOAB").unwrap(), LocationPlatform::Doab);
    assert_eq!(LocationPlatform::from_str("JSTOR").unwrap(), LocationPlatform::Jstor);
    assert_eq!(LocationPlatform::from_str("EBSCO Host").unwrap(), LocationPlatform::EbscoHost);
    assert_eq!(LocationPlatform::from_str("OCLC KB").unwrap(), LocationPlatform::OclcKb);
    assert_eq!(LocationPlatform::from_str("ProQuest KB").unwrap(), LocationPlatform::ProquestKb);
    assert_eq!(LocationPlatform::from_str("ProQuest ExLibris").unwrap(), LocationPlatform::ProquestExlibris);
    assert_eq!(LocationPlatform::from_str("EBSCO KB").unwrap(), LocationPlatform::EbscoKb);
    assert_eq!(LocationPlatform::from_str("JISC KB").unwrap(), LocationPlatform::JiscKb);
    assert_eq!(LocationPlatform::from_str("Other").unwrap(), LocationPlatform::Other);
    assert!(LocationPlatform::from_str("Amazon").is_err());
    assert!(LocationPlatform::from_str("Twitter").is_err());
}

#[test]
fn test_worktype_default() {
    let worktype: WorkType = Default::default();
    assert_eq!(worktype, WorkType::Monograph);
}

#[test]
fn test_workstatus_default() {
    let workstatus: WorkStatus = Default::default();
    assert_eq!(workstatus, WorkStatus::Inactive);
}

#[test]
fn test_workfield_default() {
    let workfield: WorkField = Default::default();
    assert_eq!(workfield, WorkField::FullTitle);
}

#[test]
fn test_worktype_display() {
    assert_eq!(WorkType::BookChapter.to_str(), "Book Chapter");
    assert_eq!(WorkType::Monograph.to_str(), "Monograph");
    assert_eq!(WorkType::EditedBook.to_str(), "Edited Book");
    assert_eq!(WorkType::Textbook.to_str(), "Textbook");
    assert_eq!(WorkType::JournalIssue.to_str(), "Journal Issue");
    assert_eq!(WorkType::BookSet.to_str(), "Book Set");
}

#[test]
fn test_workstatus_display() {
    assert_eq!(WorkStatus::Cancelled.to_str(), "Cancelled");
    assert_eq!(WorkStatus::Forthcoming.to_str(), "Forthcoming");
    assert_eq!(WorkStatus::PostponedIndefinitely.to_str(), "Postponed Indefinitely");
    assert_eq!(WorkStatus::Active.to_str(), "Active");
    assert_eq!(WorkStatus::NoLongerOurProduct.to_str(), "No Longer Our Product");
    assert_eq!(WorkStatus::OutOfStockIndefinitely.to_str(), "Out Of Stock Indefinitely");
    assert_eq!(WorkStatus::OutOfPrint.to_str(), "Out Of Print");
    assert_eq!(WorkStatus::Inactive.to_str(), "Inactive");
    assert_eq!(WorkStatus::Unknown.to_str(), "Unknown");
    assert_eq!(WorkStatus::Remaindered.to_str(), "Remaindered");
    assert_eq!(WorkStatus::WithdrawnFromSale.to_str(), "Withdrawn From Sale");
    assert_eq!(WorkStatus::Recalled.to_str(), "Recalled");
}

#[test]
fn test_workfield_display() {
    assert_eq!(WorkField::WorkId.to_str(), "ID");
    assert_eq!(WorkField::WorkType.to_str(), "Type");
    assert_eq!(WorkField::WorkStatus.to_str(), "WorkStatus");
    assert_eq!(WorkField::FullTitle.to_str(), "Title");
    assert_eq!(WorkField::Title.to_str(), "ShortTitle");
    assert_eq!(WorkField::Subtitle.to_str(), "Subtitle");
    assert_eq!(WorkField::Reference.to_str(), "Reference");
    assert_eq!(WorkField::Edition.to_str(), "Edition");
    assert_eq!(WorkField::Doi.to_str(), "DOI");
    assert_eq!(WorkField::PublicationDate.to_str(), "PublicationDate");
    assert_eq!(WorkField::Place.to_str(), "Place");
    assert_eq!(WorkField::Width.to_str(), "Width");
    assert_eq!(WorkField::Height.to_str(), "Height");
    assert_eq!(WorkField::PageCount.to_str(), "PageCount");
    assert_eq!(WorkField::PageBreakdown.to_str(), "PageBreakdown");
    assert_eq!(WorkField::ImageCount.to_str(), "ImageCount");
    assert_eq!(WorkField::TableCount.to_str(), "TableCount");
    assert_eq!(WorkField::AudioCount.to_str(), "AudioCount");
    assert_eq!(WorkField::VideoCount.to_str(), "VideoCount");
    assert_eq!(WorkField::License.to_str(), "License");
    assert_eq!(WorkField::CopyrightHolder.to_str(), "CopyrightHolder");
    assert_eq!(WorkField::LandingPage.to_str(), "LandingPage");
    assert_eq!(WorkField::Lccn.to_str(), "LCCN");
    assert_eq!(WorkField::Oclc.to_str(), "OCLC");
    assert_eq!(WorkField::ShortAbstract.to_str(), "ShortAbstract");
    assert_eq!(WorkField::LongAbstract.to_str(), "LongAbstract");
    assert_eq!(WorkField::GeneralNote.to_str(), "GeneralNote");
    assert_eq!(WorkField::Toc.to_str(), "TOC");
    assert_eq!(WorkField::CoverUrl.to_str(), "CoverURL");
    assert_eq!(WorkField::CoverCaption.to_str(), "CoverCaption");
    assert_eq!(WorkField::CreatedAt.to_str(), "CreatedAt");
    assert_eq!(WorkField::UpdatedAt.to_str(), "UpdatedAt");
}

#[test]
fn test_worktype_fromstr() {
    assert_eq!(WorkType::from_str("Book Chapter").unwrap(), WorkType::BookChapter);
    assert_eq!(WorkType::from_str("Monograph").unwrap(), WorkType::Monograph);
    assert_eq!(WorkType::from_str("Edited Book").unwrap(), WorkType::EditedBook);
    assert_eq!(WorkType::from_str("Textbook").unwrap(), WorkType::Textbook);
    assert_eq!(WorkType::from_str("Journal Issue").unwrap(), WorkType::JournalIssue);
    assert_eq!(WorkType::from_str("Book Set").unwrap(), WorkType::BookSet);
    assert!(WorkType::from_str("Book Section").is_err());
    assert!(WorkType::from_str("Manuscript").is_err());
}

#[test]
fn test_workstatus_fromstr() {
    assert_eq!(WorkStatus::from_str("Unspecified").unwrap(), WorkStatus::Unspecified);
    assert_eq!(WorkStatus::from_str("Cancelled").unwrap(), WorkStatus::Cancelled);
    assert_eq!(WorkStatus::from_str("Forthcoming").unwrap(), WorkStatus::Forthcoming);
    assert_eq!(WorkStatus::from_str("Postponed Indefinitely").unwrap(), WorkStatus::PostponedIndefinitely);
    assert_eq!(WorkStatus::from_str("Active").unwrap(), WorkStatus::Active);
    assert_eq!(WorkStatus::from_str("No Longer Our Product").unwrap(), WorkStatus::NoLongerOurProduct);
    assert_eq!(WorkStatus::from_str("Out Of Stock Indefinitely").unwrap(), WorkStatus::OutOfStockIndefinitely);
    assert_eq!(WorkStatus::from_str("Out Of Print").unwrap(), WorkStatus::OutOfPrint);
    assert_eq!(WorkStatus::from_str("Inactive").unwrap(), WorkStatus::Inactive);
    assert_eq!(WorkStatus::from_str("Unknown").unwrap(), WorkStatus::Unknown);
    assert_eq!(WorkStatus::from_str("Remaindered").unwrap(), WorkStatus::Remaindered);
    assert_eq!(WorkStatus::from_str("Withdrawn From Sale").unwrap(), WorkStatus::WithdrawnFromSale);
    assert_eq!(WorkStatus::from_str("Recalled").unwrap(), WorkStatus::Recalled);
    assert!(WorkStatus::from_str("Published").is_err());
    assert!(WorkStatus::from_str("Unpublished").is_err());
}

#[test]
fn test_workfield_fromstr() {
    assert_eq!(WorkField::from_str("ID").unwrap(), WorkField::WorkId);
    assert_eq!(WorkField::from_str("Type").unwrap(), WorkField::WorkType);
    assert_eq!(WorkField::from_str("WorkStatus").unwrap(), WorkField::WorkStatus);
    assert_eq!(WorkField::from_str("Title").unwrap(), WorkField::FullTitle);
    assert_eq!(WorkField::from_str("ShortTitle").unwrap(), WorkField::Title);
    assert_eq!(WorkField::from_str("Subtitle").unwrap(), WorkField::Subtitle);
    assert_eq!(WorkField::from_str("Reference").unwrap(), WorkField::Reference);
    assert_eq!(WorkField::from_str("Edition").unwrap(), WorkField::Edition);
    assert_eq!(WorkField::from_str("DOI").unwrap(), WorkField::Doi);
    assert_eq!(WorkField::from_str("PublicationDate").unwrap(), WorkField::PublicationDate);
    assert_eq!(WorkField::from_str("Place").unwrap(), WorkField::Place);
    assert_eq!(WorkField::from_str("Width").unwrap(), WorkField::Width);
    assert_eq!(WorkField::from_str("Height").unwrap(), WorkField::Height);
    assert_eq!(WorkField::from_str("PageCount").unwrap(), WorkField::PageCount);
    assert_eq!(WorkField::from_str("PageBreakdown").unwrap(), WorkField::PageBreakdown);
    assert_eq!(WorkField::from_str("ImageCount").unwrap(), WorkField::ImageCount);
    assert_eq!(WorkField::from_str("TableCount").unwrap(), WorkField::TableCount);
    assert_eq!(WorkField::from_str("AudioCount").unwrap(), WorkField::AudioCount);
    assert_eq!(WorkField::from_str("VideoCount").unwrap(), WorkField::VideoCount);
    assert_eq!(WorkField::from_str("License").unwrap(), WorkField::License);
    assert_eq!(WorkField::from_str("CopyrightHolder").unwrap(), WorkField::CopyrightHolder);
    assert_eq!(WorkField::from_str("LandingPage").unwrap(), WorkField::LandingPage);
    assert_eq!(WorkField::from_str("LCCN").unwrap(), WorkField::Lccn);
    assert_eq!(WorkField::from_str("OCLC").unwrap(), WorkField::Oclc);
    assert_eq!(WorkField::from_str("ShortAbstract").unwrap(), WorkField::ShortAbstract);
    assert_eq!(WorkField::from_str("LongAbstract").unwrap(), WorkField::LongAbstract);
    assert_eq!(WorkField::from_str("GeneralNote").unwrap(), WorkField::GeneralNote);
    assert_eq!(WorkField::from_str("TOC").unwrap(), WorkField::Toc);
    assert_eq!(WorkField::from_str("CoverURL").unwrap(), WorkField::CoverUrl);
    assert_eq!(WorkField::from_str("CoverCaption").unwrap(), WorkField::CoverCaption);
    assert_eq!(WorkField::from_str("CreatedAt").unwrap(), WorkField::CreatedAt);
    assert_eq!(WorkField::from_str("UpdatedAt").unwrap(), WorkField::UpdatedAt);
    assert!(WorkField::from_str("WorkID").is_err());
    assert!(WorkField::from_str("Contributors").is_err());
    assert!(WorkField::from_str("Publisher").is_err());
}

#[test]
fn test_seriestype_default() {
    let seriestype: SeriesType = Default::default();
    assert_eq!(seriestype, SeriesType::BookSeries);
}

#[test]
fn test_seriesfield_default() {
    let seriesfield: SeriesField = Default::default();
    assert_eq!(seriesfield, SeriesField::SeriesName);
}

#[test]
fn test_seriestype_display() {
    assert_eq!(SeriesType::Journal.to_str(), "Journal");
    assert_eq!(SeriesType::BookSeries.to_str(), "Book Series");
}

#[test]
fn test_seriestype_fromstr() {
    assert_eq!(SeriesType::from_str("Journal").unwrap(), SeriesType::Journal);
    assert_eq!(SeriesType::from_str("Book Series").unwrap(), SeriesType::BookSeries);
    assert!(SeriesType::from_str("bookseries").is_err());
    assert!(SeriesType::from_str("Collection").is_err());
}

#[test]
fn test_seriesfield_fromstr() {
    assert_eq!(SeriesField::from_str("ID").unwrap(), SeriesField::SeriesID);
    assert_eq!(SeriesField::from_str("Series").unwrap(), SeriesField::SeriesName);
    assert_eq!(SeriesField::from_str("SeriesType").unwrap(), SeriesField::SeriesType);
    assert_eq!(SeriesField::from_str("ISSNPrint").unwrap(), SeriesField::ISSNPrint);
    assert_eq!(SeriesField::from_str("ISSNDigital").unwrap(), SeriesField::ISSNDigital);
    assert_eq!(SeriesField::from_str("Updated").unwrap(), SeriesField::UpdatedAt);
    assert!(SeriesField::from_str("URL").is_err());
    assert!(SeriesField::from_str("Created").is_err());
}
