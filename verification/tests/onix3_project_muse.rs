//! The ONIX 3.0 Project MUSE dialect: message structure, the PDF-URL
//! requirement and the unpriced supply block.

use thoth_export::client::{
    ContributionType, LanguageRelation, LocationPlatform, PublicationType, SubjectType, Work,
    WorkContributions, WorkContributionsContributor, WorkImprint, WorkImprintPublisher,
    WorkIssues, WorkIssuesSeries, WorkLanguages, WorkPublications, WorkPublicationsLocations,
    WorkStatus, WorkSubjects, WorkType,
};
use thoth_export::model::{Date, Doi, Isbn, Orcid, TimeParts};
use thoth_export::onix3_project_muse::Onix3ProjectMuse;

fn muse_test_work() -> Work {
    Work {
        work_id: "00000000-0000-0000-AAAA-000000000001".to_string(),
        work_status: WorkStatus::ACTIVE,
        full_title: "Book Title: Book Subtitle".to_string(),
        title: "Book Title".to_string(),
        subtitle: Some("Book Subtitle".to_string()),
        work_type: WorkType::MONOGRAPH,
        edition: 1,
        doi: Some(Doi::from_str("https://doi.org/10.00001/BOOK.0001").unwrap()),
        publication_date: Some(Date::from_ymd(1999, 12, 31)),
        license: Some("http://creativecommons.org/licenses/by/4.0/".to_string()),
        copyright_holder: "Author 1".to_string(),
        short_abstract: None,
        long_abstract: Some("Lorem ipsum dolor sit amet".to_string()),
        general_note: None,
        place: Some("León, Spain".to_string()),
        width_mm: None,
        width_cm: None,
        width_in: None,
        height_mm: None,
        height_cm: None,
        height_in: None,
        page_count: Some(334),
        page_breakdown: None,
        image_count: None,
        table_count: None,
        audio_count: None,
        video_count: None,
        landing_page: Some("https://www.book.com".to_string()),
        toc: Some("1. Chapter 1".to_string()),
        lccn: None,
        oclc: None,
        cover_url: None,
        cover_caption: None,
        imprint: WorkImprint {
            imprint_name: "OA Editions Imprint".to_string(),
            publisher: WorkImprintPublisher {
                publisher_name: "OA Editions".to_string(),
                publisher_url: None,
            },
        },
        issues: vec![WorkIssues {
            issue_ordinal: 1,
            series: WorkIssuesSeries {
                series_type: thoth_export::client::SeriesType::JOURNAL,
                series_name: "Name of series".to_string(),
                issn_print: "1234-5678".to_string(),
                issn_digital: "8765-4321".to_string(),
                series_url: None,
            },
        }],
        contributions: vec![WorkContributions {
            contribution_type: ContributionType::AUTHOR,
            first_name: Some("Author".to_string()),
            last_name: "1".to_string(),
            full_name: "Author 1".to_string(),
            main_contribution: true,
            biography: None,
            contribution_ordinal: 7,
            contributor: WorkContributionsContributor {
                orcid: Some(Orcid::from_str("https://orcid.org/0000-0002-0000-0001").unwrap()),
            },
            affiliations: vec![],
        }],
        languages: vec![WorkLanguages {
            language_code: "SPA".to_string(),
            language_relation: LanguageRelation::ORIGINAL,
            main_language: true,
        }],
        publications: vec![WorkPublications {
            publication_id: "00000000-0000-0000-DDDD-000000000004".to_string(),
            publication_type: PublicationType::PDF,
            isbn: Some(Isbn::from_str("978-1-56619-909-4").unwrap()),
            prices: vec![],
            locations: vec![WorkPublicationsLocations {
                landing_page: Some("https://www.book.com/pdf_landing".to_string()),
                full_text_url: Some("https://www.book.com/pdf_fulltext".to_string()),
                location_platform: LocationPlatform::OTHER,
                canonical: true,
            }],
        }],
        subjects: vec![WorkSubjects {
            subject_code: "AAB".to_string(),
            subject_type: SubjectType::BIC,
            subject_ordinal: 1,
        }],
        fundings: vec![],
    }
}

fn noon() -> TimeParts {
    TimeParts { year: 2023, month: 1, day: 2, hour: 3, minute: 4, second: 5 }
}

#[test]
fn test_onix3_project_muse_message() {
    let output = Onix3ProjectMuse {}.generate_at(&muse_test_work(), &noon()).unwrap();
    assert!(output.contains(
        r#"<ONIXMessage release="3.0" xmlns="http://ns.editeur.org/onix/3.0/reference">"#
    ));
    assert!(output.contains(r#"<SenderName>OA Editions</SenderName>"#));
    assert!(output.contains(r#"<EmailAddress>info@thoth.pub</EmailAddress>"#));
    assert!(output.contains(r#"<SentDateTime>20230102T030405</SentDateTime>"#));
    assert!(output.contains(
        r#"<RecordReference>urn:uuid:00000000-0000-0000-aaaa-000000000001</RecordReference>"#
    ));
    assert!(output.contains(r#"<NotificationType>03</NotificationType>"#));
    assert!(output.contains(r#"<IDValue>9781566199094</IDValue>"#));
    assert!(output.contains(r#"<IDValue>10.00001/BOOK.0001</IDValue>"#));
    assert!(output.contains(r#"<ProductComposition>00</ProductComposition>"#));
    assert!(output.contains(r#"<ProductForm>EB</ProductForm>"#));
    assert!(output.contains(r#"<ProductFormDetail>E107</ProductFormDetail>"#));
    assert!(output.contains(r#"<PrimaryContentType>10</PrimaryContentType>"#));
    assert!(output.contains(r#"<EpubLicenseName>Creative Commons License</EpubLicenseName>"#));
    assert!(output.contains(
        r#"<EpubLicenseExpressionLink>http://creativecommons.org/licenses/by/4.0/</EpubLicenseExpressionLink>"#
    ));
    assert!(output.contains(r#"<TitleText>Book Title</TitleText>"#));
    assert!(output.contains(r#"<Subtitle>Book Subtitle</Subtitle>"#));
    // This dialect numbers contributors by position, not stored ordinal.
    assert!(output.contains(r#"<SequenceNumber>1</SequenceNumber>"#));
    assert!(output.contains(r#"<ContributorRole>A01</ContributorRole>"#));
    assert!(output.contains(r#"<NameIDType>21</NameIDType>"#));
    assert!(output.contains(r#"<IDValue>0000-0002-0000-0001</IDValue>"#));
    assert!(output.contains(r#"<LanguageRole>01</LanguageRole>"#));
    assert!(output.contains(r#"<LanguageCode>spa</LanguageCode>"#));
    assert!(output.contains(r#"<ExtentValue>334</ExtentValue>"#));
    assert!(output.contains(r#"<SubjectSchemeIdentifier>12</SubjectSchemeIdentifier>"#));
    assert!(output.contains(r#"<SubjectCode>AAB</SubjectCode>"#));
    assert!(output.contains(r#"<TextType>03</TextType>"#));
    assert!(output.contains(r#"<ContentAudience>00</ContentAudience>"#));
    assert!(output.contains(r#"<Text language="eng">Lorem ipsum dolor sit amet</Text>"#));
    assert!(output.contains(r#"<TextType>04</TextType>"#));
    assert!(output.contains(r#"<Text>1. Chapter 1</Text>"#));
    assert!(output.contains(r#"<ImprintName>OA Editions Imprint</ImprintName>"#));
    assert!(output.contains(r#"<PublisherName>OA Editions</PublisherName>"#));
    assert!(output.contains(r#"<CityOfPublication>León, Spain</CityOfPublication>"#));
    assert!(output.contains(r#"<PublishingStatus>04</PublishingStatus>"#));
    assert!(output.contains(r#"<PublishingDateRole>19</PublishingDateRole>"#));
    assert!(output.contains(r#"<Date dateformat="01">199912</Date>"#));
    assert!(output.contains(r#"<SupplierRole>11</SupplierRole>"#));
    assert!(output.contains(r#"<WebsiteLink>https://www.book.com/pdf_fulltext</WebsiteLink>"#));
    assert!(output.contains(r#"<WebsiteLink>https://www.book.com</WebsiteLink>"#));
    assert!(output.contains(r#"<ProductAvailability>99</ProductAvailability>"#));
    assert!(output.contains(r#"<UnpricedItemType>04</UnpricedItemType>"#));
    assert!(!output.contains(r#"<Price>"#));
}

#[test]
fn test_onix3_project_muse_requires_pdf_url() {
    let mut work = muse_test_work();
    work.publications[0].locations.clear();
    let refused = Onix3ProjectMuse {}.generate_at(&work, &noon());
    assert_eq!(
        refused.unwrap_err().message(),
        "Could not generate onix_3.0::project_muse: No PDF URL".to_string()
    );
}

#[test]
fn test_onix3_project_muse_deterministic() {
    let work = muse_test_work();
    let first = Onix3ProjectMuse {}.generate_at(&work, &noon()).unwrap();
    let second = Onix3ProjectMuse {}.generate_at(&work, &noon()).unwrap();
    assert_eq!(first, second);
}
