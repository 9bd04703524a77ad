//! The ONIX 2.1 EBSCO Host dialect: element blocks, the eligibility
//! gate and the priced supply detail.
//!
//! The block outputs are checked with `contains` on the rendered text,
//! element by element.

use thoth_export::client::{
    ContributionType, CurrencyCode, LanguageRelation, LocationPlatform, PublicationType,
    SeriesType, SubjectType, Work, WorkContributions, WorkContributionsContributor, WorkImprint,
    WorkImprintPublisher, WorkIssues, WorkIssuesSeries, WorkLanguages, WorkPublications,
    WorkPublicationsLocations, WorkPublicationsPrices, WorkStatus, WorkSubjects, WorkType,
};
use thoth_export::model::{Date, Doi, Isbn, Orcid};
use thoth_export::onix21_ebsco_host::{
    contribution_block, issue_block, language_block, subject_block, work_block, Onix21EbscoHost,
};
use thoth_export::xml_writer::{render_nodes, XmlNode};

fn render(nodes: Vec<XmlNode>) -> String {
    render_nodes(&nodes).unwrap()
}

#[test]
fn test_onix21_ebsco_host_contributions() {
    let mut test_contribution = WorkContributions {
        contribution_type: ContributionType::AUTHOR,
        first_name: Some("Author".to_string()),
        last_name: "1".to_string(),
        full_name: "Author 1".to_string(),
        main_contribution: true,
        biography: None,
        contribution_ordinal: 1,
        contributor: WorkContributionsContributor {
            orcid: Some(Orcid::from_str("https://orcid.org/0000-0002-0000-0001").unwrap()),
        },
        affiliations: vec![],
    };

    let mut nodes = Vec::new();
    contribution_block(&test_contribution, &mut nodes);
    let output = render(nodes);
    assert!(output.contains(r#"  <SequenceNumber>1</SequenceNumber>"#));
    assert!(output.contains(r#"  <ContributorRole>A01</ContributorRole>"#));
    assert!(output.contains(r#"  <PersonNameIdentifier>"#));
    assert!(output.contains(r#"    <PersonNameIDType>01</PersonNameIDType>"#));
    assert!(output.contains(r#"    <IDTypeName>ORCID</IDTypeName>"#));
    assert!(output.contains(r#"    <IDValue>0000-0002-0000-0001</IDValue>"#));
    assert!(output.contains(r#"  </PersonNameIdentifier>"#));
    assert!(output.contains(r#"  <NamesBeforeKey>Author</NamesBeforeKey>"#));
    assert!(output.contains(r#"  <KeyNames>1</KeyNames>"#));
    assert!(!output.contains(r#"  <PersonName>Author 1</PersonName>"#));

    test_contribution.contribution_type = ContributionType::EDITOR;
    test_contribution.contribution_ordinal = 2;
    test_contribution.contributor.orcid = None;
    test_contribution.first_name = None;
    let mut nodes = Vec::new();
    contribution_block(&test_contribution, &mut nodes);
    let output = render(nodes);
    assert!(output.contains(r#"  <SequenceNumber>2</SequenceNumber>"#));
    assert!(output.contains(r#"  <ContributorRole>B01</ContributorRole>"#));
    assert!(!output.contains(r#"  <PersonNameIdentifier>"#));
    assert!(!output.contains(r#"    <PersonNameIDType>01</PersonNameIDType>"#));
    assert!(!output.contains(r#"    <IDTypeName>ORCID</IDTypeName>"#));
    assert!(!output.contains(r#"    <IDValue>0000-0002-0000-0001</IDValue>"#));
    assert!(!output.contains(r#"  </PersonNameIdentifier>"#));
    assert!(!output.contains(r#"  <NamesBeforeKey>Author</NamesBeforeKey>"#));
    assert!(!output.contains(r#"  <KeyNames>1</KeyNames>"#));
    assert!(output.contains(r#"  <PersonName>Author 1</PersonName>"#));

    let remaining_roles = [
        (ContributionType::TRANSLATOR, r#"  <ContributorRole>B06</ContributorRole>"#),
        (ContributionType::PHOTOGRAPHER, r#"  <ContributorRole>A13</ContributorRole>"#),
        (ContributionType::ILUSTRATOR, r#"  <ContributorRole>A12</ContributorRole>"#),
        (ContributionType::MUSIC_EDITOR, r#"  <ContributorRole>B25</ContributorRole>"#),
        (ContributionType::FOREWORD_BY, r#"  <ContributorRole>A23</ContributorRole>"#),
        (ContributionType::INTRODUCTION_BY, r#"  <ContributorRole>A24</ContributorRole>"#),
        (ContributionType::AFTERWORD_BY, r#"  <ContributorRole>A19</ContributorRole>"#),
        (ContributionType::PREFACE_BY, r#"  <ContributorRole>A15</ContributorRole>"#),
    ];
    for (role, expected) in remaining_roles {
        test_contribution.contribution_type = role;
        let mut nodes = Vec::new();
        contribution_block(&test_contribution, &mut nodes);
        let output = render(nodes);
        assert!(output.contains(expected));
    }
}

#[test]
fn test_onix21_ebsco_host_languages() {
    let mut test_language = WorkLanguages {
        language_code: "SPA".to_string(),
        language_relation: LanguageRelation::TRANSLATED_FROM,
        main_language: true,
    };

    let mut nodes = Vec::new();
    language_block(&test_language, &mut nodes);
    let output = render(nodes);
    assert!(output.contains(r#"  <LanguageRole>02</LanguageRole>"#));
    assert!(output.contains(r#"  <LanguageCode>spa</LanguageCode>"#));

    test_language.language_code = "WEL".to_string();
    for language_relation in [LanguageRelation::ORIGINAL, LanguageRelation::TRANSLATED_INTO] {
        test_language.language_relation = language_relation;
        let mut nodes = Vec::new();
        language_block(&test_language, &mut nodes);
        let output = render(nodes);
        assert!(output.contains(r#"  <LanguageRole>01</LanguageRole>"#));
        assert!(output.contains(r#"  <LanguageCode>wel</LanguageCode>"#));
    }
}

#[test]
fn test_onix21_ebsco_host_issues() {
    let mut test_issue = WorkIssues {
        issue_ordinal: 1,
        series: WorkIssuesSeries {
            series_type: SeriesType::JOURNAL,
            series_name: "Name of series".to_string(),
            issn_print: "1234-5678".to_string(),
            issn_digital: "8765-4321".to_string(),
            series_url: None,
        },
    };

    let mut nodes = Vec::new();
    issue_block(&test_issue, &mut nodes);
    let output = render(nodes);
    assert!(output.contains(r#"<Series>"#));
    assert!(output.contains(r#"  <TitleOfSeries>Name of series</TitleOfSeries>"#));
    assert!(output.contains(r#"  <NumberWithinSeries>1</NumberWithinSeries>"#));

    test_issue.issue_ordinal = 2;
    test_issue.series.series_name = "Different series".to_string();
    let mut nodes = Vec::new();
    issue_block(&test_issue, &mut nodes);
    let output = render(nodes);
    assert!(output.contains(r#"<Series>"#));
    assert!(output.contains(r#"  <TitleOfSeries>Different series</TitleOfSeries>"#));
    assert!(output.contains(r#"  <NumberWithinSeries>2</NumberWithinSeries>"#));
}

#[test]
fn test_onix21_ebsco_host_subjects() {
    let mut test_subject = WorkSubjects {
        subject_code: "AAB".to_string(),
        subject_type: SubjectType::BIC,
        subject_ordinal: 1,
    };

    let mut nodes = Vec::new();
    subject_block(&test_subject, &mut nodes);
    let output = render(nodes);
    assert!(output.contains(r#"<Subject>"#));
    assert!(output.contains(r#"  <SubjectSchemeIdentifier>12</SubjectSchemeIdentifier>"#));
    assert!(output.contains(r#"  <SubjectCode>AAB</SubjectCode>"#));

    test_subject.subject_code = "AAA000000".to_string();
    test_subject.subject_type = SubjectType::BISAC;
    let mut nodes = Vec::new();
    subject_block(&test_subject, &mut nodes);
    let output = render(nodes);
    assert!(output.contains(r#"<Subject>"#));
    assert!(output.contains(r#"  <SubjectSchemeIdentifier>10</SubjectSchemeIdentifier>"#));
    assert!(output.contains(r#"  <SubjectCode>AAA000000</SubjectCode>"#));

    test_subject.subject_code = "JA85".to_string();
    test_subject.subject_type = SubjectType::LCC;
    let mut nodes = Vec::new();
    subject_block(&test_subject, &mut nodes);
    let output = render(nodes);
    assert!(output.contains(r#"<Subject>"#));
    assert!(output.contains(r#"  <SubjectSchemeIdentifier>04</SubjectSchemeIdentifier>"#));
    assert!(output.contains(r#"  <SubjectCode>JA85</SubjectCode>"#));

    test_subject.subject_code = "JWA".to_string();
    test_subject.subject_type = SubjectType::THEMA;
    let mut nodes = Vec::new();
    subject_block(&test_subject, &mut nodes);
    let output = render(nodes);
    assert!(output.contains(r#"<Subject>"#));
    assert!(output.contains(r#"  <SubjectSchemeIdentifier>93</SubjectSchemeIdentifier>"#));
    assert!(output.contains(r#"  <SubjectCode>JWA</SubjectCode>"#));

    test_subject.subject_code = "keyword1".to_string();
    test_subject.subject_type = SubjectType::KEYWORD;
    let mut nodes = Vec::new();
    subject_block(&test_subject, &mut nodes);
    let output = render(nodes);
    assert!(output.contains(r#"<Subject>"#));
    assert!(output.contains(r#"  <SubjectSchemeIdentifier>20</SubjectSchemeIdentifier>"#));
    assert!(output.contains(r#"  <SubjectHeadingText>keyword1</SubjectHeadingText>"#));

    test_subject.subject_code = "custom1".to_string();
    test_subject.subject_type = SubjectType::CUSTOM;
    let mut nodes = Vec::new();
    subject_block(&test_subject, &mut nodes);
    let output = render(nodes);
    assert!(output.contains(r#"  <SubjectSchemeIdentifier>B2</SubjectSchemeIdentifier>"#));
    assert!(output.contains(r#"  <SubjectHeadingText>custom1</SubjectHeadingText>"#));
}

fn ebsco_test_work() -> Work {
    Work {
        work_id: "00000000-0000-0000-AAAA-000000000001".to_string(),
        work_status: WorkStatus::ACTIVE,
        full_title: "Book Title: Book Subtitle".to_string(),
        title: "Book Title".to_string(),
        subtitle: Some("Separate Subtitle".to_string()),
        work_type: WorkType::MONOGRAPH,
        edition: 1,
        doi: Some(Doi::from_str("https://doi.org/10.00001/BOOK.0001").unwrap()),
        publication_date: Some(Date::from_ymd(1999, 12, 31)),
        license: Some("https://creativecommons.org/licenses/by/4.0/".to_string()),
        copyright_holder: "Author 1; Author 2".to_string(),
        short_abstract: None,
        long_abstract: Some("Lorem ipsum dolor sit amet".to_string()),
        general_note: None,
        place: Some("León, Spain".to_string()),
        width_mm: None,
        width_cm: None,
        width_in: None,
        height_mm: None,
        height_cm: None,
        height_in: None,
        page_count: Some(334),
        page_breakdown: None,
        image_count: None,
        table_count: None,
        audio_count: None,
        video_count: None,
        landing_page: Some("https://www.book.com".to_string()),
        toc: None,
        lccn: None,
        oclc: None,
        cover_url: Some("https://www.book.com/cover".to_string()),
        cover_caption: None,
        imprint: WorkImprint {
            imprint_name: "OA Editions Imprint".to_string(),
            publisher: WorkImprintPublisher {
                publisher_name: "OA Editions".to_string(),
                publisher_url: Some("https://www.publisher.com".to_string()),
            },
        },
        issues: vec![],
        contributions: vec![],
        languages: vec![],
        publications: vec![
            WorkPublications {
                publication_id: "00000000-0000-0000-AAAA-000000000001".to_string(),
                publication_type: PublicationType::EPUB,
                isbn: Some(Isbn::from_str("978-3-16-148410-0").unwrap()),
                prices: vec![],
                locations: vec![WorkPublicationsLocations {
                    landing_page: Some("https://www.book.com/epub_landing".to_string()),
                    full_text_url: Some("https://www.book.com/epub_fulltext".to_string()),
                    location_platform: LocationPlatform::OTHER,
                    canonical: true,
                }],
            },
            WorkPublications {
                publication_id: "00000000-0000-0000-DDDD-000000000004".to_string(),
                publication_type: PublicationType::PDF,
                isbn: Some(Isbn::from_str("978-1-56619-909-4").unwrap()),
                prices: vec![
                    WorkPublicationsPrices {
                        currency_code: CurrencyCode::EUR,
                        unit_price: 595,
                    },
                    WorkPublicationsPrices {
                        currency_code: CurrencyCode::GBP,
                        unit_price: 495,
                    },
                    WorkPublicationsPrices {
                        currency_code: CurrencyCode::USD,
                        unit_price: 799,
                    },
                ],
                locations: vec![WorkPublicationsLocations {
                    landing_page: Some("https://www.book.com/pdf_landing".to_string()),
                    full_text_url: Some("https://www.book.com/pdf_fulltext".to_string()),
                    location_platform: LocationPlatform::OTHER,
                    canonical: true,
                }],
            },
        ],
        subjects: vec![],
        fundings: vec![],
    }
}

#[test]
fn test_onix21_ebsco_host_works() {
    let mut test_work = ebsco_test_work();

    let mut nodes = Vec::new();
    work_block(&test_work, &mut nodes).unwrap();
    let output = render(nodes);
    assert!(output.contains(r#"<Product>"#));
    assert!(output.contains(
        r#"  <RecordReference>urn:uuid:00000000-0000-0000-aaaa-000000000001</RecordReference>"#
    ));
    assert!(output.contains(r#"  <NotificationType>03</NotificationType>"#));
    assert!(output.contains(r#"  <RecordSourceType>01</RecordSourceType>"#));
    assert!(output.contains(r#"  <ProductIdentifier>"#));
    assert!(output.contains(r#"    <ProductIDType>01</ProductIDType>"#));
    assert!(
        output.contains(r#"    <IDValue>urn:uuid:00000000-0000-0000-aaaa-000000000001</IDValue>"#)
    );
    assert!(output.contains(r#"    <ProductIDType>15</ProductIDType>"#));
    assert!(output.contains(r#"    <IDValue>9783161484100</IDValue>"#));
    assert!(output.contains(r#"    <ProductIDType>06</ProductIDType>"#));
    assert!(output.contains(r#"    <IDValue>10.00001/BOOK.0001</IDValue>"#));
    assert!(output.contains(r#"  <ProductForm>DG</ProductForm>"#));
    assert!(output.contains(r#"  <EpubType>002</EpubType>"#));
    assert!(output.contains(r#"  <Title>"#));
    assert!(output.contains(r#"    <TitleType>01</TitleType>"#));
    assert!(output.contains(r#"    <TitleText>Book Title</TitleText>"#));
    assert!(output.contains(r#"    <Subtitle>Separate Subtitle</Subtitle>"#));
    assert!(output.contains(r#"  <WorkIdentifier>"#));
    assert!(output.contains(r#"    <WorkIDType>01</WorkIDType>"#));
    assert!(output.contains(r#"    <IDTypeName>Thoth WorkID</IDTypeName>"#));
    assert!(output.contains(r#"  <Website>"#));
    assert!(output.contains(r#"    <WebsiteRole>01</WebsiteRole>"#));
    assert!(output.contains(
        r#"    <WebsiteDescription>Publisher's website: web shop</WebsiteDescription>"#
    ));
    assert!(output.contains(r#"    <WebsiteLink>https://www.book.com</WebsiteLink>"#));
    assert!(output.contains(r#"    <WebsiteRole>29</WebsiteRole>"#));
    assert!(output.contains(r#"    <WebsiteDescription>Publisher's website: download the title</WebsiteDescription>"#));
    assert!(output.contains(r#"    <WebsiteLink>https://www.book.com/epub_fulltext</WebsiteLink>"#));
    assert!(output.contains(r#"    <WebsiteLink>https://www.book.com/pdf_fulltext</WebsiteLink>"#));
    assert!(output.contains(r#"  <Extent>"#));
    assert!(output.contains(r#"    <ExtentType>00</ExtentType>"#));
    assert!(output.contains(r#"    <ExtentValue>334</ExtentValue>"#));
    assert!(output.contains(r#"    <ExtentUnit>03</ExtentUnit>"#));
    assert!(output.contains(r#"  <Audience>"#));
    assert!(output.contains(r#"    <AudienceCodeType>01</AudienceCodeType>"#));
    assert!(output.contains(r#"    <AudienceCodeValue>06</AudienceCodeValue>"#));
    assert!(output.contains(r#"  <OtherText>"#));
    assert!(output.contains(r#"    <TextTypeCode>47</TextTypeCode>"#));
    assert!(output.contains(r#"    <Text>Open access - no commercial use</Text>"#));
    assert!(output.contains(r#"    <TextTypeCode>46</TextTypeCode>"#));
    assert!(output.contains(r#"    <Text>https://creativecommons.org/licenses/by/4.0/</Text>"#));
    assert!(output.contains(r#"    <TextTypeCode>03</TextTypeCode>"#));
    assert!(output.contains(r#"    <TextFormat>06</TextFormat>"#));
    assert!(output.contains(r#"    <Text>Lorem ipsum dolor sit amet</Text>"#));
    assert!(output.contains(r#"  <MediaFile>"#));
    assert!(output.contains(r#"    <MediaFileTypeCode>04</MediaFileTypeCode>"#));
    assert!(output.contains(r#"    <MediaFileLinkTypeCode>01</MediaFileLinkTypeCode>"#));
    assert!(output.contains(r#"    <MediaFileLink>https://www.book.com/cover</MediaFileLink>"#));
    assert!(output.contains(r#"  <Imprint>"#));
    assert!(output.contains(r#"    <ImprintName>OA Editions Imprint</ImprintName>"#));
    assert!(output.contains(r#"  <Publisher>"#));
    assert!(output.contains(r#"    <PublishingRole>01</PublishingRole>"#));
    assert!(output.contains(r#"    <PublisherName>OA Editions</PublisherName>"#));
    assert!(output.contains(r#"    <Website>"#));
    assert!(output.contains(r#"      <WebsiteLink>https://www.publisher.com</WebsiteLink>"#));
    assert!(output.contains(r#"  <CityOfPublication>León, Spain</CityOfPublication>"#));
    assert!(output.contains(r#"  <PublishingStatus>04</PublishingStatus>"#));
    assert!(output.contains(r#"  <PublicationDate>19991231</PublicationDate>"#));
    assert!(output.contains(r#"  <CopyrightYear>1999</CopyrightYear>"#));
    assert!(output.contains(r#"  <SalesRights>"#));
    assert!(output.contains(r#"    <SalesRightsType>02</SalesRightsType>"#));
    assert!(output.contains(r#"    <RightsTerritory>WORLD</RightsTerritory>"#));
    assert!(output.contains(r#"  <RelatedProduct>"#));
    assert!(output.contains(r#"    <RelationCode>06</RelationCode>"#));
    assert!(output.contains(r#"    <ProductIdentifier>"#));
    assert!(output.contains(r#"      <ProductIDType>15</ProductIDType>"#));
    assert!(output.contains(r#"      <IDValue>9783161484100</IDValue>"#));
    assert!(output.contains(r#"      <IDValue>9781566199094</IDValue>"#));
    assert!(output.contains(r#"  <SupplyDetail>"#));
    assert!(output.contains(r#"    <SupplierName>OA Editions</SupplierName>"#));
    assert!(output.contains(r#"    <SupplierRole>09</SupplierRole>"#));
    assert!(output.contains(r#"    <ProductAvailability>99</ProductAvailability>"#));
    assert!(output.contains(r#"    <AudienceRestrictionFlag>R</AudienceRestrictionFlag>"#));
    assert!(output.contains(r#"    <AudienceRestrictionNote>Open access</AudienceRestrictionNote>"#));
    assert!(output.contains(r#"    <Price>"#));
    assert!(output.contains(r#"      <PriceTypeCode>02</PriceTypeCode>"#));
    assert!(output.contains(r#"      <PriceAmount>7.99</PriceAmount>"#));
    assert!(output.contains(r#"      <CurrencyCode>USD</CurrencyCode>"#));

    test_work.doi = None;
    test_work.license = None;
    test_work.subtitle = None;
    test_work.page_count = None;
    test_work.long_abstract = None;
    test_work.place = None;
    test_work.publication_date = None;
    test_work.landing_page = None;
    test_work.cover_url = None;
    test_work.imprint.publisher.publisher_url = None;
    test_work.publications.pop();
    let mut nodes = Vec::new();
    work_block(&test_work, &mut nodes).unwrap();
    let output = render(nodes);
    assert!(!output.contains(r#"    <ProductIDType>06</ProductIDType>"#));
    assert!(!output.contains(r#"    <IDValue>10.00001/BOOK.0001</IDValue>"#));
    assert!(!output.contains(r#"    <TitleText>Book Title</TitleText>"#));
    assert!(!output.contains(r#"    <Subtitle>Separate Subtitle</Subtitle>"#));
    assert!(output.contains(r#"    <TitleText>Book Title: Book Subtitle</TitleText>"#));
    assert!(!output.contains(r#"    <WebsiteRole>01</WebsiteRole>"#));
    assert!(!output.contains(
        r#"    <WebsiteDescription>Publisher's website: web shop</WebsiteDescription>"#
    ));
    assert!(!output.contains(r#"    <WebsiteLink>https://www.book.com</WebsiteLink>"#));
    assert!(!output.contains(r#"    <WebsiteLink>https://www.book.com/pdf_fulltext</WebsiteLink>"#));
    assert!(!output.contains(r#"      <IDValue>9781566199094</IDValue>"#));
    assert!(!output.contains(r#"  <EpubType>002</EpubType>"#));
    assert!(output.contains(r#"  <EpubType>029</EpubType>"#));
    assert!(!output.contains(r#"  <Extent>"#));
    assert!(!output.contains(r#"    <ExtentType>00</ExtentType>"#));
    assert!(!output.contains(r#"    <ExtentValue>334</ExtentValue>"#));
    assert!(!output.contains(r#"    <ExtentUnit>03</ExtentUnit>"#));
    assert!(!output.contains(r#"    <TextTypeCode>03</TextTypeCode>"#));
    assert!(!output.contains(r#"    <TextFormat>06</TextFormat>"#));
    assert!(!output.contains(r#"    <Text>Lorem ipsum dolor sit amet</Text>"#));
    assert!(!output.contains(r#"    <TextTypeCode>46</TextTypeCode>"#));
    assert!(!output.contains(r#"    <Text>https://creativecommons.org/licenses/by/4.0/</Text>"#));
    assert!(!output.contains(r#"  <MediaFile>"#));
    assert!(!output.contains(r#"    <MediaFileTypeCode>04</MediaFileTypeCode>"#));
    assert!(!output.contains(r#"    <MediaFileLinkTypeCode>01</MediaFileLinkTypeCode>"#));
    assert!(!output.contains(r#"    <MediaFileLink>https://www.book.com/cover</MediaFileLink>"#));
    assert!(!output.contains(r#"    <Website>"#));
    assert!(!output.contains(r#"      <WebsiteLink>https://www.publisher.com</WebsiteLink>"#));
    assert!(!output.contains(r#"  <CityOfPublication>León, Spain</CityOfPublication>"#));
    assert!(!output.contains(r#"  <PublicationDate>19991231</PublicationDate>"#));
    assert!(!output.contains(r#"  <CopyrightYear>1999</CopyrightYear>"#));
    assert!(output.contains(r#"      <PriceAmount>0.01</PriceAmount>"#));

    test_work.publications[0].locations.clear();
    let mut nodes = Vec::new();
    let wrapped_output = work_block(&test_work, &mut nodes);
    assert!(wrapped_output.is_err());
    let output = wrapped_output.unwrap_err().message();
    assert_eq!(
        output,
        "Could not generate onix_2.1::ebsco_host: No PDF or EPUB URL".to_string()
    );
}

#[test]
fn test_onix21_ebsco_host_batch_gate() {
    let eligible = ebsco_test_work();
    let mut ineligible = ebsco_test_work();
    for publication in ineligible.publications.iter_mut() {
        publication.locations.clear();
    }

    let host = Onix21EbscoHost {};
    let today = Date::from_ymd(1999, 12, 31);

    let empty = host.generate_at(&vec![], &today);
    assert_eq!(
        empty.unwrap_err().message(),
        "Could not generate onix_2.1::ebsco_host: Not enough data".to_string()
    );

    let refused = host.generate_at(&vec![ineligible.clone()], &today);
    assert_eq!(
        refused.unwrap_err().message(),
        "Could not generate onix_2.1::ebsco_host: No PDF or EPUB URL".to_string()
    );

    // One ineligible work refuses the whole batch, eligible
    // companions notwithstanding.
    let mixed = host.generate_at(&vec![ineligible, eligible.clone()], &today);
    assert_eq!(
        mixed.unwrap_err().message(),
        "Could not generate onix_2.1::ebsco_host: No PDF or EPUB URL".to_string()
    );

    let accepted = host.generate_at(&vec![eligible.clone(), eligible], &today).unwrap();
    assert!(accepted.contains(r#"<SentDate>19991231</SentDate>"#));
    assert!(accepted.contains(r#"<FromCompany>Thoth</FromCompany>"#));
    assert!(accepted.contains(r#"<FromEmail>info@thoth.pub</FromEmail>"#));
    assert!(accepted.contains(
        r#"<RecordReference>urn:uuid:00000000-0000-0000-aaaa-000000000001</RecordReference>"#
    ));
    assert_eq!(accepted.matches("<Product>").count(), 2);
}

#[test]
fn test_onix21_ebsco_host_eligibility_spans_publications() {
    // The first PDF publication carries only a mirror location; the
    // canonical full-text URL sits on a second PDF publication, which
    // still admits the work.
    let mut work = ebsco_test_work();
    work.publications[1].locations = vec![WorkPublicationsLocations {
        landing_page: Some("https://www.mirror.com/pdf_landing".to_string()),
        full_text_url: Some("https://www.mirror.com/pdf_fulltext".to_string()),
        location_platform: LocationPlatform::JSTOR,
        canonical: false,
    }];
    work.publications.push(WorkPublications {
        publication_id: "00000000-0000-0000-EEEE-000000000007".to_string(),
        publication_type: PublicationType::PDF,
        isbn: None,
        prices: vec![],
        locations: vec![WorkPublicationsLocations {
            landing_page: None,
            full_text_url: Some("https://www.book.com/second_pdf_fulltext".to_string()),
            location_platform: LocationPlatform::OTHER,
            canonical: true,
        }],
    });
    work.publications[0].locations.clear();

    let mut nodes = Vec::new();
    work_block(&work, &mut nodes).unwrap();
    let output = render(nodes);
    assert!(output.contains(r#"  <EpubType>002</EpubType>"#));
    assert!(output.contains(
        r#"    <WebsiteLink>https://www.book.com/second_pdf_fulltext</WebsiteLink>"#
    ));
}

#[test]
fn test_onix21_ebsco_host_deterministic() {
    let works = vec![ebsco_test_work()];
    let host = Onix21EbscoHost {};
    let today = Date::from_ymd(2020, 6, 1);
    let first = host.generate_at(&works, &today).unwrap();
    let second = host.generate_at(&works, &today).unwrap();
    assert_eq!(first, second);
}
