//! The dispatch facade: key resolution, content types and generation.

use thoth_export::client::{
    Work, WorkImprint, WorkImprintPublisher, WorkStatus, WorkType,
};
use thoth_export::record::{MetadataRecord, MetadataSpecification};

fn plain_work() -> Work {
    Work {
        work_id: "00000000-0000-0000-AAAA-000000000001".to_string(),
        work_status: WorkStatus::ACTIVE,
        full_title: "Book Title".to_string(),
        title: "Book Title".to_string(),
        subtitle: None,
        work_type: WorkType::MONOGRAPH,
        edition: 1,
        doi: None,
        publication_date: None,
        license: None,
        copyright_holder: "Author 1".to_string(),
        short_abstract: None,
        long_abstract: None,
        general_note: None,
        place: None,
        width_mm: None,
        width_cm: None,
        width_in: None,
        height_mm: None,
        height_cm: None,
        height_in: None,
        page_count: None,
        page_breakdown: None,
        image_count: None,
        table_count: None,
        audio_count: None,
        video_count: None,
        landing_page: None,
        toc: None,
        lccn: None,
        oclc: None,
        cover_url: None,
        cover_caption: None,
        imprint: WorkImprint {
            imprint_name: "OA Editions Imprint".to_string(),
            publisher: WorkImprintPublisher {
                publisher_name: "OA Editions".to_string(),
                publisher_url: None,
            },
        },
        issues: vec![],
        contributions: vec![],
        languages: vec![],
        publications: vec![],
        subjects: vec![],
        fundings: vec![],
    }
}

#[test]
fn test_metadataspecification_fromstr() {
    assert!(matches!(
        MetadataSpecification::from_str("onix_2.1::ebsco_host"),
        Ok(MetadataSpecification::Onix21EbscoHost(_))
    ));
    assert!(matches!(
        MetadataSpecification::from_str("onix_3.0::project_muse"),
        Ok(MetadataSpecification::Onix3ProjectMuse(_))
    ));
    assert!(matches!(
        MetadataSpecification::from_str("onix_3.0::oapen"),
        Ok(MetadataSpecification::Onix3Oapen(_))
    ));
    assert!(matches!(
        MetadataSpecification::from_str("csv::thoth"),
        Ok(MetadataSpecification::CsvThoth(_))
    ));
    let unknown = MetadataSpecification::from_str("onix_2.1::amazon");
    assert_eq!(
        unknown.unwrap_err().message(),
        "onix_2.1::amazon is not a valid metadata specification".to_string()
    );
}

#[test]
fn test_metadatarecord_content_type() {
    let xml = MetadataRecord::new(
        MetadataSpecification::from_str("onix_3.0::project_muse").unwrap(),
        vec![],
    );
    assert_eq!(xml.content_type(), "text/xml; charset=utf-8");
    let csv = MetadataRecord::new(MetadataSpecification::from_str("csv::thoth").unwrap(), vec![]);
    assert_eq!(csv.content_type(), "text/csv; charset=utf-8");
}

#[test]
fn test_metadatarecord_generate_csv() {
    let record = MetadataRecord::new(
        MetadataSpecification::from_str("csv::thoth").unwrap(),
        vec![plain_work()],
    );
    let output = record.generate().unwrap();
    assert!(output.starts_with(r#""publisher","imprint","work_type","work_status""#));
    assert!(output.contains(r#""OA Editions","OA Editions Imprint","MONOGRAPH","ACTIVE""#));
}

#[test]
fn test_metadatarecord_generate_empty_batch() {
    let record = MetadataRecord::new(
        MetadataSpecification::from_str("onix_3.0::project_muse").unwrap(),
        vec![],
    );
    assert_eq!(
        record.generate().unwrap_err().message(),
        "Could not generate onix_3.0::project_muse: Not enough data".to_string()
    );
}
