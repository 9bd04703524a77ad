//! Identifier parsing, calendar rendering and price rendering.

use thoth_export::model::{Date, Doi, Isbn, Orcid, Ror};
use thoth_export::text::{money_str, u64_to_dec, without_hyphens};

#[test]
fn test_doi_fromstr() {
    assert_eq!(
        Doi::from_str("https://doi.org/10.00001/BOOK.0001").unwrap().to_str(),
        "10.00001/BOOK.0001"
    );
    assert_eq!(
        Doi::from_str("http://dx.doi.org/10.00001/BOOK.0001").unwrap().to_str(),
        "10.00001/BOOK.0001"
    );
    assert!(Doi::from_str("https://example.com/10.00001/BOOK.0001").is_err());
    assert!(Doi::from_str("https://doi.org/not-a-handle").is_err());
    let invalid = Doi::from_str("book");
    assert_eq!(invalid.unwrap_err().message(), "book is not a valid DOI".to_string());
}

#[test]
fn test_isbn_fromstr() {
    assert_eq!(
        Isbn::from_str("978-3-16-148410-0").unwrap().to_str(),
        "978-3-16-148410-0"
    );
    // A flipped check digit is refused.
    assert!(Isbn::from_str("978-3-16-148410-1").is_err());
    // Too few digits are refused.
    assert!(Isbn::from_str("978-3-16").is_err());
    assert!(Isbn::from_str("letters-aren't-digits").is_err());
}

#[test]
fn test_orcid_fromstr() {
    assert_eq!(
        Orcid::from_str("https://orcid.org/0000-0002-0000-0001").unwrap().to_str(),
        "0000-0002-0000-0001"
    );
    assert_eq!(
        Orcid::from_str("orcid.org/0000-0002-1825-009X").unwrap().to_str(),
        "0000-0002-1825-009X"
    );
    assert!(Orcid::from_str("0000-0002-0000-0001").is_err());
    assert!(Orcid::from_str("https://orcid.org/0000-0002-0001").is_err());
}

#[test]
fn test_ror_fromstr() {
    assert_eq!(Ror::from_str("https://ror.org/0aaaaaa00").unwrap().to_str(), "0aaaaaa00");
    assert!(Ror::from_str("https://ror.org/1aaaaaa00").is_err());
    assert!(Ror::from_str("0aaaaaa00").is_err());
}

#[test]
fn test_date_rendering() {
    let date = Date::from_ymd(1999, 12, 31);
    assert_eq!(date.display(), "1999-12-31");
    assert_eq!(date.yyyymmdd(), "19991231");
    assert_eq!(date.yyyymm(), "199912");
    assert_eq!(date.yyyy(), "1999");
    let early = Date::from_ymd(33, 1, 2);
    assert_eq!(early.display(), "0033-01-02");
}

#[test]
fn test_money_rendering() {
    assert_eq!(money_str(2595), "25.95");
    assert_eq!(money_str(799), "7.99");
    assert_eq!(money_str(1), "0.01");
    assert_eq!(money_str(2600), "26");
    assert_eq!(money_str(2250), "22.5");
    assert_eq!(money_str(0), "0");
}

#[test]
fn test_decimal_rendering() {
    assert_eq!(u64_to_dec(0), "0");
    assert_eq!(u64_to_dec(334), "334");
    assert_eq!(u64_to_dec(18446744073709551615), "18446744073709551615");
}

#[test]
fn test_without_hyphens() {
    assert_eq!(without_hyphens("978-3-16-148410-0"), "9783161484100");
    assert_eq!(without_hyphens(""), "");
    assert_eq!(without_hyphens("---"), "");
}
