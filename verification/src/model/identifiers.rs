//! Persistent identifiers: DOI, ISBN-13, ORCID and ROR.
//!
//! Each type stores the canonical body of the identifier; the web-resolver
//! prefix accepted on input is stripped during parsing.

use vstd::prelude::*;

use crate::errors::ThothError;
use crate::text::{has_prefix, spec_has_prefix, spec_no_hyphens, spec_strip_prefix, strip_prefix};

verus! {

/// Strips an optional scheme, then an optional `www.` from `s`.
pub open spec fn spec_strip_web(s: Seq<char>) -> Seq<char> {
    spec_strip_prefix(
        spec_strip_prefix(spec_strip_prefix(s, "https://"@), "http://"@),
        "www."@,
    )
}

fn strip_web(s: &str) -> (r: String)
    ensures
        r@ == spec_strip_web(s@),
{
    let a = strip_prefix(s, "https://");
    let b = strip_prefix(a.as_str(), "http://");
    strip_prefix(b.as_str(), "www.")
}

/// A Digital Object Identifier, stored without the resolver prefix.
#[derive(Clone, Debug, PartialEq)]
pub struct Doi {
    path: String,
}

/// The DOI body of `s`: what follows `doi.org/` after an optional
/// scheme, `www.` and `dx.` are stripped.
pub open spec fn spec_doi_path(s: Seq<char>) -> Seq<char> {
    spec_strip_prefix(spec_strip_prefix(spec_strip_web(s), "dx."@), "doi.org/"@)
}

/// Whether `s` is an acceptable written form of a DOI: a `doi.org` URL
/// whose path is a `10.`-prefixed handle.
pub open spec fn spec_doi_valid(s: Seq<char>) -> bool {
    &&& spec_has_prefix(spec_strip_prefix(spec_strip_web(s), "dx."@), "doi.org/"@)
    &&& spec_has_prefix(spec_doi_path(s), "10."@)
}

impl Doi {
    /// Parses a DOI from its URL form; `Ok` exactly on valid input.
    pub fn from_str(input: &str) -> (r: Result<Doi, ThothError>)
        ensures
            r is Ok <==> spec_doi_valid(input@),
            r matches Ok(d) ==> d@ == spec_doi_path(input@),
            r matches Err(e) ==> e matches ThothError::InvalidDoi(s) && s@ == input@,
    {
        let trimmed = strip_web(input);
        let bare = strip_prefix(trimmed.as_str(), "dx.");
        if !has_prefix(bare.as_str(), "doi.org/") {
            return Err(ThothError::InvalidDoi(input.to_owned()));
        }
        let path = strip_prefix(bare.as_str(), "doi.org/");
        if !has_prefix(path.as_str(), "10.") {
            return Err(ThothError::InvalidDoi(input.to_owned()));
        }
        Ok(Doi { path })
    }

    /// The DOI body, e.g. `10.00001/BOOK.0001`.
    pub fn to_str(&self) -> (r: &str)
        ensures
            r@ == self@,
    {
        self.path.as_str()
    }
}

impl View for Doi {
    type V = Seq<char>;

    closed spec fn view(&self) -> Seq<char> {
        self.path@
    }
}

/// The numeric value of a decimal digit character.
pub open spec fn spec_digit_val(c: char) -> nat {
    if '0' <= c && c <= '9' {
        ((c as nat) - ('0' as nat)) as nat
    } else {
        10
    }
}

/// The ISBN-13 weighted checksum of the first `ds.len()` digits,
/// alternating weights 1 and 3 from the left.
pub open spec fn spec_isbn_weighted_sum(ds: Seq<char>) -> nat
    decreases ds.len(),
{
    if ds.len() == 0 {
        0
    } else {
        spec_isbn_weighted_sum(ds.drop_last()) + spec_digit_val(ds.last()) * (
        if (ds.len() - 1) % 2 == 0 {
            1nat
        } else {
            3nat
        })
    }
}

/// Whether `ds` is a well-formed ISBN-13 digit string: thirteen decimal
/// digits whose weighted sum is divisible by ten.
pub open spec fn spec_isbn13_digits_ok(ds: Seq<char>) -> bool {
    &&& ds.len() == 13
    &&& forall|i: int| 0 <= i < ds.len() ==> '0' <= #[trigger] ds[i] && ds[i] <= '9'
    &&& spec_isbn_weighted_sum(ds) % 10 == 0
}

/// Whether `s` is a valid hyphenated ISBN-13.
pub open spec fn spec_isbn_valid(s: Seq<char>) -> bool {
    spec_isbn13_digits_ok(spec_no_hyphens(s))
}

/// An ISBN-13 in its canonical hyphenated form.
#[derive(Clone, Debug, PartialEq)]
pub struct Isbn {
    text: String,
}

impl Isbn {
    /// Parses a hyphenated ISBN-13; `Ok` exactly when the thirteen
    /// digits and their checksum are in order.
    pub fn from_str(input: &str) -> (r: Result<Isbn, ThothError>)
        ensures
            r is Ok <==> spec_isbn_valid(input@),
            r matches Ok(isbn) ==> isbn@ == input@,
            r matches Err(e) ==> e matches ThothError::InvalidIsbn(s) && s@ == input@,
    {
        let digits = crate::text::without_hyphens(input);
        let n = digits.as_str().unicode_len();
        if n != 13 {
            return Err(ThothError::InvalidIsbn(input.to_owned()));
        }
        let mut sum: u64 = 0;
        let mut i: usize = 0;
        while i < 13
            invariant
                digits@ == spec_no_hyphens(input@),
                digits@.len() == 13,
                i <= 13,
                forall|j: int| 0 <= j < i ==> '0' <= #[trigger] digits@[j] && digits@[j] <= '9',
                sum == spec_isbn_weighted_sum(digits@.subrange(0, i as int)),
                sum <= 40 * i,
            decreases 13 - i,
        {
            let c = digits.as_str().get_char(i);
            if !('0' <= c && c <= '9') {
                return Err(ThothError::InvalidIsbn(input.to_owned()));
            }
            let v: u64 = ((c as u8) - 48) as u64;
            assert(v == spec_digit_val(c));
            let w: u64 = if i % 2 == 0 {
                1
            } else {
                3
            };
            proof {
                assert(digits@.subrange(0, i + 1 as int).drop_last() =~= digits@.subrange(
                    0,
                    i as int,
                ));
            }
            sum = sum + v * w;
            i = i + 1;
        }
        proof {
            assert(digits@.subrange(0, 13) =~= digits@);
        }
        if sum % 10 != 0 {
            return Err(ThothError::InvalidIsbn(input.to_owned()));
        }
        Ok(Isbn { text: input.to_owned() })
    }

    /// The hyphenated form, exactly as parsed.
    pub fn to_str(&self) -> (r: &str)
        ensures
            r@ == self@,
    {
        self.text.as_str()
    }
}

impl View for Isbn {
    type V = Seq<char>;

    closed spec fn view(&self) -> Seq<char> {
        self.text@
    }
}

/// Whether `id` has the written shape of an ORCID identifier:
/// four groups of four characters separated by hyphens, all digits but
/// for a final `X` allowed as the check character.
pub open spec fn spec_orcid_id_ok(id: Seq<char>) -> bool {
    &&& id.len() == 19
    &&& id[4] == '-' && id[9] == '-' && id[14] == '-'
    &&& forall|i: int|
        0 <= i < 19 && i != 4 && i != 9 && i != 14 ==> ('0' <= #[trigger] id[i] && id[i] <= '9') || (
        i == 18 && id[i] == 'X')
}

/// The ORCID body of `s`: what follows `orcid.org/` after an optional
/// scheme and `www.` are stripped.
pub open spec fn spec_orcid_id(s: Seq<char>) -> Seq<char> {
    spec_strip_prefix(spec_strip_web(s), "orcid.org/"@)
}

/// Whether `s` is an acceptable written form of an ORCID identifier.
pub open spec fn spec_orcid_valid(s: Seq<char>) -> bool {
    &&& spec_has_prefix(spec_strip_web(s), "orcid.org/"@)
    &&& spec_orcid_id_ok(spec_orcid_id(s))
}

/// An ORCID contributor identifier, stored without the resolver prefix.
#[derive(Clone, Debug, PartialEq)]
pub struct Orcid {
    id: String,
}

impl Orcid {
    /// Parses an ORCID identifier from its URL form; `Ok` exactly on
    /// valid input.
    pub fn from_str(input: &str) -> (r: Result<Orcid, ThothError>)
        ensures
            r is Ok <==> spec_orcid_valid(input@),
            r matches Ok(o) ==> o@ == spec_orcid_id(input@),
            r matches Err(e) ==> e matches ThothError::InvalidOrcid(s) && s@ == input@,
    {
        let trimmed = strip_web(input);
        if !has_prefix(trimmed.as_str(), "orcid.org/") {
            return Err(ThothError::InvalidOrcid(input.to_owned()));
        }
        let id = strip_prefix(trimmed.as_str(), "orcid.org/");
        let n = id.as_str().unicode_len();
        if n != 19 {
            return Err(ThothError::InvalidOrcid(input.to_owned()));
        }
        let mut i: usize = 0;
        while i < 19
            invariant
                id@ == spec_orcid_id(input@),
                id@.len() == 19,
                i <= 19,
                forall|j: int|
                    0 <= j < i ==> if j == 4 || j == 9 || j == 14 {
                        id@[j] == '-'
                    } else {
                        ('0' <= #[trigger] id@[j] && id@[j] <= '9') || (j == 18 && id@[j] == 'X')
                    },
            decreases 19 - i,
        {
            let c = id.as_str().get_char(i);
            if i == 4 || i == 9 || i == 14 {
                if c != '-' {
                    return Err(ThothError::InvalidOrcid(input.to_owned()));
                }
            } else {
                let digit_ok = '0' <= c && c <= '9';
                let check_ok = i == 18 && c == 'X';
                if !(digit_ok || check_ok) {
                    return Err(ThothError::InvalidOrcid(input.to_owned()));
                }
            }
            i = i + 1;
        }
        Ok(Orcid { id })
    }

    /// The bare identifier, e.g. `0000-0002-0000-0001`.
    pub fn to_str(&self) -> (r: &str)
        ensures
            r@ == self@,
    {
        self.id.as_str()
    }
}

impl View for Orcid {
    type V = Seq<char>;

    closed spec fn view(&self) -> Seq<char> {
        self.id@
    }
}

/// The ROR body of `s`: what follows `ror.org/` after an optional
/// scheme and `www.` are stripped.
pub open spec fn spec_ror_id(s: Seq<char>) -> Seq<char> {
    spec_strip_prefix(spec_strip_web(s), "ror.org/"@)
}

/// Whether `s` is an acceptable written form of a ROR identifier:
/// a `ror.org` URL with a nine-character body starting with `0`.
pub open spec fn spec_ror_valid(s: Seq<char>) -> bool {
    &&& spec_has_prefix(spec_strip_web(s), "ror.org/"@)
    &&& spec_ror_id(s).len() == 9
    &&& spec_ror_id(s)[0] == '0'
}

/// A Research Organization Registry identifier, stored without the
/// resolver prefix.
#[derive(Clone, Debug, PartialEq)]
pub struct Ror {
    id: String,
}

impl Ror {
    /// Parses a ROR identifier from its URL form; `Ok` exactly on valid
    /// input.
    pub fn from_str(input: &str) -> (r: Result<Ror, ThothError>)
        ensures
            r is Ok <==> spec_ror_valid(input@),
            r matches Ok(o) ==> o@ == spec_ror_id(input@),
            r matches Err(e) ==> e matches ThothError::InvalidRor(s) && s@ == input@,
    {
        let trimmed = strip_web(input);
        if !has_prefix(trimmed.as_str(), "ror.org/") {
            return Err(ThothError::InvalidRor(input.to_owned()));
        }
        let id = strip_prefix(trimmed.as_str(), "ror.org/");
        let n = id.as_str().unicode_len();
        if n != 9 {
            return Err(ThothError::InvalidRor(input.to_owned()));
        }
        if id.as_str().get_char(0) != '0' {
            return Err(ThothError::InvalidRor(input.to_owned()));
        }
        Ok(Ror { id })
    }

    /// The bare identifier, e.g. `0aaaaaa00`.
    pub fn to_str(&self) -> (r: &str)
        ensures
            r@ == self@,
    {
        self.id.as_str()
    }
}

impl View for Ror {
    type V = Seq<char>;

    closed spec fn view(&self) -> Seq<char> {
        self.id@
    }
}

} // verus!
