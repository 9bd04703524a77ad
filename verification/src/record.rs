//! The dispatch facade: resolves a specification key to a format
//! specification and drives generation for a batch of works.

use vstd::prelude::*;

use crate::client::Work;
use crate::csv_thoth::{spec_csv_thoth_doc, CsvThoth};
use crate::errors::ThothError;
use crate::model::{Date, TimeParts};
use crate::onix21_ebsco_host::{self, spec_eligible, Onix21EbscoHost};
use crate::onix3_project_muse::{self, spec_has_pdf_url, Onix3ProjectMuse};
use crate::text::str_eq;
use crate::xml_writer::spec_xml_doc;

verus! {

/// A dialect the facade names but cannot generate: its key resolves,
/// and generation for it stays out of reach of callers.
#[derive(Debug)]
pub struct Onix3Oapen {}

/// One of the supported output specifications.
#[derive(Debug)]
pub enum MetadataSpecification {
    Onix21EbscoHost(Onix21EbscoHost),
    Onix3ProjectMuse(Onix3ProjectMuse),
    Onix3Oapen(Onix3Oapen),
    CsvThoth(CsvThoth),
}

impl MetadataSpecification {
    /// Resolves a specification key; exactly the four documented keys
    /// are accepted, and an unknown key is returned inside the error.
    pub fn from_str(input: &str) -> (r: Result<MetadataSpecification, ThothError>)
        ensures
            (r matches Ok(s) && s is Onix21EbscoHost) <==> input@ == "onix_2.1::ebsco_host"@,
            (r matches Ok(s) && s is Onix3ProjectMuse) <==> input@ == "onix_3.0::project_muse"@,
            (r matches Ok(s) && s is Onix3Oapen) <==> input@ == "onix_3.0::oapen"@,
            (r matches Ok(s) && s is CsvThoth) <==> input@ == "csv::thoth"@,
            r matches Err(e) ==> (e matches ThothError::InvalidMetadataSpecification(k) && k@
                == input@),
    {
        proof {
            reveal_strlit("onix_2.1::ebsco_host");
            reveal_strlit("onix_3.0::project_muse");
            reveal_strlit("onix_3.0::oapen");
            reveal_strlit("csv::thoth");
            assert("onix_2.1::ebsco_host"@.len() == 20);
            assert("onix_3.0::project_muse"@.len() == 22);
            assert("onix_3.0::oapen"@.len() == 15);
            assert("csv::thoth"@.len() == 10);
        }
        if str_eq(input, "onix_2.1::ebsco_host") {
            Ok(MetadataSpecification::Onix21EbscoHost(Onix21EbscoHost {}))
        } else if str_eq(input, "onix_3.0::project_muse") {
            Ok(MetadataSpecification::Onix3ProjectMuse(Onix3ProjectMuse {}))
        } else if str_eq(input, "onix_3.0::oapen") {
            Ok(MetadataSpecification::Onix3Oapen(Onix3Oapen {}))
        } else if str_eq(input, "csv::thoth") {
            Ok(MetadataSpecification::CsvThoth(CsvThoth {}))
        } else {
            Err(ThothError::InvalidMetadataSpecification(input.to_owned()))
        }
    }
}

/// A batch of works bound to the specification that will serialize
/// them.
pub struct MetadataRecord {
    data: Vec<Work>,
    specification: MetadataSpecification,
}

/// The content type of a specification's output.
pub open spec fn spec_content_type(s: MetadataSpecification) -> Seq<char> {
    match s {
        MetadataSpecification::CsvThoth(_) => "text/csv; charset=utf-8"@,
        _ => "text/xml; charset=utf-8"@,
    }
}

impl MetadataRecord {
    /// Binds a batch to a specification.
    pub fn new(specification: MetadataSpecification, data: Vec<Work>) -> (r: MetadataRecord)
        ensures
            r.spec_data() == data@,
            r.spec_specification() == specification,
    {
        MetadataRecord { data, specification }
    }

    /// The batch inside the record.
    pub closed spec fn spec_data(self) -> Seq<Work> {
        self.data@
    }

    /// The specification the record is bound to.
    pub closed spec fn spec_specification(self) -> MetadataSpecification {
        self.specification
    }

    /// The content type the output will carry: XML for the ONIX
    /// dialects, CSV for the CSV dialect.
    pub fn content_type(&self) -> (r: &'static str)
        ensures
            r@ == spec_content_type(self.spec_specification()),
    {
        match &self.specification {
            MetadataSpecification::Onix21EbscoHost(_) => "text/xml; charset=utf-8",
            MetadataSpecification::Onix3ProjectMuse(_) => "text/xml; charset=utf-8",
            MetadataSpecification::Onix3Oapen(_) => "text/xml; charset=utf-8",
            MetadataSpecification::CsvThoth(_) => "text/csv; charset=utf-8",
        }
    }

    /// Drives generation: the CSV dialect and the EBSCO Host dialect
    /// serialize the whole batch; the Project MUSE dialect serializes
    /// the first work of a non-empty batch and refuses an empty one.
    /// The CSV dialect always succeeds; for the ONIX dialects the
    /// data refusals hold exactly when their conditions do, whatever
    /// the clock returns.
    pub fn generate(self) -> (r: Result<String, ThothError>)
        requires
            forall|i: int| 0 <= i < self.spec_data().len() ==> (#[trigger] self.spec_data()[i]).wf(),
            !(self.spec_specification() is Onix3Oapen),
        ensures
            self.spec_specification() is CsvThoth ==> r is Ok,
            self.spec_specification() is CsvThoth ==> (r matches Ok(s) ==> s@
                == spec_csv_thoth_doc(self.spec_data())),
            self.spec_specification() is Onix21EbscoHost ==> (r matches Ok(s) ==> exists|d: Date|
                d.wf() && s@ == spec_xml_doc(
                    onix21_ebsco_host::spec_message(self.spec_data(), d),
                )),
            self.spec_specification() is Onix21EbscoHost ==> ((r matches Err(e) && e
                is IncompleteMetadataRecord) <==> (self.spec_data().len() == 0 || exists|i: int|
                0 <= i < self.spec_data().len() && !spec_eligible(
                    #[trigger] self.spec_data()[i],
                ))),
            (self.spec_specification() is Onix21EbscoHost && self.spec_data().len() == 0) ==> (
            r matches Err(e) && e matches ThothError::IncompleteMetadataRecord(spec, reason)
                && spec@ == "onix_2.1::ebsco_host"@ && reason@ == "Not enough data"@),
            (self.spec_specification() is Onix21EbscoHost && self.spec_data().len() >= 1 && exists|
                i: int,
            | 0 <= i < self.spec_data().len() && !spec_eligible(#[trigger] self.spec_data()[i]))
                ==> (r matches Err(e) && e matches ThothError::IncompleteMetadataRecord(
                spec,
                reason,
            ) && spec@ == "onix_2.1::ebsco_host"@ && reason@ == "No PDF or EPUB URL"@),
            self.spec_specification() is Onix3ProjectMuse ==> (r matches Ok(s) ==> exists|
                now: TimeParts,
            |
                now.wf() && self.spec_data().len() >= 1 && s@ == spec_xml_doc(
                    onix3_project_muse::spec_message(self.spec_data()[0], now),
                )),
            self.spec_specification() is Onix3ProjectMuse ==> ((r matches Err(e) && e
                is IncompleteMetadataRecord) <==> (self.spec_data().len() == 0 || !spec_has_pdf_url(
                self.spec_data()[0],
            ))),
            (self.spec_specification() is Onix3ProjectMuse && self.spec_data().len() == 0) ==> (
            r matches Err(e) && e matches ThothError::IncompleteMetadataRecord(spec, reason)
                && spec@ == "onix_3.0::project_muse"@ && reason@ == "Not enough data"@),
            (self.spec_specification() is Onix3ProjectMuse && self.spec_data().len() >= 1
                && !spec_has_pdf_url(self.spec_data()[0])) ==> (r matches Err(e) && e
                matches ThothError::IncompleteMetadataRecord(spec, reason) && spec@
                == "onix_3.0::project_muse"@ && reason@ == "No PDF URL"@),
    {
        proof {
            assert forall|i: int| 0 <= i < self.data@.len() implies (#[trigger] self.data@[i]).wf() by {
                assert(self.spec_data()[i].wf());
            }
        }
        match &self.specification {
            MetadataSpecification::Onix21EbscoHost(host) => host.generate(&self.data),
            MetadataSpecification::Onix3ProjectMuse(muse) => {
                if self.data.len() == 0 {
                    Err(
                        ThothError::IncompleteMetadataRecord(
                            String::from_str("onix_3.0::project_muse"),
                            String::from_str("Not enough data"),
                        ),
                    )
                } else {
                    assert(self.spec_data()[0].wf());
                    muse.generate(&self.data[0])
                }
            },
            MetadataSpecification::Onix3Oapen(_) => {
                Err(ThothError::InternalError(String::from_str("Unreachable specification")))
            },
            MetadataSpecification::CsvThoth(csv_thoth) => csv_thoth.generate(&self.data),
        }
    }
}

} // verus!
