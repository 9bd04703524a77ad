//! The location table's enumerations: hosting platform and sort field.

use vstd::prelude::*;

use crate::errors::ThothError;
use crate::text::str_eq;

verus! {

/// The platform hosting an access point.
#[derive(Clone, Debug, PartialEq)]
pub enum LocationPlatform {
    ProjectMuse,
    Oapen,
    Doab,
    Jstor,
    EbscoHost,
    OclcKb,
    ProquestKb,
    ProquestExlibris,
    EbscoKb,
    JiscKb,
    Other,
}

impl LocationPlatform {
    /// The display string of the variant.
    pub open spec fn spec_to_str(self) -> Seq<char> {
        match self {
            LocationPlatform::ProjectMuse => "Project MUSE"@,
            LocationPlatform::Oapen => "OAPEN"@,
            LocationPlatform::Doab => "DOAB"@,
            LocationPlatform::Jstor => "JSTOR"@,
            LocationPlatform::EbscoHost => "EBSCO Host"@,
            LocationPlatform::OclcKb => "OCLC KB"@,
            LocationPlatform::ProquestKb => "ProQuest KB"@,
            LocationPlatform::ProquestExlibris => "ProQuest ExLibris"@,
            LocationPlatform::EbscoKb => "EBSCO KB"@,
            LocationPlatform::JiscKb => "JISC KB"@,
            LocationPlatform::Other => "Other"@,
        }
    }

    /// Renders the display string.
    pub fn to_str(&self) -> (r: &'static str)
        ensures
            r@ == self.spec_to_str(),
    {
        match self {
            LocationPlatform::ProjectMuse => "Project MUSE",
            LocationPlatform::Oapen => "OAPEN",
            LocationPlatform::Doab => "DOAB",
            LocationPlatform::Jstor => "JSTOR",
            LocationPlatform::EbscoHost => "EBSCO Host",
            LocationPlatform::OclcKb => "OCLC KB",
            LocationPlatform::ProquestKb => "ProQuest KB",
            LocationPlatform::ProquestExlibris => "ProQuest ExLibris",
            LocationPlatform::EbscoKb => "EBSCO KB",
            LocationPlatform::JiscKb => "JISC KB",
            LocationPlatform::Other => "Other",
        }
    }

    /// The variant a string names, if any.
    pub open spec fn spec_from_str(s: Seq<char>) -> Option<LocationPlatform> {
        if s == "Project MUSE"@ {
            Option::Some(LocationPlatform::ProjectMuse)
        } else if s == "OAPEN"@ {
            Option::Some(LocationPlatform::Oapen)
        } else if s == "DOAB"@ {
            Option::Some(LocationPlatform::Doab)
        } else if s == "JSTOR"@ {
            Option::Some(LocationPlatform::Jstor)
        } else if s == "EBSCO Host"@ {
            Option::Some(LocationPlatform::EbscoHost)
        } else if s == "OCLC KB"@ {
            Option::Some(LocationPlatform::OclcKb)
        } else if s == "ProQuest KB"@ {
            Option::Some(LocationPlatform::ProquestKb)
        } else if s == "ProQuest ExLibris"@ {
            Option::Some(LocationPlatform::ProquestExlibris)
        } else if s == "EBSCO KB"@ {
            Option::Some(LocationPlatform::EbscoKb)
        } else if s == "JISC KB"@ {
            Option::Some(LocationPlatform::JiscKb)
        } else if s == "Other"@ {
            Option::Some(LocationPlatform::Other)
        } else {
            Option::None
        }
    }

    /// Parses a display string; unknown strings are refused.
    pub fn from_str(input: &str) -> (r: Result<LocationPlatform, ThothError>)
        ensures
            (match Self::spec_from_str(input@) {
                Option::Some(v) => r matches Ok(x) && x == v,
                Option::None => r matches Err(e) && e is VariantNotFound,
            }),
    {
        if str_eq(input, "Project MUSE") {
            Ok(LocationPlatform::ProjectMuse)
        } else if str_eq(input, "OAPEN") {
            Ok(LocationPlatform::Oapen)
        } else if str_eq(input, "DOAB") {
            Ok(LocationPlatform::Doab)
        } else if str_eq(input, "JSTOR") {
            Ok(LocationPlatform::Jstor)
        } else if str_eq(input, "EBSCO Host") {
            Ok(LocationPlatform::EbscoHost)
        } else if str_eq(input, "OCLC KB") {
            Ok(LocationPlatform::OclcKb)
        } else if str_eq(input, "ProQuest KB") {
            Ok(LocationPlatform::ProquestKb)
        } else if str_eq(input, "ProQuest ExLibris") {
            Ok(LocationPlatform::ProquestExlibris)
        } else if str_eq(input, "EBSCO KB") {
            Ok(LocationPlatform::EbscoKb)
        } else if str_eq(input, "JISC KB") {
            Ok(LocationPlatform::JiscKb)
        } else if str_eq(input, "Other") {
            Ok(LocationPlatform::Other)
        } else {
            Err(ThothError::VariantNotFound)
        }
    }
}

impl Default for LocationPlatform {
    /// The default variant: `Other`.
    fn default() -> (r: LocationPlatform)
        ensures
            r == LocationPlatform::Other,
    {
        LocationPlatform::Other
    }
}
/// A sortable column of the locations list.
#[derive(Clone, Debug, PartialEq)]
pub enum LocationField {
    LocationId,
    PublicationId,
    LandingPage,
    FullTextUrl,
    LocationPlatform,
    Canonical,
    CreatedAt,
    UpdatedAt,
}

impl LocationField {
}

} // verus!
