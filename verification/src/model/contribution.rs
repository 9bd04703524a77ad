//! The contribution table's role enumeration, and the closed role list as the editing forms fetch it.

use vstd::prelude::*;

verus! {

/// The role a contributor played.
#[derive(Clone, Debug, PartialEq)]
pub enum ContributionType {
    Author,
    Editor,
    Translator,
    Photographer,
    Illustrator,
    MusicEditor,
    ForewordBy,
    IntroductionBy,
    AfterwordBy,
    PrefaceBy,
}

impl ContributionType {
    /// The display string of the variant.
    pub open spec fn spec_to_str(self) -> Seq<char> {
        match self {
            ContributionType::Author => "Author"@,
            ContributionType::Editor => "Editor"@,
            ContributionType::Translator => "Translator"@,
            ContributionType::Photographer => "Photographer"@,
            ContributionType::Illustrator => "Illustrator"@,
            ContributionType::MusicEditor => "Music Editor"@,
            ContributionType::ForewordBy => "Foreword By"@,
            ContributionType::IntroductionBy => "Introduction By"@,
            ContributionType::AfterwordBy => "Afterword By"@,
            ContributionType::PrefaceBy => "Preface By"@,
        }
    }

    /// Renders the display string.
    pub fn to_str(&self) -> (r: &'static str)
        ensures
            r@ == self.spec_to_str(),
    {
        match self {
            ContributionType::Author => "Author",
            ContributionType::Editor => "Editor",
            ContributionType::Translator => "Translator",
            ContributionType::Photographer => "Photographer",
            ContributionType::Illustrator => "Illustrator",
            ContributionType::MusicEditor => "Music Editor",
            ContributionType::ForewordBy => "Foreword By",
            ContributionType::IntroductionBy => "Introduction By",
            ContributionType::AfterwordBy => "Afterword By",
            ContributionType::PrefaceBy => "Preface By",
        }
    }
}

impl Default for ContributionType {
    /// The default variant: `Author`.
    fn default() -> (r: ContributionType)
        ensures
            r == ContributionType::Author,
    {
        ContributionType::Author
    }
}
/// The closed list of contribution roles, as the editing forms fetch
/// it.
#[derive(Clone, Debug, PartialEq)]
pub struct ContributionTypeDefinition {
    pub enum_values: Vec<ContributionTypeValues>,
}

/// One entry of the role list.
#[derive(Clone, Debug, PartialEq)]
pub struct ContributionTypeValues {
    pub name: ContributionType,
}

} // verus!
