//! The ONIX code tables: the fixed mapping from each domain
//! enumeration to the code its element carries.  The two ONIX dialects
//! of this library share these four lists, which their sources state
//! separately but identically.
//!
//! A catch-all value has no code: it must never reach a production
//! feed, and every mapper demands a concrete value.

use vstd::prelude::*;
use crate::client::{ContributionType, LanguageRelation, SubjectType, WorkStatus};

verus! {

/// The ONIX publishing status code of a work status.
pub open spec fn spec_work_status_code(s: WorkStatus) -> Seq<char> {
    match s {
        WorkStatus::UNSPECIFIED => "00"@,
        WorkStatus::CANCELLED => "01"@,
        WorkStatus::FORTHCOMING => "02"@,
        WorkStatus::POSTPONED_INDEFINITELY => "03"@,
        WorkStatus::ACTIVE => "04"@,
        WorkStatus::NO_LONGER_OUR_PRODUCT => "05"@,
        WorkStatus::OUT_OF_STOCK_INDEFINITELY => "06"@,
        WorkStatus::OUT_OF_PRINT => "07"@,
        WorkStatus::INACTIVE => "08"@,
        WorkStatus::UNKNOWN => "09"@,
        WorkStatus::REMAINDERED => "10"@,
        WorkStatus::WITHDRAWN_FROM_SALE => "11"@,
        WorkStatus::RECALLED => "15"@,
        WorkStatus::Other(_) => Seq::empty(),
    }
}

/// Maps a work status to its ONIX code.
pub fn work_status_code(s: &WorkStatus) -> (r: &'static str)
    requires
        s.is_concrete(),
    ensures
        r@ == spec_work_status_code(*s),
{
    match s {
        WorkStatus::UNSPECIFIED => "00",
        WorkStatus::CANCELLED => "01",
        WorkStatus::FORTHCOMING => "02",
        WorkStatus::POSTPONED_INDEFINITELY => "03",
        WorkStatus::ACTIVE => "04",
        WorkStatus::NO_LONGER_OUR_PRODUCT => "05",
        WorkStatus::OUT_OF_STOCK_INDEFINITELY => "06",
        WorkStatus::OUT_OF_PRINT => "07",
        WorkStatus::INACTIVE => "08",
        WorkStatus::UNKNOWN => "09",
        WorkStatus::REMAINDERED => "10",
        WorkStatus::WITHDRAWN_FROM_SALE => "11",
        WorkStatus::RECALLED => "15",
        WorkStatus::Other(_) => "",
    }
}

/// The ONIX subject scheme identifier of a subject type.
pub open spec fn spec_subject_scheme_code(s: SubjectType) -> Seq<char> {
    match s {
        SubjectType::BIC => "12"@,
        SubjectType::BISAC => "10"@,
        SubjectType::KEYWORD => "20"@,
        SubjectType::LCC => "04"@,
        SubjectType::THEMA => "93"@,
        SubjectType::CUSTOM => "B2"@,
        SubjectType::Other(_) => Seq::empty(),
    }
}

/// Maps a subject type to its ONIX scheme identifier.
pub fn subject_scheme_code(s: &SubjectType) -> (r: &'static str)
    requires
        s.is_concrete(),
    ensures
        r@ == spec_subject_scheme_code(*s),
{
    match s {
        SubjectType::BIC => "12",
        SubjectType::BISAC => "10",
        SubjectType::KEYWORD => "20",
        SubjectType::LCC => "04",
        SubjectType::THEMA => "93",
        SubjectType::CUSTOM => "B2",
        SubjectType::Other(_) => "",
    }
}

/// The ONIX language role of a language relation.  `ORIGINAL` and
/// `TRANSLATED_INTO` share the code `01`: that is the target code
/// list's own collision, kept as it stands.
pub open spec fn spec_language_role_code(s: LanguageRelation) -> Seq<char> {
    match s {
        LanguageRelation::ORIGINAL => "01"@,
        LanguageRelation::TRANSLATED_FROM => "02"@,
        LanguageRelation::TRANSLATED_INTO => "01"@,
        LanguageRelation::Other(_) => Seq::empty(),
    }
}

/// Maps a language relation to its ONIX role code.
pub fn language_role_code(s: &LanguageRelation) -> (r: &'static str)
    requires
        s.is_concrete(),
    ensures
        r@ == spec_language_role_code(*s),
{
    match s {
        LanguageRelation::ORIGINAL => "01",
        LanguageRelation::TRANSLATED_FROM => "02",
        LanguageRelation::TRANSLATED_INTO => "01",
        LanguageRelation::Other(_) => "",
    }
}

/// The ONIX contributor role of a contribution type.
pub open spec fn spec_contributor_role_code(s: ContributionType) -> Seq<char> {
    match s {
        ContributionType::AUTHOR => "A01"@,
        ContributionType::EDITOR => "B01"@,
        ContributionType::TRANSLATOR => "B06"@,
        ContributionType::PHOTOGRAPHER => "A13"@,
        ContributionType::ILUSTRATOR => "A12"@,
        ContributionType::MUSIC_EDITOR => "B25"@,
        ContributionType::FOREWORD_BY => "A23"@,
        ContributionType::INTRODUCTION_BY => "A24"@,
        ContributionType::AFTERWORD_BY => "A19"@,
        ContributionType::PREFACE_BY => "A15"@,
        ContributionType::Other(_) => Seq::empty(),
    }
}

/// Maps a contribution type to its ONIX contributor role.
pub fn contributor_role_code(s: &ContributionType) -> (r: &'static str)
    requires
        s.is_concrete(),
    ensures
        r@ == spec_contributor_role_code(*s),
{
    match s {
        ContributionType::AUTHOR => "A01",
        ContributionType::EDITOR => "B01",
        ContributionType::TRANSLATOR => "B06",
        ContributionType::PHOTOGRAPHER => "A13",
        ContributionType::ILUSTRATOR => "A12",
        ContributionType::MUSIC_EDITOR => "B25",
        ContributionType::FOREWORD_BY => "A23",
        ContributionType::INTRODUCTION_BY => "A24",
        ContributionType::AFTERWORD_BY => "A19",
        ContributionType::PREFACE_BY => "A15",
        ContributionType::Other(_) => "",
    }
}

/// Law: every concrete variant of the four enumerations carries a
/// defined, non-empty code, and the documented fixed pairs hold; both
/// ONIX dialects draw on these same lists.
pub proof fn lemma_code_mapping_totality(
    ws: WorkStatus,
    st: SubjectType,
    lr: LanguageRelation,
    ct: ContributionType,
)
    requires
        ws.is_concrete(),
        st.is_concrete(),
        lr.is_concrete(),
        ct.is_concrete(),
    ensures
        spec_work_status_code(ws).len() > 0,
        spec_subject_scheme_code(st).len() > 0,
        spec_language_role_code(lr).len() > 0,
        spec_contributor_role_code(ct).len() > 0,
        spec_work_status_code(WorkStatus::ACTIVE) == "04"@,
        spec_subject_scheme_code(SubjectType::BIC) == "12"@,
        spec_contributor_role_code(ContributionType::TRANSLATOR) == "B06"@,
{
    reveal_strlit("00");
    reveal_strlit("01");
    reveal_strlit("02");
    reveal_strlit("03");
    reveal_strlit("04");
    reveal_strlit("05");
    reveal_strlit("06");
    reveal_strlit("07");
    reveal_strlit("08");
    reveal_strlit("09");
    reveal_strlit("10");
    reveal_strlit("11");
    reveal_strlit("12");
    reveal_strlit("15");
    reveal_strlit("20");
    reveal_strlit("93");
    reveal_strlit("A01");
    reveal_strlit("A12");
    reveal_strlit("A13");
    reveal_strlit("A15");
    reveal_strlit("A19");
    reveal_strlit("A23");
    reveal_strlit("A24");
    reveal_strlit("B01");
    reveal_strlit("B06");
    reveal_strlit("B2");
    reveal_strlit("B25");
}

} // verus!
