//! The CSV dialect: one force-quoted row per work, compound fields
//! rendered as bracketed lists of tuples.

use vstd::prelude::*;
use crate::client::{
    SubjectType, Work, WorkContributions, WorkContributionsAffiliations, WorkFundings, WorkIssues,
    WorkLanguages, WorkPublications, WorkPublicationsLocations, WorkPublicationsPrices,
    WorkSubjects,
};
use crate::csv_writer::{csv_expected, csv_written, spec_csv_record, CsvSink};
use crate::errors::ThothError;
use crate::model::Date;
use crate::seq_util::lemma_map_values_push;
use crate::text::{
    bool_str, i64_to_dec, money_str, opt_str, spec_bool_str, spec_dec_i64, spec_money,
    spec_opt_str,
};

verus! {

/// Sub-cells joined by commas, without an inserted space.
pub open spec fn spec_joined(items: Seq<Seq<char>>) -> Seq<char>
    decreases items.len(),
{
    if items.len() == 0 {
        Seq::empty()
    } else if items.len() == 1 {
        items[0]
    } else {
        spec_joined(items.drop_last()) + seq![','] + items.last()
    }
}

/// What the list cell holds: nothing for an empty list, else the
/// comma-joined sub-cells inside one pair of brackets.
pub open spec fn spec_list_cell(items: Seq<Seq<char>>) -> Seq<char> {
    if items.len() == 0 {
        Seq::empty()
    } else {
        seq!['['] + spec_joined(items) + seq![']']
    }
}

/// Renders a list of already-rendered sub-cells as one cell.
pub fn csv_cell_list(items: &Vec<String>) -> (r: String)
    ensures
        r@ == spec_list_cell(items@.map_values(|s: String| s@)),
{
    let ghost views = items@.map_values(|s: String| s@);
    if items.len() == 0 {
        proof {
            reveal_strlit("");
            assert(""@ =~= Seq::<char>::empty());
        }
        return String::from_str("");
    }
    let mut s = String::new();
    crate::text::push_char(&mut s, '[');
    let mut i: usize = 0;
    while i < items.len()
        invariant
            views == items@.map_values(|s: String| s@),
            items@.len() > 0,
            i <= items@.len(),
            i > 0 ==> s@ == seq!['['] + spec_joined(views.subrange(0, i as int)),
            i == 0 ==> s@ == seq!['['],
        decreases items@.len() - i,
    {
        if i > 0 {
            crate::text::push_char(&mut s, ',');
        }
        s.append(items[i].as_str());
        proof {
            let pre = views.subrange(0, i as int);
            let cur = views.subrange(0, i + 1 as int);
            assert(cur.drop_last() =~= pre);
            assert(cur.last() == views[i as int]);
            if i > 0 {
                assert(s@ == seq!['['] + (spec_joined(pre) + seq![','] + views[i as int]));
                assert(s@ =~= seq!['['] + spec_joined(cur));
            } else {
                assert(cur.len() == 1);
                assert(s@ =~= seq!['['] + spec_joined(cur));
            }
        }
        i = i + 1;
    }
    crate::text::push_char(&mut s, ']');
    proof {
        assert(views.subrange(0, views.len() as int) =~= views);
        assert(s@ =~= spec_list_cell(views));
    }
    s
}

impl WorkPublicationsPrices {
    /// What `csv_cell` returns: `("CUR", "amount")`.
    pub open spec fn spec_csv_cell(self) -> Seq<char> {
        "(\""@ + self.currency_code.spec_name() + "\", \""@ + spec_money(self.unit_price as nat)
            + "\")"@
    }

    /// Renders the price as a sub-cell.
    pub fn csv_cell(&self) -> (r: String)
        requires
            self.wf(),
        ensures
            r@ == self.spec_csv_cell(),
    {
        let mut s = String::from_str("(\"");
        let cur = self.currency_code.name_str();
        s.append(cur.as_str());
        s.append("\", \"");
        let amount = money_str(self.unit_price);
        s.append(amount.as_str());
        s.append("\")");
        s
    }
}

impl WorkPublicationsLocations {
    /// What `csv_cell` returns:
    /// `("landing", "full_text", "PLATFORM", "canonical")`.
    pub open spec fn spec_csv_cell(self) -> Seq<char> {
        "(\""@ + spec_opt_str(self.landing_page) + "\", \""@ + spec_opt_str(self.full_text_url)
            + "\", \""@ + self.location_platform.spec_name() + "\", \""@ + spec_bool_str(
            self.canonical,
        ) + "\")"@
    }

    /// Renders the location as a sub-cell.
    pub fn csv_cell(&self) -> (r: String)
        requires
            self.wf(),
        ensures
            r@ == self.spec_csv_cell(),
    {
        let mut s = String::from_str("(\"");
        s.append(opt_str(&self.landing_page));
        s.append("\", \"");
        s.append(opt_str(&self.full_text_url));
        s.append("\", \"");
        let platform = self.location_platform.name_str();
        s.append(platform.as_str());
        s.append("\", \"");
        s.append(bool_str(self.canonical));
        s.append("\")");
        s
    }
}

impl WorkContributionsAffiliations {
    /// What `csv_cell` returns: `("position", "ordinal", "institution")`.
    pub open spec fn spec_csv_cell(self) -> Seq<char> {
        "(\""@ + spec_opt_str(self.position) + "\", \""@ + spec_dec_i64(
            self.affiliation_ordinal as int,
        ) + "\", \""@ + self.institution.institution_name@ + "\")"@
    }

    /// Renders the affiliation as a sub-cell.
    pub fn csv_cell(&self) -> (r: String)
        ensures
            r@ == self.spec_csv_cell(),
    {
        let mut s = String::from_str("(\"");
        s.append(opt_str(&self.position));
        s.append("\", \"");
        let ordinal = i64_to_dec(self.affiliation_ordinal);
        s.append(ordinal.as_str());
        s.append("\", \"");
        s.append(self.institution.institution_name.as_str());
        s.append("\")");
        s
    }
}

/// The affiliation sub-cells of a contribution, in order.
pub open spec fn spec_affiliation_cells(affs: Seq<WorkContributionsAffiliations>) -> Seq<
    Seq<char>,
> {
    affs.map_values(|a: WorkContributionsAffiliations| a.spec_csv_cell())
}

impl WorkContributions {
    /// What `csv_cell` returns: `("TYPE", "first", "last", "full",
    /// "orcid", [affiliations])`.
    pub open spec fn spec_csv_cell(self) -> Seq<char> {
        "(\""@ + self.contribution_type.spec_name() + "\", \""@ + spec_opt_str(self.first_name)
            + "\", \""@ + self.last_name@ + "\", \""@ + self.full_name@ + "\", \""@ + (
        match self.contributor.orcid {
            Option::Some(o) => o@,
            Option::None => Seq::empty(),
        }) + "\", "@ + spec_list_cell(spec_affiliation_cells(self.affiliations@)) + ")"@
    }

    /// Renders the contribution as a sub-cell.
    pub fn csv_cell(&self) -> (r: String)
        requires
            self.wf(),
        ensures
            r@ == self.spec_csv_cell(),
    {
        let mut s = String::from_str("(\"");
        let kind = self.contribution_type.name_str();
        s.append(kind.as_str());
        s.append("\", \"");
        s.append(opt_str(&self.first_name));
        s.append("\", \"");
        s.append(self.last_name.as_str());
        s.append("\", \"");
        s.append(self.full_name.as_str());
        s.append("\", \"");
        match &self.contributor.orcid {
            Option::Some(o) => s.append(o.to_str()),
            Option::None => (),
        }
        s.append("\", ");
        let mut aff_cells: Vec<String> = Vec::new();
        let mut i: usize = 0;
        while i < self.affiliations.len()
            invariant
                i <= self.affiliations@.len(),
                aff_cells@.map_values(|c: String| c@) == spec_affiliation_cells(
                    self.affiliations@.subrange(0, i as int),
                ),
            decreases self.affiliations@.len() - i,
        {
            let cell = self.affiliations[i].csv_cell();
            let ghost before = aff_cells@;
            aff_cells.push(cell);
            proof {
                let e = self.affiliations@[i as int];
                assert(self.affiliations@.subrange(0, i + 1 as int) =~= self.affiliations@.subrange(
                    0,
                    i as int,
                ).push(e));
                lemma_map_values_push(
                    self.affiliations@.subrange(0, i as int),
                    |a: WorkContributionsAffiliations| a.spec_csv_cell(),
                    e,
                );
                lemma_map_values_push(before, |c: String| c@, cell);
            }
            i = i + 1;
        }
        proof {
            assert(self.affiliations@.subrange(0, self.affiliations@.len() as int)
                =~= self.affiliations@);
        }
        let affs = csv_cell_list(&aff_cells);
        s.append(affs.as_str());
        s.append(")");
        s
    }
}

/// The price sub-cells of a publication, in order.
pub open spec fn spec_price_cells(prices: Seq<WorkPublicationsPrices>) -> Seq<Seq<char>> {
    prices.map_values(|p: WorkPublicationsPrices| p.spec_csv_cell())
}

/// The location sub-cells of a publication, in order.
pub open spec fn spec_location_cells(locations: Seq<WorkPublicationsLocations>) -> Seq<Seq<char>> {
    locations.map_values(|l: WorkPublicationsLocations| l.spec_csv_cell())
}

impl WorkPublications {
    /// What `csv_cell` returns: `("TYPE", "isbn", [prices],
    /// [locations])`.
    pub open spec fn spec_csv_cell(self) -> Seq<char> {
        "(\""@ + self.publication_type.spec_name() + "\", \""@ + (match self.isbn {
            Option::Some(i) => i@,
            Option::None => Seq::empty(),
        }) + "\", "@ + spec_list_cell(spec_price_cells(self.prices@)) + ", "@ + spec_list_cell(
            spec_location_cells(self.locations@),
        ) + ")"@
    }

    /// Renders the publication as a sub-cell.
    pub fn csv_cell(&self) -> (r: String)
        requires
            self.wf(),
        ensures
            r@ == self.spec_csv_cell(),
    {
        let mut s = String::from_str("(\"");
        let kind = self.publication_type.name_str();
        s.append(kind.as_str());
        s.append("\", \"");
        match &self.isbn {
            Option::Some(i) => s.append(i.to_str()),
            Option::None => (),
        }
        s.append("\", ");
        let mut price_cells: Vec<String> = Vec::new();
        let mut i: usize = 0;
        while i < self.prices.len()
            invariant
                self.wf(),
                i <= self.prices@.len(),
                price_cells@.map_values(|c: String| c@) == spec_price_cells(
                    self.prices@.subrange(0, i as int),
                ),
            decreases self.prices@.len() - i,
        {
            assert(self.prices@[i as int].wf());
            let cell = self.prices[i].csv_cell();
            let ghost before = price_cells@;
            price_cells.push(cell);
            proof {
                let e = self.prices@[i as int];
                assert(self.prices@.subrange(0, i + 1 as int) =~= self.prices@.subrange(
                    0,
                    i as int,
                ).push(e));
                lemma_map_values_push(
                    self.prices@.subrange(0, i as int),
                    |p: WorkPublicationsPrices| p.spec_csv_cell(),
                    e,
                );
                lemma_map_values_push(before, |c: String| c@, cell);
            }
            i = i + 1;
        }
        proof {
            assert(self.prices@.subrange(0, self.prices@.len() as int) =~= self.prices@);
        }
        let prices = csv_cell_list(&price_cells);
        s.append(prices.as_str());
        s.append(", ");
        let mut location_cells: Vec<String> = Vec::new();
        let mut j: usize = 0;
        while j < self.locations.len()
            invariant
                self.wf(),
                j <= self.locations@.len(),
                location_cells@.map_values(|c: String| c@) == spec_location_cells(
                    self.locations@.subrange(0, j as int),
                ),
            decreases self.locations@.len() - j,
        {
            assert(self.locations@[j as int].wf());
            let cell = self.locations[j].csv_cell();
            let ghost before = location_cells@;
            location_cells.push(cell);
            proof {
                let e = self.locations@[j as int];
                assert(self.locations@.subrange(0, j + 1 as int) =~= self.locations@.subrange(
                    0,
                    j as int,
                ).push(e));
                lemma_map_values_push(
                    self.locations@.subrange(0, j as int),
                    |l: WorkPublicationsLocations| l.spec_csv_cell(),
                    e,
                );
                lemma_map_values_push(before, |c: String| c@, cell);
            }
            j = j + 1;
        }
        proof {
            assert(self.locations@.subrange(0, self.locations@.len() as int) =~= self.locations@);
        }
        let locations = csv_cell_list(&location_cells);
        s.append(locations.as_str());
        s.append(")");
        s
    }
}

impl WorkIssues {
    /// What `csv_cell` returns: `("TYPE", "name", "issn_print",
    /// "issn_digital", "url", "ordinal")`.
    pub open spec fn spec_csv_cell(self) -> Seq<char> {
        "(\""@ + self.series.series_type.spec_name() + "\", \""@ + self.series.series_name@
            + "\", \""@ + self.series.issn_print@ + "\", \""@ + self.series.issn_digital@
            + "\", \""@ + spec_opt_str(self.series.series_url) + "\", \""@ + spec_dec_i64(
            self.issue_ordinal as int,
        ) + "\")"@
    }

    /// Renders the issue as a sub-cell.
    pub fn csv_cell(&self) -> (r: String)
        requires
            self.wf(),
        ensures
            r@ == self.spec_csv_cell(),
    {
        let mut s = String::from_str("(\"");
        let kind = self.series.series_type.name_str();
        s.append(kind.as_str());
        s.append("\", \"");
        s.append(self.series.series_name.as_str());
        s.append("\", \"");
        s.append(self.series.issn_print.as_str());
        s.append("\", \"");
        s.append(self.series.issn_digital.as_str());
        s.append("\", \"");
        s.append(opt_str(&self.series.series_url));
        s.append("\", \"");
        let ordinal = i64_to_dec(self.issue_ordinal);
        s.append(ordinal.as_str());
        s.append("\")");
        s
    }
}

impl WorkLanguages {
    /// What `csv_cell` returns: `("RELATION", "CODE", "is_main")`.
    pub open spec fn spec_csv_cell(self) -> Seq<char> {
        "(\""@ + self.language_relation.spec_name() + "\", \""@ + self.language_code@ + "\", \""@
            + spec_bool_str(self.main_language) + "\")"@
    }

    /// Renders the language as a sub-cell.
    pub fn csv_cell(&self) -> (r: String)
        requires
            self.wf(),
        ensures
            r@ == self.spec_csv_cell(),
    {
        let mut s = String::from_str("(\"");
        let relation = self.language_relation.name_str();
        s.append(relation.as_str());
        s.append("\", \"");
        s.append(self.language_code.as_str());
        s.append("\", \"");
        s.append(bool_str(self.main_language));
        s.append("\")");
        s
    }
}

/// The lowercase hexadecimal digit for `d`.
pub open spec fn spec_hex_digit(d: nat) -> char {
    if d == 0 {
        '0'
    } else if d == 1 {
        '1'
    } else if d == 2 {
        '2'
    } else if d == 3 {
        '3'
    } else if d == 4 {
        '4'
    } else if d == 5 {
        '5'
    } else if d == 6 {
        '6'
    } else if d == 7 {
        '7'
    } else if d == 8 {
        '8'
    } else if d == 9 {
        '9'
    } else if d == 10 {
        'a'
    } else if d == 11 {
        'b'
    } else if d == 12 {
        'c'
    } else if d == 13 {
        'd'
    } else {
        if d == 14 {
            'e'
        } else {
            'f'
        }
    }
}

/// `v` in lowercase hexadecimal without leading zeros, for values
/// below 256.
pub open spec fn spec_hex_byte(v: nat) -> Seq<char> {
    if v < 16 {
        seq![spec_hex_digit(v)]
    } else {
        seq![spec_hex_digit(v / 16), spec_hex_digit(v % 16)]
    }
}

/// One character as the debug formatter writes it inside a quoted
/// string: quote, backslash, the named ASCII controls and the nul are
/// escaped with a backslash, every other ASCII control becomes a
/// bracketed hexadecimal escape, and all remaining characters stand
/// unchanged.  This matches the formatter over the ASCII range; a
/// character beyond it passes through, where the formatter would also
/// escape the unprintable few.
pub open spec fn spec_char_debug_escape(c: char) -> Seq<char> {
    if c == '"' {
        seq!['\\', '"']
    } else if c == '\\' {
        seq!['\\', '\\']
    } else if c == '\n' {
        seq!['\\', 'n']
    } else if c == '\r' {
        seq!['\\', 'r']
    } else if c == '\t' {
        seq!['\\', 't']
    } else if c == '\0' {
        seq!['\\', '0']
    } else if (c as u32) < 32 || (c as u32) == 127 {
        seq!['\\', 'u', '{'] + spec_hex_byte(c as nat) + seq!['}']
    } else {
        seq![c]
    }
}

/// A string as the subject cell prints it: each character escaped as
/// [`spec_char_debug_escape`] states.
pub open spec fn spec_debug_escaped(s: Seq<char>) -> Seq<char>
    decreases s.len(),
{
    if s.len() == 0 {
        Seq::empty()
    } else {
        spec_debug_escaped(s.drop_last()) + spec_char_debug_escape(s.last())
    }
}

fn hex_digit_char(d: u32) -> (r: char)
    requires
        d < 16,
    ensures
        r == spec_hex_digit(d as nat),
{
    if d == 0 {
        '0'
    } else if d == 1 {
        '1'
    } else if d == 2 {
        '2'
    } else if d == 3 {
        '3'
    } else if d == 4 {
        '4'
    } else if d == 5 {
        '5'
    } else if d == 6 {
        '6'
    } else if d == 7 {
        '7'
    } else if d == 8 {
        '8'
    } else if d == 9 {
        '9'
    } else if d == 10 {
        'a'
    } else if d == 11 {
        'b'
    } else if d == 12 {
        'c'
    } else if d == 13 {
        'd'
    } else if d == 14 {
        'e'
    } else {
        'f'
    }
}

fn push_debug_escaped_char(s: &mut String, c: char)
    ensures
        final(s)@ == old(s)@ + spec_char_debug_escape(c),
{
    if c == '"' {
        crate::text::push_char(s, '\\');
        crate::text::push_char(s, '"');
    } else if c == '\\' {
        crate::text::push_char(s, '\\');
        crate::text::push_char(s, '\\');
    } else if c == '\n' {
        crate::text::push_char(s, '\\');
        crate::text::push_char(s, 'n');
    } else if c == '\r' {
        crate::text::push_char(s, '\\');
        crate::text::push_char(s, 'r');
    } else if c == '\t' {
        crate::text::push_char(s, '\\');
        crate::text::push_char(s, 't');
    } else if c == '\0' {
        crate::text::push_char(s, '\\');
        crate::text::push_char(s, '0');
    } else if (c as u32) < 32 || (c as u32) == 127 {
        crate::text::push_char(s, '\\');
        crate::text::push_char(s, 'u');
        crate::text::push_char(s, '{');
        let v = c as u32;
        if v < 16 {
            crate::text::push_char(s, hex_digit_char(v));
        } else {
            crate::text::push_char(s, hex_digit_char(v / 16));
            crate::text::push_char(s, hex_digit_char(v % 16));
        }
        crate::text::push_char(s, '}');
        proof {
            assert(s@ =~= old(s)@ + spec_char_debug_escape(c));
        }
    } else {
        crate::text::push_char(s, c);
    }
}

impl WorkSubjects {
    /// What `csv_cell` returns: the subject code in escaped quotes.
    pub open spec fn spec_csv_cell(self) -> Seq<char> {
        seq!['"'] + spec_debug_escaped(self.subject_code@) + seq!['"']
    }

    /// Renders the subject as a sub-cell.
    pub fn csv_cell(&self) -> (r: String)
        ensures
            r@ == self.spec_csv_cell(),
    {
        let mut s = String::new();
        crate::text::push_char(&mut s, '"');
        let code = self.subject_code.as_str();
        let len = code.unicode_len();
        let mut i: usize = 0;
        while i < len
            invariant
                len == code@.len(),
                i <= len,
                s@ == seq!['"'] + spec_debug_escaped(code@.subrange(0, i as int)),
            decreases len - i,
        {
            let c = code.get_char(i);
            proof {
                assert(code@.subrange(0, i + 1 as int).drop_last() =~= code@.subrange(0, i as int));
                assert(code@.subrange(0, i + 1 as int).last() == code@[i as int]);
            }
            push_debug_escaped_char(&mut s, c);
            i = i + 1;
        }
        proof {
            assert(code@.subrange(0, len as int) =~= code@);
        }
        crate::text::push_char(&mut s, '"');
        proof {
            assert(s@ =~= self.spec_csv_cell());
        }
        s
    }
}

impl WorkFundings {
    /// What `csv_cell` returns: `("institution", "doi", "ror",
    /// "country", "program", "project", "grant", "jurisdiction")`.
    pub open spec fn spec_csv_cell(self) -> Seq<char> {
        "(\""@ + self.institution.institution_name@ + "\", \""@ + (
        match self.institution.institution_doi {
            Option::Some(d) => d@,
            Option::None => Seq::empty(),
        }) + "\", \""@ + (match self.institution.ror {
            Option::Some(r) => r@,
            Option::None => Seq::empty(),
        }) + "\", \""@ + spec_opt_str(self.institution.country_code) + "\", \""@ + spec_opt_str(
            self.program,
        ) + "\", \""@ + spec_opt_str(self.project_name) + "\", \""@ + spec_opt_str(
            self.grant_number,
        ) + "\", \""@ + spec_opt_str(self.jurisdiction) + "\")"@
    }

    /// Renders the funding as a sub-cell.
    pub fn csv_cell(&self) -> (r: String)
        ensures
            r@ == self.spec_csv_cell(),
    {
        let mut s = String::from_str("(\"");
        s.append(self.institution.institution_name.as_str());
        s.append("\", \"");
        match &self.institution.institution_doi {
            Option::Some(d) => s.append(d.to_str()),
            Option::None => (),
        }
        s.append("\", \"");
        match &self.institution.ror {
            Option::Some(r) => s.append(r.to_str()),
            Option::None => (),
        }
        s.append("\", \"");
        s.append(opt_str(&self.institution.country_code));
        s.append("\", \"");
        s.append(opt_str(&self.program));
        s.append("\", \"");
        s.append(opt_str(&self.project_name));
        s.append("\", \"");
        s.append(opt_str(&self.grant_number));
        s.append("\", \"");
        s.append(opt_str(&self.jurisdiction));
        s.append("\")");
        s
    }
}

/// `x` placed behind every element whose ordinal does not exceed its
/// own: one step of a stable insertion sort.
pub open spec fn spec_ordinal_insert(sorted: Seq<WorkSubjects>, x: WorkSubjects) -> Seq<
    WorkSubjects,
>
    decreases sorted.len(),
{
    if sorted.len() == 0 {
        seq![x]
    } else if sorted.last().subject_ordinal <= x.subject_ordinal {
        sorted.push(x)
    } else {
        spec_ordinal_insert(sorted.drop_last(), x).push(sorted.last())
    }
}

/// The subjects in ascending `subject_ordinal` order, ties keeping
/// their given order: the stable sort the row applies before grouping
/// subjects by scheme.
pub open spec fn spec_subjects_sorted(s: Seq<WorkSubjects>) -> Seq<WorkSubjects>
    decreases s.len(),
{
    if s.len() == 0 {
        Seq::empty()
    } else {
        spec_ordinal_insert(spec_subjects_sorted(s.drop_last()), s.last())
    }
}

/// The subjects that `order` lists, in that order.
pub open spec fn spec_picked(s: Seq<WorkSubjects>, order: Seq<usize>) -> Seq<WorkSubjects> {
    order.map_values(|u: usize| s[u as int])
}

fn ordinal_insert(out: &mut Vec<usize>, subjects: &Vec<WorkSubjects>, xi: usize)
    requires
        xi < subjects@.len(),
        forall|k: int| 0 <= k < old(out)@.len() ==> (#[trigger] old(out)@[k]) < subjects@.len(),
    ensures
        forall|k: int| 0 <= k < final(out)@.len() ==> (#[trigger] final(out)@[k]) < subjects@.len(),
        spec_picked(subjects@, final(out)@) == spec_ordinal_insert(
            spec_picked(subjects@, old(out)@),
            subjects@[xi as int],
        ),
    decreases old(out)@.len(),
{
    let ghost orig = out@;
    let n = out.len();
    if n == 0 {
        out.push(xi);
        proof {
            assert(spec_picked(subjects@, orig).len() == 0);
            assert(spec_picked(subjects@, out@) =~= seq![subjects@[xi as int]]);
        }
        return ;
    }
    let last_idx = out[n - 1];
    if subjects[last_idx].subject_ordinal <= subjects[xi].subject_ordinal {
        out.push(xi);
        proof {
            let m = spec_picked(subjects@, orig);
            assert(m.len() > 0);
            assert(m.last() == subjects@[last_idx as int]);
            assert(spec_picked(subjects@, out@) =~= m.push(subjects@[xi as int]));
        }
    } else {
        let top = out.pop().unwrap();
        proof {
            let m = spec_picked(subjects@, orig);
            assert(m.len() > 0);
            assert(m.last() == subjects@[top as int]);
            assert(spec_picked(subjects@, out@) =~= m.drop_last());
        }
        ordinal_insert(out, subjects, xi);
        out.push(top);
        proof {
            let m = spec_picked(subjects@, orig);
            assert(spec_picked(subjects@, out@) =~= spec_ordinal_insert(
                m.drop_last(),
                subjects@[xi as int],
            ).push(m.last()));
        }
    }
}

/// Computes the order in which the subjects stand after the stable
/// ordinal sort, as indices into the given list.
pub fn sorted_subject_order(subjects: &Vec<WorkSubjects>) -> (order: Vec<usize>)
    ensures
        forall|k: int| 0 <= k < order@.len() ==> (#[trigger] order@[k]) < subjects@.len(),
        spec_picked(subjects@, order@) == spec_subjects_sorted(subjects@),
{
    let mut order: Vec<usize> = Vec::new();
    let mut i: usize = 0;
    while i < subjects.len()
        invariant
            i <= subjects@.len(),
            forall|k: int| 0 <= k < order@.len() ==> (#[trigger] order@[k]) < subjects@.len(),
            spec_picked(subjects@, order@) == spec_subjects_sorted(subjects@.subrange(0, i as int)),
        decreases subjects@.len() - i,
    {
        ordinal_insert(&mut order, subjects, i);
        proof {
            let pre = subjects@.subrange(0, i as int);
            let cur = subjects@.subrange(0, i + 1 as int);
            assert(cur.drop_last() =~= pre);
            assert(cur.last() == subjects@[i as int]);
        }
        i = i + 1;
    }
    proof {
        assert(subjects@.subrange(0, subjects@.len() as int) =~= subjects@);
    }
    order
}

/// Whether a subject's scheme is the scheme asked for; catch-all
/// values never match.
pub open spec fn spec_same_scheme(a: SubjectType, b: SubjectType) -> bool {
    match (a, b) {
        (SubjectType::BIC, SubjectType::BIC) => true,
        (SubjectType::BISAC, SubjectType::BISAC) => true,
        (SubjectType::THEMA, SubjectType::THEMA) => true,
        (SubjectType::LCC, SubjectType::LCC) => true,
        (SubjectType::CUSTOM, SubjectType::CUSTOM) => true,
        (SubjectType::KEYWORD, SubjectType::KEYWORD) => true,
        _ => false,
    }
}

fn same_scheme(a: &SubjectType, b: &SubjectType) -> (r: bool)
    ensures
        r == spec_same_scheme(*a, *b),
{
    match (a, b) {
        (SubjectType::BIC, SubjectType::BIC) => true,
        (SubjectType::BISAC, SubjectType::BISAC) => true,
        (SubjectType::THEMA, SubjectType::THEMA) => true,
        (SubjectType::LCC, SubjectType::LCC) => true,
        (SubjectType::CUSTOM, SubjectType::CUSTOM) => true,
        (SubjectType::KEYWORD, SubjectType::KEYWORD) => true,
        _ => false,
    }
}

/// The members of `s` whose scheme is `which`, in order.
pub open spec fn spec_of_scheme(s: Seq<WorkSubjects>, which: SubjectType) -> Seq<WorkSubjects>
    decreases s.len(),
{
    if s.len() == 0 {
        Seq::empty()
    } else if spec_same_scheme(s.last().subject_type, which) {
        spec_of_scheme(s.drop_last(), which).push(s.last())
    } else {
        spec_of_scheme(s.drop_last(), which)
    }
}

/// The sub-cells of one scheme's grouping: the sorted subjects of that
/// scheme, each rendered as a cell.
pub open spec fn spec_scheme_cells(s: Seq<WorkSubjects>, which: SubjectType) -> Seq<Seq<char>> {
    spec_of_scheme(spec_subjects_sorted(s), which).map_values(
        |x: WorkSubjects| x.spec_csv_cell(),
    )
}

/// Renders one scheme's grouping cell from the precomputed sort order.
fn scheme_cell(
    subjects: &Vec<WorkSubjects>,
    order: &Vec<usize>,
    which: &SubjectType,
) -> (r: String)
    requires
        forall|k: int| 0 <= k < order@.len() ==> (#[trigger] order@[k]) < subjects@.len(),
        spec_picked(subjects@, order@) == spec_subjects_sorted(subjects@),
    ensures
        r@ == spec_list_cell(spec_scheme_cells(subjects@, *which)),
{
    let ghost sorted = spec_subjects_sorted(subjects@);
    let mut cells: Vec<String> = Vec::new();
    let mut k: usize = 0;
    while k < order.len()
        invariant
            forall|j: int| 0 <= j < order@.len() ==> (#[trigger] order@[j]) < subjects@.len(),
            spec_picked(subjects@, order@) == sorted,
            sorted == spec_subjects_sorted(subjects@),
            k <= order@.len(),
            sorted.len() == order@.len(),
            cells@.map_values(|c: String| c@) == spec_of_scheme(
                sorted.subrange(0, k as int),
                *which,
            ).map_values(|x: WorkSubjects| x.spec_csv_cell()),
        decreases order@.len() - k,
    {
        let idx = order[k];
        let ghost e = sorted[k as int];
        proof {
            assert(sorted[k as int] == subjects@[order@[k as int] as int]);
            let pre = sorted.subrange(0, k as int);
            let cur = sorted.subrange(0, k + 1 as int);
            assert(cur.drop_last() =~= pre);
            assert(cur.last() == e);
            assert(spec_of_scheme(cur, *which) == if spec_same_scheme(e.subject_type, *which) {
                spec_of_scheme(pre, *which).push(e)
            } else {
                spec_of_scheme(pre, *which)
            });
        }
        if same_scheme(&subjects[idx].subject_type, which) {
            let ghost before = cells@;
            let cell = subjects[idx].csv_cell();
            cells.push(cell);
            proof {
                lemma_map_values_push(
                    spec_of_scheme(sorted.subrange(0, k as int), *which),
                    |x: WorkSubjects| x.spec_csv_cell(),
                    e,
                );
                lemma_map_values_push(before, |c: String| c@, cell);
            }
        }
        k = k + 1;
    }
    proof {
        assert(sorted.subrange(0, sorted.len() as int) =~= sorted);
    }
    csv_cell_list(&cells)
}

/// The text of an optional count, empty where absent.
pub open spec fn spec_opt_i64(o: Option<i64>) -> Seq<char> {
    match o {
        Option::Some(n) => spec_dec_i64(n as int),
        Option::None => Seq::empty(),
    }
}

fn opt_i64_cell(o: &Option<i64>) -> (r: String)
    ensures
        r@ == spec_opt_i64(*o),
{
    match o {
        Option::Some(n) => i64_to_dec(*n),
        Option::None => String::new(),
    }
}

/// The text of an optional DOI, empty where absent.
pub open spec fn spec_opt_doi(o: Option<crate::model::Doi>) -> Seq<char> {
    match o {
        Option::Some(d) => d@,
        Option::None => Seq::empty(),
    }
}

fn opt_doi_cell(o: &Option<crate::model::Doi>) -> (r: String)
    ensures
        r@ == spec_opt_doi(*o),
{
    match o {
        Option::Some(d) => d.to_str().to_owned(),
        Option::None => String::new(),
    }
}

/// The text of an optional date, empty where absent.
pub open spec fn spec_opt_date(o: Option<Date>) -> Seq<char> {
    match o {
        Option::Some(d) => d.spec_display(),
        Option::None => Seq::empty(),
    }
}

fn opt_date_cell(o: &Option<Date>) -> (r: String)
    requires
        o matches Option::Some(d) ==> d.wf(),
    ensures
        r@ == spec_opt_date(*o),
{
    match o {
        Option::Some(d) => d.display(),
        Option::None => String::new(),
    }
}

fn opt_owned(o: &Option<String>) -> (r: String)
    ensures
        r@ == spec_opt_str(*o),
{
    opt_str(o).to_owned()
}

/// The contribution sub-cells of a work, in order.
pub open spec fn spec_contribution_cells(cs: Seq<WorkContributions>) -> Seq<Seq<char>> {
    cs.map_values(|c: WorkContributions| c.spec_csv_cell())
}

fn contributions_cell(w: &Work) -> (r: String)
    requires
        w.wf(),
    ensures
        r@ == spec_list_cell(spec_contribution_cells(w.contributions@)),
{
    let mut cells: Vec<String> = Vec::new();
    let mut i: usize = 0;
    while i < w.contributions.len()
        invariant
            w.wf(),
            i <= w.contributions@.len(),
            cells@.map_values(|c: String| c@) == spec_contribution_cells(
                w.contributions@.subrange(0, i as int),
            ),
        decreases w.contributions@.len() - i,
    {
        assert(w.contributions@[i as int].wf());
        let ghost before = cells@;
        let cell = w.contributions[i].csv_cell();
        cells.push(cell);
        proof {
            let e = w.contributions@[i as int];
            assert(w.contributions@.subrange(0, i + 1 as int) =~= w.contributions@.subrange(
                0,
                i as int,
            ).push(e));
            lemma_map_values_push(
                w.contributions@.subrange(0, i as int),
                |c: WorkContributions| c.spec_csv_cell(),
                e,
            );
            lemma_map_values_push(before, |c: String| c@, cell);
        }
        i = i + 1;
    }
    proof {
        assert(w.contributions@.subrange(0, w.contributions@.len() as int) =~= w.contributions@);
    }
    csv_cell_list(&cells)
}

/// The publication sub-cells of a work, in order.
pub open spec fn spec_publication_cells(ps: Seq<WorkPublications>) -> Seq<Seq<char>> {
    ps.map_values(|p: WorkPublications| p.spec_csv_cell())
}

fn publications_cell(w: &Work) -> (r: String)
    requires
        w.wf(),
    ensures
        r@ == spec_list_cell(spec_publication_cells(w.publications@)),
{
    let mut cells: Vec<String> = Vec::new();
    let mut i: usize = 0;
    while i < w.publications.len()
        invariant
            w.wf(),
            i <= w.publications@.len(),
            cells@.map_values(|c: String| c@) == spec_publication_cells(
                w.publications@.subrange(0, i as int),
            ),
        decreases w.publications@.len() - i,
    {
        assert(w.publications@[i as int].wf());
        let ghost before = cells@;
        let cell = w.publications[i].csv_cell();
        cells.push(cell);
        proof {
            let e = w.publications@[i as int];
            assert(w.publications@.subrange(0, i + 1 as int) =~= w.publications@.subrange(
                0,
                i as int,
            ).push(e));
            lemma_map_values_push(
                w.publications@.subrange(0, i as int),
                |p: WorkPublications| p.spec_csv_cell(),
                e,
            );
            lemma_map_values_push(before, |c: String| c@, cell);
        }
        i = i + 1;
    }
    proof {
        assert(w.publications@.subrange(0, w.publications@.len() as int) =~= w.publications@);
    }
    csv_cell_list(&cells)
}

/// The issue sub-cells of a work, in order.
pub open spec fn spec_issue_cells(is: Seq<WorkIssues>) -> Seq<Seq<char>> {
    is.map_values(|i: WorkIssues| i.spec_csv_cell())
}

fn issues_cell(w: &Work) -> (r: String)
    requires
        w.wf(),
    ensures
        r@ == spec_list_cell(spec_issue_cells(w.issues@)),
{
    let mut cells: Vec<String> = Vec::new();
    let mut i: usize = 0;
    while i < w.issues.len()
        invariant
            w.wf(),
            i <= w.issues@.len(),
            cells@.map_values(|c: String| c@) == spec_issue_cells(w.issues@.subrange(0, i as int)),
        decreases w.issues@.len() - i,
    {
        assert(w.issues@[i as int].wf());
        let ghost before = cells@;
        let cell = w.issues[i].csv_cell();
        cells.push(cell);
        proof {
            let e = w.issues@[i as int];
            assert(w.issues@.subrange(0, i + 1 as int) =~= w.issues@.subrange(0, i as int).push(e));
            lemma_map_values_push(
                w.issues@.subrange(0, i as int),
                |x: WorkIssues| x.spec_csv_cell(),
                e,
            );
            lemma_map_values_push(before, |c: String| c@, cell);
        }
        i = i + 1;
    }
    proof {
        assert(w.issues@.subrange(0, w.issues@.len() as int) =~= w.issues@);
    }
    csv_cell_list(&cells)
}

/// The language sub-cells of a work, in order.
pub open spec fn spec_language_cells(ls: Seq<WorkLanguages>) -> Seq<Seq<char>> {
    ls.map_values(|l: WorkLanguages| l.spec_csv_cell())
}

fn languages_cell(w: &Work) -> (r: String)
    requires
        w.wf(),
    ensures
        r@ == spec_list_cell(spec_language_cells(w.languages@)),
{
    let mut cells: Vec<String> = Vec::new();
    let mut i: usize = 0;
    while i < w.languages.len()
        invariant
            w.wf(),
            i <= w.languages@.len(),
            cells@.map_values(|c: String| c@) == spec_language_cells(
                w.languages@.subrange(0, i as int),
            ),
        decreases w.languages@.len() - i,
    {
        assert(w.languages@[i as int].wf());
        let ghost before = cells@;
        let cell = w.languages[i].csv_cell();
        cells.push(cell);
        proof {
            let e = w.languages@[i as int];
            assert(w.languages@.subrange(0, i + 1 as int) =~= w.languages@.subrange(
                0,
                i as int,
            ).push(e));
            lemma_map_values_push(
                w.languages@.subrange(0, i as int),
                |x: WorkLanguages| x.spec_csv_cell(),
                e,
            );
            lemma_map_values_push(before, |c: String| c@, cell);
        }
        i = i + 1;
    }
    proof {
        assert(w.languages@.subrange(0, w.languages@.len() as int) =~= w.languages@);
    }
    csv_cell_list(&cells)
}

/// The funding sub-cells of a work, in order.
pub open spec fn spec_funding_cells(fs: Seq<WorkFundings>) -> Seq<Seq<char>> {
    fs.map_values(|f: WorkFundings| f.spec_csv_cell())
}

fn fundings_cell(w: &Work) -> (r: String)
    ensures
        r@ == spec_list_cell(spec_funding_cells(w.fundings@)),
{
    let mut cells: Vec<String> = Vec::new();
    let mut i: usize = 0;
    while i < w.fundings.len()
        invariant
            i <= w.fundings@.len(),
            cells@.map_values(|c: String| c@) == spec_funding_cells(
                w.fundings@.subrange(0, i as int),
            ),
        decreases w.fundings@.len() - i,
    {
        let ghost before = cells@;
        let cell = w.fundings[i].csv_cell();
        cells.push(cell);
        proof {
            let e = w.fundings@[i as int];
            assert(w.fundings@.subrange(0, i + 1 as int) =~= w.fundings@.subrange(
                0,
                i as int,
            ).push(e));
            lemma_map_values_push(
                w.fundings@.subrange(0, i as int),
                |x: WorkFundings| x.spec_csv_cell(),
                e,
            );
            lemma_map_values_push(before, |c: String| c@, cell);
        }
        i = i + 1;
    }
    proof {
        assert(w.fundings@.subrange(0, w.fundings@.len() as int) =~= w.fundings@);
    }
    csv_cell_list(&cells)
}

/// The 44 column headings of the dialect, in order.
pub open spec fn spec_header_cells() -> Seq<Seq<char>> {
    seq![
        "publisher"@,
        "imprint"@,
        "work_type"@,
        "work_status"@,
        "title"@,
        "subtitle"@,
        "edition"@,
        "doi"@,
        "publication_date"@,
        "publication_place"@,
        "license"@,
        "copyright_holder"@,
        "landing_page"@,
        "width (mm)"@,
        "width (cm)"@,
        "width (in)"@,
        "height (mm)"@,
        "height (cm)"@,
        "height (in)"@,
        "page_count"@,
        "page_breakdown"@,
        "image_count"@,
        "table_count"@,
        "audio_count"@,
        "video_count"@,
        "lccn"@,
        "oclc"@,
        "short_abstract"@,
        "long_abstract"@,
        "general_note"@,
        "toc"@,
        "cover_url"@,
        "cover_caption"@,
        "contributions [(type, first_name, last_name, full_name, orcid, [(position, ordinal, institution)])]"@,
        "publications [(type, isbn, [(ISO_4217_currency, price)], [(landing_page, full_text, platform, is_canonical)])]"@,
        "series [(type, name, issn_print, issn_digital, url, issue)]"@,
        "languages [(relation, ISO_639-3/B_language, is_main)]"@,
        "BIC [code]"@,
        "THEMA [code]"@,
        "BISAC [code]"@,
        "LCC [code]"@,
        "custom_categories [category]"@,
        "keywords [keyword]"@,
        "funding [(institution, institution_doi, ror, country, program, project, grant, jurisdiction)]"@,
    ]
}

/// Builds the header row.
#[verifier::rlimit(100)]
pub fn header_cells() -> (r: Vec<String>)
    ensures
        r@.map_values(|s: String| s@) == spec_header_cells(),
        r@.len() == 44,
{
    let mut r: Vec<String> = Vec::new();
    r.push(String::from_str("publisher"));
    r.push(String::from_str("imprint"));
    r.push(String::from_str("work_type"));
    r.push(String::from_str("work_status"));
    r.push(String::from_str("title"));
    r.push(String::from_str("subtitle"));
    r.push(String::from_str("edition"));
    r.push(String::from_str("doi"));
    r.push(String::from_str("publication_date"));
    r.push(String::from_str("publication_place"));
    r.push(String::from_str("license"));
    r.push(String::from_str("copyright_holder"));
    r.push(String::from_str("landing_page"));
    r.push(String::from_str("width (mm)"));
    r.push(String::from_str("width (cm)"));
    r.push(String::from_str("width (in)"));
    r.push(String::from_str("height (mm)"));
    r.push(String::from_str("height (cm)"));
    r.push(String::from_str("height (in)"));
    r.push(String::from_str("page_count"));
    r.push(String::from_str("page_breakdown"));
    r.push(String::from_str("image_count"));
    r.push(String::from_str("table_count"));
    r.push(String::from_str("audio_count"));
    r.push(String::from_str("video_count"));
    r.push(String::from_str("lccn"));
    r.push(String::from_str("oclc"));
    r.push(String::from_str("short_abstract"));
    r.push(String::from_str("long_abstract"));
    r.push(String::from_str("general_note"));
    r.push(String::from_str("toc"));
    r.push(String::from_str("cover_url"));
    r.push(String::from_str("cover_caption"));
    r.push(
        String::from_str(
            "contributions [(type, first_name, last_name, full_name, orcid, [(position, ordinal, institution)])]",
        ),
    );
    r.push(
        String::from_str(
            "publications [(type, isbn, [(ISO_4217_currency, price)], [(landing_page, full_text, platform, is_canonical)])]",
        ),
    );
    r.push(String::from_str("series [(type, name, issn_print, issn_digital, url, issue)]"));
    r.push(String::from_str("languages [(relation, ISO_639-3/B_language, is_main)]"));
    r.push(String::from_str("BIC [code]"));
    r.push(String::from_str("THEMA [code]"));
    r.push(String::from_str("BISAC [code]"));
    r.push(String::from_str("LCC [code]"));
    r.push(String::from_str("custom_categories [category]"));
    r.push(String::from_str("keywords [keyword]"));
    r.push(
        String::from_str(
            "funding [(institution, institution_doi, ror, country, program, project, grant, jurisdiction)]",
        ),
    );
    proof {
        assert(r@.map_values(|s: String| s@) =~= spec_header_cells());
    }
    r
}

/// The 44 cells of one work's row, in column order.
pub open spec fn spec_row_cells(w: Work) -> Seq<Seq<char>> {
    seq![
        w.imprint.publisher.publisher_name@,
        w.imprint.imprint_name@,
        w.work_type.spec_name(),
        w.work_status.spec_name(),
        w.title@,
        spec_opt_str(w.subtitle),
        spec_dec_i64(w.edition as int),
        spec_opt_doi(w.doi),
        spec_opt_date(w.publication_date),
        spec_opt_str(w.place),
        spec_opt_str(w.license),
        w.copyright_holder@,
        spec_opt_str(w.landing_page),
        spec_opt_str(w.width_mm),
        spec_opt_str(w.width_cm),
        spec_opt_str(w.width_in),
        spec_opt_str(w.height_mm),
        spec_opt_str(w.height_cm),
        spec_opt_str(w.height_in),
        spec_opt_i64(w.page_count),
        spec_opt_str(w.page_breakdown),
        spec_opt_i64(w.image_count),
        spec_opt_i64(w.table_count),
        spec_opt_i64(w.audio_count),
        spec_opt_i64(w.video_count),
        spec_opt_str(w.lccn),
        spec_opt_str(w.oclc),
        spec_opt_str(w.short_abstract),
        spec_opt_str(w.long_abstract),
        spec_opt_str(w.general_note),
        spec_opt_str(w.toc),
        spec_opt_str(w.cover_url),
        spec_opt_str(w.cover_caption),
        spec_list_cell(spec_contribution_cells(w.contributions@)),
        spec_list_cell(spec_publication_cells(w.publications@)),
        spec_list_cell(spec_issue_cells(w.issues@)),
        spec_list_cell(spec_language_cells(w.languages@)),
        spec_list_cell(spec_scheme_cells(w.subjects@, SubjectType::BIC)),
        spec_list_cell(spec_scheme_cells(w.subjects@, SubjectType::THEMA)),
        spec_list_cell(spec_scheme_cells(w.subjects@, SubjectType::BISAC)),
        spec_list_cell(spec_scheme_cells(w.subjects@, SubjectType::LCC)),
        spec_list_cell(spec_scheme_cells(w.subjects@, SubjectType::CUSTOM)),
        spec_list_cell(spec_scheme_cells(w.subjects@, SubjectType::KEYWORD)),
        spec_list_cell(spec_funding_cells(w.fundings@)),
    ]
}

/// Builds one work's row: the subjects are sorted by ordinal, grouped
/// by scheme, and every compound field rendered as one cell.
#[verifier::rlimit(100)]
pub fn row_cells(w: &Work) -> (r: Vec<String>)
    requires
        w.wf(),
    ensures
        r@.map_values(|s: String| s@) == spec_row_cells(*w),
        r@.len() == 44,
{
    let order = sorted_subject_order(&w.subjects);
    let mut r: Vec<String> = Vec::new();
    r.push(w.imprint.publisher.publisher_name.clone());
    r.push(w.imprint.imprint_name.clone());
    r.push(w.work_type.name_str());
    r.push(w.work_status.name_str());
    r.push(w.title.clone());
    r.push(opt_owned(&w.subtitle));
    r.push(i64_to_dec(w.edition));
    r.push(opt_doi_cell(&w.doi));
    r.push(opt_date_cell(&w.publication_date));
    r.push(opt_owned(&w.place));
    r.push(opt_owned(&w.license));
    r.push(w.copyright_holder.clone());
    r.push(opt_owned(&w.landing_page));
    r.push(opt_owned(&w.width_mm));
    r.push(opt_owned(&w.width_cm));
    r.push(opt_owned(&w.width_in));
    r.push(opt_owned(&w.height_mm));
    r.push(opt_owned(&w.height_cm));
    r.push(opt_owned(&w.height_in));
    r.push(opt_i64_cell(&w.page_count));
    r.push(opt_owned(&w.page_breakdown));
    r.push(opt_i64_cell(&w.image_count));
    r.push(opt_i64_cell(&w.table_count));
    r.push(opt_i64_cell(&w.audio_count));
    r.push(opt_i64_cell(&w.video_count));
    r.push(opt_owned(&w.lccn));
    r.push(opt_owned(&w.oclc));
    r.push(opt_owned(&w.short_abstract));
    r.push(opt_owned(&w.long_abstract));
    r.push(opt_owned(&w.general_note));
    r.push(opt_owned(&w.toc));
    r.push(opt_owned(&w.cover_url));
    r.push(opt_owned(&w.cover_caption));
    r.push(contributions_cell(w));
    r.push(publications_cell(w));
    r.push(issues_cell(w));
    r.push(languages_cell(w));
    r.push(scheme_cell(&w.subjects, &order, &SubjectType::BIC));
    r.push(scheme_cell(&w.subjects, &order, &SubjectType::THEMA));
    r.push(scheme_cell(&w.subjects, &order, &SubjectType::BISAC));
    r.push(scheme_cell(&w.subjects, &order, &SubjectType::LCC));
    r.push(scheme_cell(&w.subjects, &order, &SubjectType::CUSTOM));
    r.push(scheme_cell(&w.subjects, &order, &SubjectType::KEYWORD));
    r.push(fundings_cell(w));
    proof {
        assert(r@.map_values(|s: String| s@) =~= spec_row_cells(*w));
    }
    r
}

/// The rows of a batch, one record per work, in order.
pub open spec fn spec_rows(ws: Seq<Work>) -> Seq<char>
    decreases ws.len(),
{
    if ws.len() == 0 {
        Seq::empty()
    } else {
        spec_rows(ws.drop_last()) + spec_csv_record(spec_row_cells(ws.last()))
    }
}

/// The whole document: the header record, then one record per work.
pub open spec fn spec_csv_thoth_doc(ws: Seq<Work>) -> Seq<char> {
    spec_csv_record(spec_header_cells()) + spec_rows(ws)
}

/// The CSV dialect of the export pipeline.
#[derive(Debug)]
pub struct CsvThoth {}

impl CsvThoth {
    /// Serializes a batch of works, one force-quoted row per work
    /// under the fixed header.  Generation always succeeds, and the
    /// output is exactly the document [`spec_csv_thoth_doc`] states —
    /// byte-identical on every run over an equal batch.
    #[verifier::rlimit(90)]
    pub fn generate(&self, works: &Vec<Work>) -> (r: Result<String, ThothError>)
        requires
            forall|i: int| 0 <= i < works@.len() ==> (#[trigger] works@[i]).wf(),
        ensures
            r is Ok,
            r matches Ok(s) ==> s@ == spec_csv_thoth_doc(works@),
    {
        let mut sink = CsvSink::new();
        let header = header_cells();
        proof {
            assert(header@.len() == 44);
        }
        let header_ok = sink.write_record(&header);
        proof {
            assert(header_ok);
        }
        if !header_ok {
            return Err(ThothError::InternalError(String::from_str("Could not write CSV")));
        }
        let mut i: usize = 0;
        while i < works.len()
            invariant
                forall|k: int| 0 <= k < works@.len() ==> (#[trigger] works@[k]).wf(),
                i <= works@.len(),
                csv_written(sink) == spec_csv_record(spec_header_cells()) + spec_rows(
                    works@.subrange(0, i as int),
                ),
                csv_expected(sink) == Option::Some(44int),
            decreases works@.len() - i,
        {
            assert(works@[i as int].wf());
            let row = row_cells(&works[i]);
            proof {
                assert(row@.len() == 44);
            }
            let row_ok = sink.write_record(&row);
            proof {
                assert(row_ok);
            }
            if !row_ok {
                return Err(ThothError::InternalError(String::from_str("Could not write CSV")));
            }
            proof {
                let pre = works@.subrange(0, i as int);
                let cur = works@.subrange(0, i + 1 as int);
                assert(cur.drop_last() =~= pre);
                assert(cur.last() == works@[i as int]);
                assert(csv_written(sink) =~= spec_csv_record(spec_header_cells()) + spec_rows(cur));
            }
            i = i + 1;
        }
        proof {
            assert(works@.subrange(0, works@.len() as int) =~= works@);
        }
        Ok(sink.finish())
    }
}

/// Law: the cell of an empty compound field is the empty string; the
/// cell of one sub-cell is that sub-cell in brackets; the cell of two
/// is both in brackets joined by a bare comma, with no inserted space.
pub proof fn lemma_csv_cell_law(x: Seq<char>, y: Seq<char>)
    ensures
        spec_list_cell(Seq::empty()) == Seq::<char>::empty(),
        spec_list_cell(seq![x]) == seq!['['] + x + seq![']'],
        spec_list_cell(seq![x, y]) == seq!['['] + x + seq![','] + y + seq![']'],
{
    assert(spec_joined(seq![x]) == x);
    let two = seq![x, y];
    assert(two.drop_last() =~= seq![x]);
    assert(spec_joined(two) == x + seq![','] + y);
    assert(spec_list_cell(seq![x]) =~= seq!['['] + x + seq![']']);
    assert(spec_list_cell(two) =~= seq!['['] + x + seq![','] + y + seq![']']);
}

/// Law: the serialized document is a function of the batch alone — two
/// successful generations over equal batches are byte-identical.
pub proof fn lemma_deterministic_output(a: Seq<Work>, b: Seq<Work>)
    requires
        a == b,
    ensures
        spec_csv_thoth_doc(a) == spec_csv_thoth_doc(b),
{
}

} // verus!

verus! {

/// Ascending `subject_ordinal` order.
pub open spec fn spec_ordinals_ascending(s: Seq<WorkSubjects>) -> bool {
    forall|i: int, j: int|
        0 <= i < j < s.len() ==> (#[trigger] s[i]).subject_ordinal <= (
        #[trigger] s[j]).subject_ordinal
}

proof fn lemma_ordinal_insert_ensures(m: Seq<WorkSubjects>, x: WorkSubjects)
    requires
        spec_ordinals_ascending(m),
    ensures
        spec_ordinals_ascending(spec_ordinal_insert(m, x)),
        spec_ordinal_insert(m, x).to_multiset() == m.to_multiset().insert(x),
        forall|k: int|
            0 <= k < spec_ordinal_insert(m, x).len() ==> (#[trigger] spec_ordinal_insert(m, x)[k])
                == x || m.contains(spec_ordinal_insert(m, x)[k]),
    decreases m.len(),
{
    broadcast use vstd::seq_lib::group_to_multiset_ensures;

    let out = spec_ordinal_insert(m, x);
    if m.len() == 0 {
        assert(out =~= Seq::empty().push(x));
        assert(out.to_multiset() =~= m.to_multiset().insert(x));
    } else if m.last().subject_ordinal <= x.subject_ordinal {
        assert(m.drop_last().push(m.last()) =~= m);
        assert(out.to_multiset() =~= m.to_multiset().insert(x));
    } else {
        let dl = m.drop_last();
        assert(spec_ordinals_ascending(dl));
        lemma_ordinal_insert_ensures(dl, x);
        let inner = spec_ordinal_insert(dl, x);
        assert(out == inner.push(m.last()));
        // Every element placed below the former last keeps the order:
        // it is either the new element, whose ordinal is smaller, or an
        // element of the shorter list, which the old order bounds.
        assert forall|k: int| 0 <= k < inner.len() implies (#[trigger] inner[k]).subject_ordinal
            <= m.last().subject_ordinal by {
            if inner[k] == x {
            } else {
                let j = choose|j: int| 0 <= j < dl.len() && dl[j] == inner[k];
                assert(m[j] == dl[j]);
                assert(m[j].subject_ordinal <= m.last().subject_ordinal);
            }
        }
        assert(spec_ordinals_ascending(out));
        assert(dl.push(m.last()) =~= m);
        assert(m.to_multiset() =~= dl.to_multiset().insert(m.last()));
        assert(out.to_multiset() =~= inner.to_multiset().insert(m.last()));
        assert(out.to_multiset() =~= m.to_multiset().insert(x)) by {
            assert(inner.to_multiset() == dl.to_multiset().insert(x));
            assert(dl.to_multiset().insert(x).insert(m.last()) =~= dl.to_multiset().insert(
                m.last(),
            ).insert(x));
        }
        assert forall|k: int| 0 <= k < out.len() implies (#[trigger] out[k]) == x || m.contains(
            out[k],
        ) by {
            if k < inner.len() {
                if inner[k] != x {
                    let j = choose|j: int| 0 <= j < dl.len() && dl[j] == inner[k];
                    assert(m[j] == out[k]);
                }
            } else {
                assert(out[k] == m.last());
                assert(m[m.len() - 1] == m.last());
            }
        }
    }
}

/// Law: the subject sort orders by ascending ordinal and permutes the
/// given subjects — nothing is lost, added or changed.
pub proof fn lemma_subjects_sorted_ensures(s: Seq<WorkSubjects>)
    ensures
        spec_ordinals_ascending(spec_subjects_sorted(s)),
        spec_subjects_sorted(s).to_multiset() == s.to_multiset(),
    decreases s.len(),
{
    broadcast use vstd::seq_lib::group_to_multiset_ensures;

    if s.len() > 0 {
        lemma_subjects_sorted_ensures(s.drop_last());
        lemma_ordinal_insert_ensures(spec_subjects_sorted(s.drop_last()), s.last());
        assert(s.drop_last().push(s.last()) =~= s);
        assert(s.to_multiset() =~= s.drop_last().to_multiset().insert(s.last()));
    }
}

} // verus!
