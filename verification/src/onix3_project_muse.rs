//! The ONIX 3.0 dialect for Project MUSE: one `Product` message per
//! work, with descriptive, collateral, publishing, related-material
//! and supply blocks, all unpriced.
//!
//! The work must offer a canonical full-text URL on a PDF publication;
//! a work without one — including a work with no PDF publication at
//! all — is refused with a validation error rather than crashing, the
//! upstream guarantee being unsettled.

use vstd::prelude::*;
use crate::client::{
    PublicationType, Work, WorkContributions, WorkLanguages, WorkSubjects,
};
use crate::errors::ThothError;
use crate::model::TimeParts;
use crate::onix_codes::{
    contributor_role_code, language_role_code, spec_contributor_role_code,
    spec_language_role_code, spec_subject_scheme_code, spec_work_status_code,
    subject_scheme_code, work_status_code,
};
use crate::publication_data::{
    canonical_fulltext, get_publications_data, record_reference, spec_canonical_fulltext,
    spec_isbns, spec_main_isbn, spec_opt_view, spec_record_reference,
};
use crate::text::{ascii_lower, i64_to_dec, spec_dec, spec_dec_i64, spec_lower, u64_to_dec};
use crate::xml_writer::{
    ev_end, ev_start_attrs, ev_text, lemma_balanced_concat_auto, lemma_balanced_elem_auto,
    lemma_balanced_empty, lemma_balanced_simple_auto, lemma_balanced_text_auto,
    lemma_balanced_wrap_auto, push_end, push_simple, push_start, push_start_attrs, push_text,
    render_nodes, spec_balanced, spec_elem, spec_simple, views, XmlEventView, XmlNode,
};

verus! {

/// The record reference of a work.
pub open spec fn spec_urn(w: Work) -> Seq<char> {
    spec_record_reference(w.work_id@)
}

/// The canonical PDF full-text URL the supply block points at, empty
/// where the work offers none.
pub open spec fn spec_pdf_url(w: Work) -> Seq<char> {
    match spec_canonical_fulltext(w.publications@, PublicationType::PDF) {
        Option::Some(u) => u,
        Option::None => Seq::empty(),
    }
}

/// Whether Project MUSE can be served: the work offers a canonical
/// PDF full-text URL.
pub open spec fn spec_has_pdf_url(w: Work) -> bool {
    spec_canonical_fulltext(w.publications@, PublicationType::PDF) is Some
}

/// One `Contributor` block, numbered by its place in the list.
pub open spec fn spec_contributor_block(c: WorkContributions, n: int) -> Seq<XmlEventView> {
    spec_elem(
        "Contributor"@,
        spec_simple("SequenceNumber"@, spec_dec(n as nat)) + spec_simple(
            "ContributorRole"@,
            spec_contributor_role_code(c.contribution_type),
        ) + (match c.contributor.orcid {
            Option::Some(o) => spec_elem(
                "NameIdentifier"@,
                spec_simple("NameIDType"@, "21"@) + spec_simple("IDValue"@, o@),
            ),
            Option::None => Seq::empty(),
        }) + (match c.first_name {
            Option::Some(f) => spec_simple("NamesBeforeKey"@, f@) + spec_simple(
                "KeyNames"@,
                c.last_name@,
            ),
            Option::None => spec_simple("PersonName"@, c.full_name@),
        }),
    )
}

fn contributor_block(c: &WorkContributions, n: u64, out: &mut Vec<XmlNode>)
    requires
        c.wf(),
        n >= 1,
    ensures
        views(final(out)@) == views(old(out)@) + spec_contributor_block(*c, n as int),
{
    push_start(out, "Contributor");
    let seqno = u64_to_dec(n);
    push_simple(out, "SequenceNumber", seqno.as_str());
    push_simple(out, "ContributorRole", contributor_role_code(&c.contribution_type));
    match &c.contributor.orcid {
        Option::Some(o) => {
            push_start(out, "NameIdentifier");
            push_simple(out, "NameIDType", "21");
            push_simple(out, "IDValue", o.to_str());
            push_end(out);
        },
        Option::None => (),
    }
    match &c.first_name {
        Option::Some(f) => {
            push_simple(out, "NamesBeforeKey", f.as_str());
            push_simple(out, "KeyNames", c.last_name.as_str());
        },
        Option::None => push_simple(out, "PersonName", c.full_name.as_str()),
    }
    push_end(out);
    proof {
        assert(views(out@) =~= views(old(out)@) + spec_contributor_block(*c, n as int));
    }
}

/// The `Contributor` blocks, numbered from one in list order: this
/// dialect numbers by position, not by the stored ordinal.
pub open spec fn spec_contributor_blocks(cs: Seq<WorkContributions>) -> Seq<XmlEventView>
    decreases cs.len(),
{
    if cs.len() == 0 {
        Seq::empty()
    } else {
        spec_contributor_blocks(cs.drop_last()) + spec_contributor_block(
            cs.last(),
            cs.len() as int,
        )
    }
}

fn contributor_blocks(cs: &Vec<WorkContributions>, out: &mut Vec<XmlNode>)
    requires
        forall|i: int| 0 <= i < cs@.len() ==> (#[trigger] cs@[i]).wf(),
        cs@.len() < 1000000000,
    ensures
        views(final(out)@) == views(old(out)@) + spec_contributor_blocks(cs@),

{
    let ghost base = views(out@);
    let mut i: usize = 0;
    while i < cs.len()
        invariant
            forall|k: int| 0 <= k < cs@.len() ==> (#[trigger] cs@[k]).wf(),
            cs@.len() < 1000000000,
            i <= cs@.len(),
            views(out@) == base + spec_contributor_blocks(cs@.subrange(0, i as int)),
        decreases cs@.len() - i,
    {
        assert(cs@[i as int].wf());
        contributor_block(&cs[i], (i as u64) + 1, out);
        proof {
            let cur = cs@.subrange(0, i + 1 as int);
            assert(cur.drop_last() =~= cs@.subrange(0, i as int));
            assert(cur.last() == cs@[i as int]);
            assert(views(out@) =~= base + spec_contributor_blocks(cur));
        }
        i = i + 1;
    }
    proof {
        assert(cs@.subrange(0, cs@.len() as int) =~= cs@);
    }
}

/// One `Language` block.
pub open spec fn spec_language_block(l: WorkLanguages) -> Seq<XmlEventView> {
    spec_elem(
        "Language"@,
        spec_simple("LanguageRole"@, spec_language_role_code(l.language_relation)) + spec_simple(
            "LanguageCode"@,
            spec_lower(l.language_code@),
        ),
    )
}

/// The `Language` blocks, in order.
pub open spec fn spec_language_blocks(ls: Seq<WorkLanguages>) -> Seq<XmlEventView>
    decreases ls.len(),
{
    if ls.len() == 0 {
        Seq::empty()
    } else {
        spec_language_blocks(ls.drop_last()) + spec_language_block(ls.last())
    }
}

fn language_blocks(ls: &Vec<WorkLanguages>, out: &mut Vec<XmlNode>)
    requires
        forall|i: int| 0 <= i < ls@.len() ==> (#[trigger] ls@[i]).wf(),
    ensures
        views(final(out)@) == views(old(out)@) + spec_language_blocks(ls@),
{
    let ghost base = views(out@);
    let mut i: usize = 0;
    while i < ls.len()
        invariant
            forall|k: int| 0 <= k < ls@.len() ==> (#[trigger] ls@[k]).wf(),
            i <= ls@.len(),
            views(out@) == base + spec_language_blocks(ls@.subrange(0, i as int)),
        decreases ls@.len() - i,
    {
        assert(ls@[i as int].wf());
        push_start(out, "Language");
        push_simple(out, "LanguageRole", language_role_code(&ls[i].language_relation));
        let code = ascii_lower(ls[i].language_code.as_str());
        push_simple(out, "LanguageCode", code.as_str());
        push_end(out);
        proof {
            let cur = ls@.subrange(0, i + 1 as int);
            assert(cur.drop_last() =~= ls@.subrange(0, i as int));
            assert(cur.last() == ls@[i as int]);
            assert(views(out@) =~= base + spec_language_blocks(cur));
        }
        i = i + 1;
    }
    proof {
        assert(ls@.subrange(0, ls@.len() as int) =~= ls@);
    }
}

/// One `Subject` block: this dialect writes every scheme's code in a
/// `SubjectCode` element.
pub open spec fn spec_subject_block(s: WorkSubjects) -> Seq<XmlEventView> {
    spec_elem(
        "Subject"@,
        spec_simple("SubjectSchemeIdentifier"@, spec_subject_scheme_code(s.subject_type))
            + spec_simple("SubjectCode"@, s.subject_code@),
    )
}

/// The `Subject` blocks, in order.
pub open spec fn spec_subject_blocks(ss: Seq<WorkSubjects>) -> Seq<XmlEventView>
    decreases ss.len(),
{
    if ss.len() == 0 {
        Seq::empty()
    } else {
        spec_subject_blocks(ss.drop_last()) + spec_subject_block(ss.last())
    }
}

fn subject_blocks(ss: &Vec<WorkSubjects>, out: &mut Vec<XmlNode>)
    requires
        forall|i: int| 0 <= i < ss@.len() ==> (#[trigger] ss@[i]).wf(),
    ensures
        views(final(out)@) == views(old(out)@) + spec_subject_blocks(ss@),
{
    let ghost base = views(out@);
    let mut i: usize = 0;
    while i < ss.len()
        invariant
            forall|k: int| 0 <= k < ss@.len() ==> (#[trigger] ss@[k]).wf(),
            i <= ss@.len(),
            views(out@) == base + spec_subject_blocks(ss@.subrange(0, i as int)),
        decreases ss@.len() - i,
    {
        assert(ss@[i as int].wf());
        push_start(out, "Subject");
        push_simple(out, "SubjectSchemeIdentifier", subject_scheme_code(&ss[i].subject_type));
        push_simple(out, "SubjectCode", ss[i].subject_code.as_str());
        push_end(out);
        proof {
            let cur = ss@.subrange(0, i + 1 as int);
            assert(cur.drop_last() =~= ss@.subrange(0, i as int));
            assert(cur.last() == ss@[i as int]);
            assert(views(out@) =~= base + spec_subject_blocks(cur));
        }
        i = i + 1;
    }
    proof {
        assert(ss@.subrange(0, ss@.len() as int) =~= ss@);
    }
}

/// The `TitleDetail` block: with a subtitle, title and subtitle stand
/// apart; without one, the full title stands alone.
pub open spec fn spec_title_detail(w: Work) -> Seq<XmlEventView> {
    spec_elem(
        "TitleDetail"@,
        spec_simple("TitleType"@, "01"@) + spec_elem(
            "TitleElement"@,
            spec_simple("TitleElementLevel"@, "01"@) + (match w.subtitle {
                Option::Some(st) => spec_simple("TitleText"@, w.title@) + spec_simple(
                    "Subtitle"@,
                    st@,
                ),
                Option::None => spec_simple("TitleText"@, w.full_title@),
            }),
        ),
    )
}

fn title_detail(w: &Work, out: &mut Vec<XmlNode>)
    ensures
        views(final(out)@) == views(old(out)@) + spec_title_detail(*w),
{
    push_start(out, "TitleDetail");
    push_simple(out, "TitleType", "01");
    push_start(out, "TitleElement");
    push_simple(out, "TitleElementLevel", "01");
    match &w.subtitle {
        Option::Some(st) => {
            push_simple(out, "TitleText", w.title.as_str());
            push_simple(out, "Subtitle", st.as_str());
        },
        Option::None => {
            push_simple(out, "TitleText", w.full_title.as_str());
        },
    }
    push_end(out);
    push_end(out);
    proof {
        assert(views(out@) =~= views(old(out)@) + spec_title_detail(*w));
    }
}

/// The `DescriptiveDetail` block: fixed form constants, an optional
/// license, the title, the contributors, languages, extent and
/// subjects.
pub open spec fn spec_descriptive_detail(w: Work) -> Seq<XmlEventView> {
    spec_elem(
        "DescriptiveDetail"@,
        spec_simple("ProductComposition"@, "00"@) + spec_simple("ProductForm"@, "EB"@)
            + spec_simple("ProductFormDetail"@, "E107"@) + spec_simple(
            "PrimaryContentType"@,
            "10"@,
        ) + (match w.license {
            Option::Some(license) => spec_elem(
                "EpubLicense"@,
                spec_simple("EpubLicenseName"@, "Creative Commons License"@) + spec_elem(
                    "EpubLicenseExpression"@,
                    spec_simple("EpubLicenseExpressionType"@, "02"@) + spec_simple(
                        "EpubLicenseExpressionLink"@,
                        license@,
                    ),
                ),
            ),
            Option::None => Seq::empty(),
        }) + spec_title_detail(w) + spec_contributor_blocks(w.contributions@)
            + spec_language_blocks(w.languages@) + (match w.page_count {
            Option::Some(pc) => spec_elem(
                "Extent"@,
                spec_simple("ExtentType"@, "00"@) + spec_simple(
                    "ExtentValue"@,
                    spec_dec_i64(pc as int),
                ) + spec_simple("ExtentUnit"@, "03"@),
            ),
            Option::None => Seq::empty(),
        }) + spec_subject_blocks(w.subjects@),
    )
}

#[verifier::rlimit(80)]
fn descriptive_detail(w: &Work, out: &mut Vec<XmlNode>)
    requires
        w.wf(),
    ensures
        views(final(out)@) == views(old(out)@) + spec_descriptive_detail(*w),
{
    push_start(out, "DescriptiveDetail");
    push_simple(out, "ProductComposition", "00");
    push_simple(out, "ProductForm", "EB");
    push_simple(out, "ProductFormDetail", "E107");
    push_simple(out, "PrimaryContentType", "10");
    match &w.license {
        Option::Some(license) => {
            push_start(out, "EpubLicense");
            push_simple(out, "EpubLicenseName", "Creative Commons License");
            push_start(out, "EpubLicenseExpression");
            push_simple(out, "EpubLicenseExpressionType", "02");
            push_simple(out, "EpubLicenseExpressionLink", license.as_str());
            push_end(out);
            push_end(out);
        },
        Option::None => (),
    }
    title_detail(w, out);
    contributor_blocks(&w.contributions, out);
    language_blocks(&w.languages, out);
    match &w.page_count {
        Option::Some(pc) => {
            push_start(out, "Extent");
            push_simple(out, "ExtentType", "00");
            let pages = i64_to_dec(*pc);
            push_simple(out, "ExtentValue", pages.as_str());
            push_simple(out, "ExtentUnit", "03");
            push_end(out);
        },
        Option::None => (),
    }
    subject_blocks(&w.subjects, out);
    push_end(out);
    proof {
        assert(views(out@) =~= views(old(out)@) + spec_descriptive_detail(*w));
    }
}

/// The `CollateralDetail` block, present only where the work carries a
/// long abstract or a table of contents.
pub open spec fn spec_collateral_detail(w: Work) -> Seq<XmlEventView> {
    if w.long_abstract is Some || w.toc is Some {
        spec_elem(
            "CollateralDetail"@,
            (match w.long_abstract {
                Option::Some(la) => spec_elem(
                    "TextContent"@,
                    spec_simple("TextType"@, "03"@) + spec_simple("ContentAudience"@, "00"@) + (
                    seq![ev_start_attrs("Text"@, seq![("language"@, "eng"@)])] + seq![ev_text(la@)]
                        + seq![ev_end()]),
                ),
                Option::None => Seq::empty(),
            }) + (match w.toc {
                Option::Some(toc) => spec_elem(
                    "TextContent"@,
                    spec_simple("TextType"@, "04"@) + spec_simple("ContentAudience"@, "00"@)
                        + spec_simple("Text"@, toc@),
                ),
                Option::None => Seq::empty(),
            }),
        )
    } else {
        Seq::empty()
    }
}

#[verifier::rlimit(50)]
fn collateral_detail(w: &Work, out: &mut Vec<XmlNode>)
    ensures
        views(final(out)@) == views(old(out)@) + spec_collateral_detail(*w),
{
    if w.long_abstract.is_none() && w.toc.is_none() {
        return ;
    }
    push_start(out, "CollateralDetail");
    match &w.long_abstract {
        Option::Some(la) => {
            push_start(out, "TextContent");
            push_simple(out, "TextType", "03");
            push_simple(out, "ContentAudience", "00");
            let mut attrs: Vec<(String, String)> = Vec::new();
            attrs.push((String::from_str("language"), String::from_str("eng")));
            proof {
                assert(attrs@.map_values(|p: (String, String)| (p.0@, p.1@)) =~= seq![
                    ("language"@, "eng"@),
                ]);
            }
            push_start_attrs(out, "Text", attrs);
            push_text(out, la.as_str());
            push_end(out);
            push_end(out);
        },
        Option::None => (),
    }
    match &w.toc {
        Option::Some(toc) => {
            push_start(out, "TextContent");
            push_simple(out, "TextType", "04");
            push_simple(out, "ContentAudience", "00");
            push_simple(out, "Text", toc.as_str());
            push_end(out);
        },
        Option::None => (),
    }
    push_end(out);
    proof {
        assert(views(out@) =~~= views(old(out)@) + spec_collateral_detail(*w));
    }
}

/// The `PublishingDetail` block.
pub open spec fn spec_publishing_detail(w: Work) -> Seq<XmlEventView> {
    spec_elem(
        "PublishingDetail"@,
        spec_elem("Imprint"@, spec_simple("ImprintName"@, w.imprint.imprint_name@)) + spec_elem(
            "Publisher"@,
            spec_simple("PublishingRole"@, "01"@) + spec_simple(
                "PublisherName"@,
                w.imprint.publisher.publisher_name@,
            ),
        ) + (match w.place {
            Option::Some(place) => spec_simple("CityOfPublication"@, place@),
            Option::None => Seq::empty(),
        }) + spec_simple("PublishingStatus"@, spec_work_status_code(w.work_status)) + (
        match w.publication_date {
            Option::Some(d) => spec_elem(
                "PublishingDate"@,
                spec_simple("PublishingDateRole"@, "19"@) + (seq![
                    ev_start_attrs("Date"@, seq![("dateformat"@, "01"@)]),
                ] + seq![ev_text(d.spec_yyyymm())] + seq![ev_end()]),
            ),
            Option::None => Seq::empty(),
        }),
    )
}

#[verifier::rlimit(50)]
fn publishing_detail(w: &Work, out: &mut Vec<XmlNode>)
    requires
        w.wf(),
    ensures
        views(final(out)@) == views(old(out)@) + spec_publishing_detail(*w),
{
    push_start(out, "PublishingDetail");
    push_start(out, "Imprint");
    push_simple(out, "ImprintName", w.imprint.imprint_name.as_str());
    push_end(out);
    push_start(out, "Publisher");
    push_simple(out, "PublishingRole", "01");
    push_simple(out, "PublisherName", w.imprint.publisher.publisher_name.as_str());
    push_end(out);
    match &w.place {
        Option::Some(place) => {
            push_simple(out, "CityOfPublication", place.as_str());
        },
        Option::None => (),
    }
    push_simple(out, "PublishingStatus", work_status_code(&w.work_status));
    match &w.publication_date {
        Option::Some(d) => {
            push_start(out, "PublishingDate");
            push_simple(out, "PublishingDateRole", "19");
            let mut attrs: Vec<(String, String)> = Vec::new();
            attrs.push((String::from_str("dateformat"), String::from_str("01")));
            proof {
                assert(attrs@.map_values(|p: (String, String)| (p.0@, p.1@)) =~= seq![
                    ("dateformat"@, "01"@),
                ]);
            }
            push_start_attrs(out, "Date", attrs);
            let month = d.yyyymm();
            push_text(out, month.as_str());
            push_end(out);
            push_end(out);
        },
        Option::None => (),
    }
    push_end(out);
    proof {
        assert(views(out@) =~= views(old(out)@) + spec_publishing_detail(*w));
    }
}

/// One `RelatedProduct` entry of the `RelatedMaterial` block; this
/// dialect identifies the alternate format by ISBN, product identifier
/// type `06`.
pub open spec fn spec_related_entries(isbns: Seq<Seq<char>>) -> Seq<XmlEventView>
    decreases isbns.len(),
{
    if isbns.len() == 0 {
        Seq::empty()
    } else {
        spec_related_entries(isbns.drop_last()) + spec_elem(
            "RelatedProduct"@,
            spec_simple("ProductRelationCode"@, "06"@) + spec_elem(
                "ProductIdentifier"@,
                spec_simple("ProductIDType"@, "06"@) + spec_simple("IDValue"@, isbns.last()),
            ),
        )
    }
}

/// The `RelatedMaterial` block, present only where alternate ISBNs
/// exist.
pub open spec fn spec_related_material(isbns: Seq<Seq<char>>) -> Seq<XmlEventView> {
    if isbns.len() == 0 {
        Seq::empty()
    } else {
        spec_elem("RelatedMaterial"@, spec_related_entries(isbns))
    }
}

fn related_material(isbns: &Vec<String>, out: &mut Vec<XmlNode>)
    ensures
        views(final(out)@) == views(old(out)@) + spec_related_material(
            isbns@.map_values(|s: String| s@),
        ),
{
    let ghost items = isbns@.map_values(|s: String| s@);
    if isbns.len() == 0 {
        return ;
    }
    push_start(out, "RelatedMaterial");
    let ghost base = views(out@);
    let mut i: usize = 0;
    while i < isbns.len()
        invariant
            items == isbns@.map_values(|s: String| s@),
            i <= isbns@.len(),
            views(out@) == base + spec_related_entries(items.subrange(0, i as int)),
        decreases isbns@.len() - i,
    {
        push_start(out, "RelatedProduct");
        push_simple(out, "ProductRelationCode", "06");
        push_start(out, "ProductIdentifier");
        push_simple(out, "ProductIDType", "06");
        push_simple(out, "IDValue", isbns[i].as_str());
        push_end(out);
        push_end(out);
        proof {
            let cur = items.subrange(0, i + 1 as int);
            assert(cur.drop_last() =~= items.subrange(0, i as int));
            assert(cur.last() == items[i as int]);
            assert(views(out@) =~= base + spec_related_entries(cur));
        }
        i = i + 1;
    }
    push_end(out);
    proof {
        assert(items.subrange(0, items.len() as int) =~= items);
        assert(views(out@) =~= views(old(out)@) + spec_related_material(items));
    }
}

/// The supply entries: the PDF download always, the landing page where
/// present; a landing page equal to the download URL takes its place.
pub open spec fn spec_supply_list(pdf: Seq<char>, landing: Option<Seq<char>>) -> Seq<
    (Seq<char>, Seq<char>),
> {
    let dl = "Publisher's website: download the title"@;
    let shop = "Publisher's website: web shop"@;
    match landing {
        Option::None => seq![(pdf, dl)],
        Option::Some(u) => if u == pdf {
            seq![(pdf, shop)]
        } else {
            seq![(pdf, dl), (u, shop)]
        },
    }
}

/// One `SupplyDetail` entry: the publisher supplies the URL as an
/// unpriced item.
pub open spec fn spec_supply_entries(
    publisher: Seq<char>,
    entries: Seq<(Seq<char>, Seq<char>)>,
) -> Seq<XmlEventView>
    decreases entries.len(),
{
    if entries.len() == 0 {
        Seq::empty()
    } else {
        spec_supply_entries(publisher, entries.drop_last()) + spec_elem(
            "SupplyDetail"@,
            spec_elem(
                "Supplier"@,
                spec_simple("SupplierRole"@, "11"@) + spec_simple("SupplierName"@, publisher)
                    + spec_elem(
                    "Website"@,
                    spec_simple("WebsiteRole"@, "01"@) + spec_simple(
                        "WebsiteDescription"@,
                        entries.last().1,
                    ) + spec_simple("WebsiteLink"@, entries.last().0),
                ),
            ) + spec_simple("ProductAvailability"@, "99"@) + spec_simple(
                "UnpricedItemType"@,
                "04"@,
            ),
        )
    }
}

/// The `ProductSupply` block.
pub open spec fn spec_product_supply(w: Work) -> Seq<XmlEventView> {
    spec_elem(
        "ProductSupply"@,
        spec_supply_entries(
            w.imprint.publisher.publisher_name@,
            spec_supply_list(spec_pdf_url(w), spec_opt_view(w.landing_page)),
        ),
    )
}

#[verifier::rlimit(50)]
fn product_supply(w: &Work, pdf_url: &str, out: &mut Vec<XmlNode>)
    requires
        pdf_url@ == spec_pdf_url(*w),
    ensures
        views(final(out)@) == views(old(out)@) + spec_product_supply(*w),
{
    let mut entries: Vec<(String, String)> = Vec::new();
    entries.push(
        (pdf_url.to_owned(), String::from_str("Publisher's website: download the title")),
    );
    match &w.landing_page {
        Option::Some(u) => {
            if *u == entries[0].0 {
                entries = Vec::new();
                entries.push(
                    (pdf_url.to_owned(), String::from_str("Publisher's website: web shop")),
                );
            } else {
                entries.push((u.clone(), String::from_str("Publisher's website: web shop")));
            }
        },
        Option::None => (),
    }
    proof {
        assert(entries@.map_values(|e: (String, String)| (e.0@, e.1@)) =~~= spec_supply_list(
            spec_pdf_url(*w),
            spec_opt_view(w.landing_page),
        ));
    }
    let ghost items = entries@.map_values(|e: (String, String)| (e.0@, e.1@));
    push_start(out, "ProductSupply");
    let ghost base = views(out@);
    let mut i: usize = 0;
    while i < entries.len()
        invariant
            items == entries@.map_values(|e: (String, String)| (e.0@, e.1@)),
            i <= entries@.len(),
            views(out@) == base + spec_supply_entries(
                w.imprint.publisher.publisher_name@,
                items.subrange(0, i as int),
            ),
        decreases entries@.len() - i,
    {
        push_start(out, "SupplyDetail");
        push_start(out, "Supplier");
        push_simple(out, "SupplierRole", "11");
        push_simple(out, "SupplierName", w.imprint.publisher.publisher_name.as_str());
        push_start(out, "Website");
        push_simple(out, "WebsiteRole", "01");
        push_simple(out, "WebsiteDescription", entries[i].1.as_str());
        push_simple(out, "WebsiteLink", entries[i].0.as_str());
        push_end(out);
        push_end(out);
        push_simple(out, "ProductAvailability", "99");
        push_simple(out, "UnpricedItemType", "04");
        push_end(out);
        proof {
            let cur = items.subrange(0, i + 1 as int);
            assert(cur.drop_last() =~= items.subrange(0, i as int));
            assert(cur.last() == items[i as int]);
            assert(views(out@) =~= base + spec_supply_entries(
                w.imprint.publisher.publisher_name@,
                cur,
            ));
        }
        i = i + 1;
    }
    push_end(out);
    proof {
        assert(items.subrange(0, items.len() as int) =~= items);
        assert(views(out@) =~= views(old(out)@) + spec_product_supply(*w));
    }
}

/// The identifier events at the head of the `Product` block.
pub open spec fn spec_product_head(w: Work) -> Seq<XmlEventView> {
    spec_simple("RecordReference"@, spec_urn(w)) + spec_simple("NotificationType"@, "03"@)
        + spec_simple("RecordSourceType"@, "01"@) + spec_elem(
        "ProductIdentifier"@,
        spec_simple("ProductIDType"@, "01"@) + spec_simple("IDValue"@, spec_urn(w)),
    ) + spec_elem(
        "ProductIdentifier"@,
        spec_simple("ProductIDType"@, "15"@) + spec_simple(
            "IDValue"@,
            spec_main_isbn(w.publications@),
        ),
    ) + (match w.doi {
        Option::Some(d) => spec_elem(
            "ProductIdentifier"@,
            spec_simple("ProductIDType"@, "06"@) + spec_simple("IDValue"@, d@),
        ),
        Option::None => Seq::empty(),
    })
}

fn product_head(w: &Work, urn: &str, main_isbn: &str, out: &mut Vec<XmlNode>)
    requires
        urn@ == spec_urn(*w),
        main_isbn@ == spec_main_isbn(w.publications@),
    ensures
        views(final(out)@) == views(old(out)@) + spec_product_head(*w),
{
    push_simple(out, "RecordReference", urn);
    push_simple(out, "NotificationType", "03");
    push_simple(out, "RecordSourceType", "01");
    push_start(out, "ProductIdentifier");
    push_simple(out, "ProductIDType", "01");
    push_simple(out, "IDValue", urn);
    push_end(out);
    push_start(out, "ProductIdentifier");
    push_simple(out, "ProductIDType", "15");
    push_simple(out, "IDValue", main_isbn);
    push_end(out);
    match &w.doi {
        Option::Some(d) => {
            push_start(out, "ProductIdentifier");
            push_simple(out, "ProductIDType", "06");
            push_simple(out, "IDValue", d.to_str());
            push_end(out);
        },
        Option::None => (),
    }
    proof {
        assert(views(out@) =~= views(old(out)@) + spec_product_head(*w));
    }
}

/// The whole `Product` block of a work with a PDF URL.
pub open spec fn spec_product_block(w: Work) -> Seq<XmlEventView> {
    spec_elem(
        "Product"@,
        spec_product_head(w) + spec_descriptive_detail(w) + spec_collateral_detail(w)
            + spec_publishing_detail(w) + spec_related_material(spec_isbns(w.publications@))
            + spec_product_supply(w),
    )
}

/// The `Header` block: the sender and the moment of sending.
pub open spec fn spec_header_block(w: Work, now: TimeParts) -> Seq<XmlEventView> {
    spec_elem(
        "Header"@,
        spec_elem(
            "Sender"@,
            spec_simple("SenderName"@, w.imprint.publisher.publisher_name@) + spec_simple(
                "EmailAddress"@,
                "info@thoth.pub"@,
            ),
        ) + spec_simple("SentDateTime"@, now.spec_stamp()),
    )
}

fn header_block(w: &Work, now: &TimeParts, out: &mut Vec<XmlNode>)
    requires
        now.wf(),
    ensures
        views(final(out)@) == views(old(out)@) + spec_header_block(*w, *now),
{
    push_start(out, "Header");
    push_start(out, "Sender");
    push_simple(out, "SenderName", w.imprint.publisher.publisher_name.as_str());
    push_simple(out, "EmailAddress", "info@thoth.pub");
    push_end(out);
    let stamp = now.stamp();
    push_simple(out, "SentDateTime", stamp.as_str());
    push_end(out);
    proof {
        assert(views(out@) =~= views(old(out)@) + spec_header_block(*w, *now));
    }
}

/// The whole message for one work: the ONIX 3.0 root element with its
/// release and namespace, the header, and the `Product` block.
pub open spec fn spec_message(w: Work, now: TimeParts) -> Seq<XmlEventView> {
    seq![
        ev_start_attrs(
            "ONIXMessage"@,
            seq![
                ("release"@, "3.0"@),
                ("xmlns"@, "http://ns.editeur.org/onix/3.0/reference"@),
            ],
        ),
    ] + spec_header_block(w, now) + spec_product_block(w) + seq![ev_end()]
}

/// Builds the event list for one work.  A work without a canonical
/// PDF full-text URL is refused.
#[verifier::rlimit(80)]
pub fn build_message(w: &Work, now: &TimeParts) -> (r: Result<Vec<XmlNode>, ThothError>)
    requires
        w.wf(),
        now.wf(),
    ensures
        r matches Ok(nodes) ==> views(nodes@) == spec_message(*w, *now),
        r is Ok <==> spec_has_pdf_url(*w),
        !spec_has_pdf_url(*w) ==> (r matches Err(e) && e
            matches ThothError::IncompleteMetadataRecord(spec, reason) && spec@
            == "onix_3.0::project_muse"@ && reason@ == "No PDF URL"@),
{
    let pdf_url = match canonical_fulltext(&w.publications, &PublicationType::PDF) {
        Option::Some(u) => u,
        Option::None => {
            return Err(
                ThothError::IncompleteMetadataRecord(
                    String::from_str("onix_3.0::project_muse"),
                    String::from_str("No PDF URL"),
                ),
            );
        },
    };
    let urn = record_reference(w.work_id.as_str());
    let data = get_publications_data(&w.publications);
    let mut out: Vec<XmlNode> = Vec::new();
    let mut attrs: Vec<(String, String)> = Vec::new();
    attrs.push((String::from_str("release"), String::from_str("3.0")));
    attrs.push(
        (
            String::from_str("xmlns"),
            String::from_str("http://ns.editeur.org/onix/3.0/reference"),
        ),
    );
    proof {
        assert(attrs@.map_values(|p: (String, String)| (p.0@, p.1@)) =~= seq![
            ("release"@, "3.0"@),
            ("xmlns"@, "http://ns.editeur.org/onix/3.0/reference"@),
        ]);
    }
    push_start_attrs(&mut out, "ONIXMessage", attrs);
    header_block(w, now, &mut out);
    push_start(&mut out, "Product");
    product_head(w, urn.as_str(), data.0.as_str(), &mut out);
    descriptive_detail(w, &mut out);
    collateral_detail(w, &mut out);
    publishing_detail(w, &mut out);
    related_material(&data.1, &mut out);
    product_supply(w, pdf_url.as_str(), &mut out);
    push_end(&mut out);
    push_end(&mut out);
    proof {
        assert(views(out@) =~= spec_message(*w, *now));
    }
    Ok(out)
}


proof fn lemma_contributor_block_balanced(c: WorkContributions, n: int)
    ensures
        spec_balanced(spec_contributor_block(c, n)),
{
    broadcast use lemma_balanced_concat_auto, lemma_balanced_simple_auto, lemma_balanced_elem_auto;

    lemma_balanced_empty();
}

proof fn lemma_contributor_blocks_balanced(cs: Seq<WorkContributions>)
    ensures
        spec_balanced(spec_contributor_blocks(cs)),
    decreases cs.len(),
{
    broadcast use lemma_balanced_concat_auto;

    if cs.len() == 0 {
        lemma_balanced_empty();
    } else {
        lemma_contributor_blocks_balanced(cs.drop_last());
        lemma_contributor_block_balanced(cs.last(), cs.len() as int);
    }
}

proof fn lemma_language_blocks_balanced(ls: Seq<WorkLanguages>)
    ensures
        spec_balanced(spec_language_blocks(ls)),
    decreases ls.len(),
{
    broadcast use lemma_balanced_concat_auto, lemma_balanced_simple_auto, lemma_balanced_elem_auto;

    if ls.len() == 0 {
        lemma_balanced_empty();
    } else {
        lemma_language_blocks_balanced(ls.drop_last());
    }
}

proof fn lemma_subject_blocks_balanced(ss: Seq<WorkSubjects>)
    ensures
        spec_balanced(spec_subject_blocks(ss)),
    decreases ss.len(),
{
    broadcast use lemma_balanced_concat_auto, lemma_balanced_simple_auto, lemma_balanced_elem_auto;

    if ss.len() == 0 {
        lemma_balanced_empty();
    } else {
        lemma_subject_blocks_balanced(ss.drop_last());
    }
}

proof fn lemma_descriptive_detail_balanced(w: Work)
    ensures
        spec_balanced(spec_descriptive_detail(w)),
{
    broadcast use lemma_balanced_concat_auto, lemma_balanced_simple_auto, lemma_balanced_elem_auto;

    lemma_balanced_empty();
    lemma_contributor_blocks_balanced(w.contributions@);
    lemma_language_blocks_balanced(w.languages@);
    lemma_subject_blocks_balanced(w.subjects@);
}

proof fn lemma_collateral_detail_balanced(w: Work)
    ensures
        spec_balanced(spec_collateral_detail(w)),
{
    broadcast use lemma_balanced_concat_auto, lemma_balanced_simple_auto, lemma_balanced_elem_auto,
        lemma_balanced_wrap_auto, lemma_balanced_text_auto;

    lemma_balanced_empty();
}

proof fn lemma_publishing_detail_balanced(w: Work)
    ensures
        spec_balanced(spec_publishing_detail(w)),
{
    broadcast use lemma_balanced_concat_auto, lemma_balanced_simple_auto, lemma_balanced_elem_auto,
        lemma_balanced_wrap_auto, lemma_balanced_text_auto;

    lemma_balanced_empty();
}

proof fn lemma_related_material_balanced(isbns: Seq<Seq<char>>)
    ensures
        spec_balanced(spec_related_entries(isbns)),
        spec_balanced(spec_related_material(isbns)),
    decreases isbns.len(),
{
    broadcast use lemma_balanced_concat_auto, lemma_balanced_simple_auto, lemma_balanced_elem_auto;

    if isbns.len() == 0 {
        lemma_balanced_empty();
    } else {
        lemma_related_material_balanced(isbns.drop_last());
    }
}

proof fn lemma_supply_entries_balanced(publisher: Seq<char>, entries: Seq<(Seq<char>, Seq<char>)>)
    ensures
        spec_balanced(spec_supply_entries(publisher, entries)),
    decreases entries.len(),
{
    broadcast use lemma_balanced_concat_auto, lemma_balanced_simple_auto, lemma_balanced_elem_auto;

    if entries.len() == 0 {
        lemma_balanced_empty();
    } else {
        lemma_supply_entries_balanced(publisher, entries.drop_last());
    }
}

proof fn lemma_product_supply_balanced(w: Work)
    ensures
        spec_balanced(spec_product_supply(w)),
{
    broadcast use lemma_balanced_elem_auto;

    lemma_supply_entries_balanced(
        w.imprint.publisher.publisher_name@,
        spec_supply_list(spec_pdf_url(w), spec_opt_view(w.landing_page)),
    );
}

proof fn lemma_product_head_balanced(w: Work)
    ensures
        spec_balanced(spec_product_head(w)),
{
    broadcast use lemma_balanced_concat_auto, lemma_balanced_simple_auto, lemma_balanced_elem_auto;

    lemma_balanced_empty();
}

proof fn lemma_title_detail_balanced(w: Work)
    ensures
        spec_balanced(spec_title_detail(w)),
{
    broadcast use lemma_balanced_concat_auto, lemma_balanced_simple_auto, lemma_balanced_elem_auto;

}

proof fn lemma_product_block_balanced(w: Work)
    ensures
        spec_balanced(spec_product_block(w)),
{
    broadcast use lemma_balanced_concat_auto, lemma_balanced_elem_auto;

    lemma_product_head_balanced(w);
    lemma_descriptive_detail_balanced(w);
    lemma_collateral_detail_balanced(w);
    lemma_publishing_detail_balanced(w);
    lemma_related_material_balanced(spec_isbns(w.publications@));
    lemma_product_supply_balanced(w);
}

proof fn lemma_header_block_balanced(w: Work, now: TimeParts)
    ensures
        spec_balanced(spec_header_block(w, now)),
{
    broadcast use lemma_balanced_concat_auto, lemma_balanced_simple_auto, lemma_balanced_elem_auto;

}

/// The whole message is a well-formed fragment: every close closes
/// something, so the emitter accepts every event of it.
pub proof fn lemma_message_balanced(w: Work, now: TimeParts)
    ensures
        spec_balanced(spec_message(w, now)),
{
    broadcast use lemma_balanced_concat_auto, lemma_balanced_wrap_auto;

    lemma_header_block_balanced(w, now);
    lemma_product_block_balanced(w);
    let root = ev_start_attrs(
        "ONIXMessage"@,
        seq![("release"@, "3.0"@), ("xmlns"@, "http://ns.editeur.org/onix/3.0/reference"@)],
    );
    let rearranged = seq![root] + (spec_header_block(w, now) + spec_product_block(w)) + seq![
        ev_end(),
    ];
    assert(spec_message(w, now) =~= rearranged);
    assert(spec_balanced(rearranged));
}

/// The ONIX 3.0 dialect for Project MUSE.
#[derive(Debug)]
pub struct Onix3ProjectMuse {}

impl Onix3ProjectMuse {
    /// Serializes one work for the given sending moment: success
    /// exactly when the work offers a canonical PDF full-text URL,
    /// and then the output is exactly the rendering of
    /// [`spec_message`]; a work without the URL is refused.
    pub fn generate_at(&self, work: &Work, now: &TimeParts) -> (r: Result<String, ThothError>)
        requires
            work.wf(),
            now.wf(),
        ensures
            r matches Ok(s) ==> s@ == crate::xml_writer::spec_xml_doc(spec_message(*work, *now)),
            r is Ok <==> spec_has_pdf_url(*work),
            !spec_has_pdf_url(*work) ==> (r matches Err(e) && e
                matches ThothError::IncompleteMetadataRecord(spec, reason) && spec@
                == "onix_3.0::project_muse"@ && reason@ == "No PDF URL"@),
    {
        match build_message(work, now) {
            Ok(nodes) => {
                proof {
                    lemma_message_balanced(*work, *now);
                }
                render_nodes(&nodes)
            },
            Err(e) => Err(e),
        }
    }

    /// Serializes one work under the present moment, read from the
    /// clock.  The data refusal does not depend on the clock: a work
    /// without a canonical PDF full-text URL is refused with the
    /// stated reason exactly when the URL is absent, and an internal
    /// error (a clock year outside the formatted range) can arise only
    /// on a work the data would admit.
    pub fn generate(&self, work: &Work) -> (r: Result<String, ThothError>)
        requires
            work.wf(),
        ensures
            r matches Ok(s) ==> exists|now: TimeParts|
                now.wf() && s@ == crate::xml_writer::spec_xml_doc(spec_message(*work, now)),
            (r matches Err(e) && e is InternalError) ==> spec_has_pdf_url(*work),
            (r matches Err(e) && e is IncompleteMetadataRecord) <==> !spec_has_pdf_url(*work),
            !spec_has_pdf_url(*work) ==> (r matches Err(e) && e
                matches ThothError::IncompleteMetadataRecord(spec, reason) && spec@
                == "onix_3.0::project_muse"@ && reason@ == "No PDF URL"@),
    {
        if canonical_fulltext(&work.publications, &PublicationType::PDF).is_none() {
            return Err(
                ThothError::IncompleteMetadataRecord(
                    String::from_str("onix_3.0::project_muse"),
                    String::from_str("No PDF URL"),
                ),
            );
        }
        let now = crate::model::date::utc_now_parts();
        if now.year < 0 || now.year > 9999 {
            return Err(ThothError::InternalError(String::from_str("Could not format date")));
        }
        let r = self.generate_at(work, &now);
        proof {
            if r is Ok {
                assert(now.wf() && r->Ok_0@ == crate::xml_writer::spec_xml_doc(
                    spec_message(*work, now),
                ));
            }
        }
        r
    }
}


/// Law: the serialized message is a function of the work and the
/// sending moment alone — two successful generations over equal input
/// are byte-identical.
pub proof fn lemma_deterministic_output(a: Work, b: Work, t1: TimeParts, t2: TimeParts)
    requires
        a == b,
        t1 == t2,
    ensures
        crate::xml_writer::spec_xml_doc(spec_message(a, t1)) == crate::xml_writer::spec_xml_doc(
            spec_message(b, t2),
        ),
{
}

} // verus!

