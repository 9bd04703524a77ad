//! The ONIX 2.1 dialect for EBSCO Host: the publication-derived data
//! (ISBN preference, canonical full-text URLs, the bundled USD price),
//! the eligibility rule, and the element walk that emits one `Product`
//! block per work.  A batch holding any work without a canonical PDF
//! or EPUB full-text URL is refused whole, and nothing is emitted for
//! it.

use vstd::prelude::*;
use crate::client::{
    PublicationType, SubjectType, Work, WorkContributions, WorkIssues, WorkLanguages,
    WorkPublications, WorkSubjects,
};
use crate::errors::ThothError;
use crate::model::Date;
use crate::onix_codes::{
    contributor_role_code, language_role_code, spec_contributor_role_code,
    spec_language_role_code, spec_subject_scheme_code, spec_work_status_code,
    subject_scheme_code, work_status_code,
};
use crate::publication_data::{
    canonical_fulltext, get_publications_data, record_reference, spec_canonical_fulltext,
    spec_isbns, spec_main_isbn, spec_opt_view, spec_record_reference, spec_usd_cents, usd_cents,
};
use crate::text::{ascii_lower, i64_to_dec, spec_dec_i64, spec_lower};
use crate::text::{money_str, spec_money};
use crate::xml_writer::render_nodes;
use crate::xml_writer::{
    ev_start, lemma_balanced_concat_auto, lemma_balanced_elem_auto, lemma_balanced_empty,
    lemma_balanced_simple_auto, push_end, push_simple, push_start, spec_balanced, spec_elem,
    spec_simple, views, XmlEventView, XmlNode,
};

verus! {

/// The bundled price submitted for the combined PDF/EPUB product: the
/// higher of the two formats' USD prices, never below one cent.
pub open spec fn spec_bundle_cents(pubs: Seq<WorkPublications>) -> u64 {
    let pdf = spec_usd_cents(pubs, PublicationType::PDF);
    let epub = spec_usd_cents(pubs, PublicationType::EPUB);
    let floor: u64 = if epub >= 1 {
        epub
    } else {
        1
    };
    if pdf >= floor {
        pdf
    } else {
        floor
    }
}

/// Computes the bundled USD price of a publication set, in minor
/// units.
pub fn bundle_cents(pubs: &Vec<WorkPublications>) -> (r: u64)
    ensures
        r == spec_bundle_cents(pubs@),
{
    let pdf = usd_cents(pubs, &PublicationType::PDF);
    let epub = usd_cents(pubs, &PublicationType::EPUB);
    let floor: u64 = if epub >= 1 {
        epub
    } else {
        1
    };
    if pdf >= floor {
        pdf
    } else {
        floor
    }
}

/// Whether EBSCO Host accepts the work: some PDF or EPUB publication
/// must carry a canonical full-text URL.
pub open spec fn spec_eligible(w: Work) -> bool {
    spec_canonical_fulltext(w.publications@, PublicationType::PDF) is Some
        || spec_canonical_fulltext(w.publications@, PublicationType::EPUB) is Some
}

/// The events of one `Contributor` block.
pub open spec fn spec_contribution_block(c: WorkContributions) -> Seq<XmlEventView> {
    spec_elem(
        "Contributor"@,
        spec_simple("SequenceNumber"@, spec_dec_i64(c.contribution_ordinal as int)) + spec_simple(
            "ContributorRole"@,
            spec_contributor_role_code(c.contribution_type),
        ) + (match c.contributor.orcid {
            Option::Some(o) => spec_elem(
                "PersonNameIdentifier"@,
                spec_simple("PersonNameIDType"@, "01"@) + spec_simple("IDTypeName"@, "ORCID"@)
                    + spec_simple("IDValue"@, o@),
            ),
            Option::None => Seq::empty(),
        }) + (match c.first_name {
            Option::Some(f) => spec_simple("NamesBeforeKey"@, f@) + spec_simple(
                "KeyNames"@,
                c.last_name@,
            ),
            Option::None => spec_simple("PersonName"@, c.full_name@),
        }),
    )
}

/// Emits one `Contributor` block: sequence number, role, an optional
/// ORCID identifier, and the name (split where a first name exists).
pub fn contribution_block(c: &WorkContributions, out: &mut Vec<XmlNode>)
    requires
        c.wf(),
    ensures
        views(final(out)@) == views(old(out)@) + spec_contribution_block(*c),
{
    push_start(out, "Contributor");
    let ordinal = i64_to_dec(c.contribution_ordinal);
    push_simple(out, "SequenceNumber", ordinal.as_str());
    push_simple(out, "ContributorRole", contributor_role_code(&c.contribution_type));
    match &c.contributor.orcid {
        Option::Some(o) => {
            push_start(out, "PersonNameIdentifier");
            push_simple(out, "PersonNameIDType", "01");
            push_simple(out, "IDTypeName", "ORCID");
            push_simple(out, "IDValue", o.to_str());
            push_end(out);
        },
        Option::None => (),
    }
    match &c.first_name {
        Option::Some(f) => {
            push_simple(out, "NamesBeforeKey", f.as_str());
            push_simple(out, "KeyNames", c.last_name.as_str());
        },
        Option::None => push_simple(out, "PersonName", c.full_name.as_str()),
    }
    push_end(out);
    proof {
        assert(views(out@) =~= views(old(out)@) + spec_contribution_block(*c));
    }
}

/// The events of one `Language` block.  The language code is written
/// in lower case, as the target code list expects.
pub open spec fn spec_language_block(l: WorkLanguages) -> Seq<XmlEventView> {
    spec_elem(
        "Language"@,
        spec_simple("LanguageRole"@, spec_language_role_code(l.language_relation)) + spec_simple(
            "LanguageCode"@,
            spec_lower(l.language_code@),
        ),
    )
}

/// Emits one `Language` block.
pub fn language_block(l: &WorkLanguages, out: &mut Vec<XmlNode>)
    requires
        l.wf(),
    ensures
        views(final(out)@) == views(old(out)@) + spec_language_block(*l),
{
    push_start(out, "Language");
    push_simple(out, "LanguageRole", language_role_code(&l.language_relation));
    let code = ascii_lower(l.language_code.as_str());
    push_simple(out, "LanguageCode", code.as_str());
    push_end(out);
    proof {
        assert(views(out@) =~= views(old(out)@) + spec_language_block(*l));
    }
}

/// The events of one `Series` block.
pub open spec fn spec_issue_block(i: WorkIssues) -> Seq<XmlEventView> {
    spec_elem(
        "Series"@,
        spec_simple("TitleOfSeries"@, i.series.series_name@) + spec_simple(
            "NumberWithinSeries"@,
            spec_dec_i64(i.issue_ordinal as int),
        ),
    )
}

/// Emits one `Series` block.
pub fn issue_block(i: &WorkIssues, out: &mut Vec<XmlNode>)
    ensures
        views(final(out)@) == views(old(out)@) + spec_issue_block(*i),
{
    push_start(out, "Series");
    push_simple(out, "TitleOfSeries", i.series.series_name.as_str());
    let ordinal = i64_to_dec(i.issue_ordinal);
    push_simple(out, "NumberWithinSeries", ordinal.as_str());
    push_end(out);
    proof {
        assert(views(out@) =~= views(old(out)@) + spec_issue_block(*i));
    }
}

/// The events of one `Subject` block: keyword and custom schemes
/// carry a free-text heading, the coded schemes a subject code.
pub open spec fn spec_subject_block(s: WorkSubjects) -> Seq<XmlEventView> {
    spec_elem(
        "Subject"@,
        spec_simple("SubjectSchemeIdentifier"@, spec_subject_scheme_code(s.subject_type)) + (
        if s.subject_type is KEYWORD || s.subject_type is CUSTOM {
            spec_simple("SubjectHeadingText"@, s.subject_code@)
        } else {
            spec_simple("SubjectCode"@, s.subject_code@)
        }),
    )
}

/// Emits one `Subject` block.
pub fn subject_block(s: &WorkSubjects, out: &mut Vec<XmlNode>)
    requires
        s.wf(),
    ensures
        views(final(out)@) == views(old(out)@) + spec_subject_block(*s),
{
    push_start(out, "Subject");
    push_simple(out, "SubjectSchemeIdentifier", subject_scheme_code(&s.subject_type));
    let free_text = match &s.subject_type {
        SubjectType::KEYWORD => true,
        SubjectType::CUSTOM => true,
        _ => false,
    };
    if free_text {
        push_simple(out, "SubjectHeadingText", s.subject_code.as_str());
    } else {
        push_simple(out, "SubjectCode", s.subject_code.as_str());
    }
    push_end(out);
    proof {
        assert(views(out@) =~= views(old(out)@) + spec_subject_block(*s));
    }
}

/// The `Series` blocks of a work, in order.
pub open spec fn spec_issue_blocks(is: Seq<WorkIssues>) -> Seq<XmlEventView>
    decreases is.len(),
{
    if is.len() == 0 {
        Seq::empty()
    } else {
        spec_issue_blocks(is.drop_last()) + spec_issue_block(is.last())
    }
}

fn issue_blocks(is: &Vec<WorkIssues>, out: &mut Vec<XmlNode>)
    ensures
        views(final(out)@) == views(old(out)@) + spec_issue_blocks(is@),
{
    let ghost base = views(out@);
    let mut i: usize = 0;
    while i < is.len()
        invariant
            i <= is@.len(),
            views(out@) == base + spec_issue_blocks(is@.subrange(0, i as int)),
        decreases is@.len() - i,
    {
        issue_block(&is[i], out);
        proof {
            let cur = is@.subrange(0, i + 1 as int);
            assert(cur.drop_last() =~= is@.subrange(0, i as int));
            assert(cur.last() == is@[i as int]);
            assert(views(out@) =~= base + spec_issue_blocks(cur));
        }
        i = i + 1;
    }
    proof {
        assert(is@.subrange(0, is@.len() as int) =~= is@);
    }
}

/// The `Contributor` blocks of a work, in order.
pub open spec fn spec_contribution_blocks(cs: Seq<WorkContributions>) -> Seq<XmlEventView>
    decreases cs.len(),
{
    if cs.len() == 0 {
        Seq::empty()
    } else {
        spec_contribution_blocks(cs.drop_last()) + spec_contribution_block(cs.last())
    }
}

fn contribution_blocks(cs: &Vec<WorkContributions>, out: &mut Vec<XmlNode>)
    requires
        forall|i: int| 0 <= i < cs@.len() ==> (#[trigger] cs@[i]).wf(),
    ensures
        views(final(out)@) == views(old(out)@) + spec_contribution_blocks(cs@),
{
    let ghost base = views(out@);
    let mut i: usize = 0;
    while i < cs.len()
        invariant
            forall|k: int| 0 <= k < cs@.len() ==> (#[trigger] cs@[k]).wf(),
            i <= cs@.len(),
            views(out@) == base + spec_contribution_blocks(cs@.subrange(0, i as int)),
        decreases cs@.len() - i,
    {
        assert(cs@[i as int].wf());
        contribution_block(&cs[i], out);
        proof {
            let cur = cs@.subrange(0, i + 1 as int);
            assert(cur.drop_last() =~= cs@.subrange(0, i as int));
            assert(cur.last() == cs@[i as int]);
            assert(views(out@) =~= base + spec_contribution_blocks(cur));
        }
        i = i + 1;
    }
    proof {
        assert(cs@.subrange(0, cs@.len() as int) =~= cs@);
    }
}

/// The `Language` blocks of a work, in order.
pub open spec fn spec_language_blocks(ls: Seq<WorkLanguages>) -> Seq<XmlEventView>
    decreases ls.len(),
{
    if ls.len() == 0 {
        Seq::empty()
    } else {
        spec_language_blocks(ls.drop_last()) + spec_language_block(ls.last())
    }
}

fn language_blocks(ls: &Vec<WorkLanguages>, out: &mut Vec<XmlNode>)
    requires
        forall|i: int| 0 <= i < ls@.len() ==> (#[trigger] ls@[i]).wf(),
    ensures
        views(final(out)@) == views(old(out)@) + spec_language_blocks(ls@),
{
    let ghost base = views(out@);
    let mut i: usize = 0;
    while i < ls.len()
        invariant
            forall|k: int| 0 <= k < ls@.len() ==> (#[trigger] ls@[k]).wf(),
            i <= ls@.len(),
            views(out@) == base + spec_language_blocks(ls@.subrange(0, i as int)),
        decreases ls@.len() - i,
    {
        assert(ls@[i as int].wf());
        language_block(&ls[i], out);
        proof {
            let cur = ls@.subrange(0, i + 1 as int);
            assert(cur.drop_last() =~= ls@.subrange(0, i as int));
            assert(cur.last() == ls@[i as int]);
            assert(views(out@) =~= base + spec_language_blocks(cur));
        }
        i = i + 1;
    }
    proof {
        assert(ls@.subrange(0, ls@.len() as int) =~= ls@);
    }
}

/// The `Subject` blocks of a work, in order.
pub open spec fn spec_subject_blocks(ss: Seq<WorkSubjects>) -> Seq<XmlEventView>
    decreases ss.len(),
{
    if ss.len() == 0 {
        Seq::empty()
    } else {
        spec_subject_blocks(ss.drop_last()) + spec_subject_block(ss.last())
    }
}

fn subject_blocks(ss: &Vec<WorkSubjects>, out: &mut Vec<XmlNode>)
    requires
        forall|i: int| 0 <= i < ss@.len() ==> (#[trigger] ss@[i]).wf(),
    ensures
        views(final(out)@) == views(old(out)@) + spec_subject_blocks(ss@),
{
    let ghost base = views(out@);
    let mut i: usize = 0;
    while i < ss.len()
        invariant
            forall|k: int| 0 <= k < ss@.len() ==> (#[trigger] ss@[k]).wf(),
            i <= ss@.len(),
            views(out@) == base + spec_subject_blocks(ss@.subrange(0, i as int)),
        decreases ss@.len() - i,
    {
        assert(ss@[i as int].wf());
        subject_block(&ss[i], out);
        proof {
            let cur = ss@.subrange(0, i + 1 as int);
            assert(cur.drop_last() =~= ss@.subrange(0, i as int));
            assert(cur.last() == ss@[i as int]);
            assert(views(out@) =~= base + spec_subject_blocks(cur));
        }
        i = i + 1;
    }
    proof {
        assert(ss@.subrange(0, ss@.len() as int) =~= ss@);
    }
}

/// The `RelatedProduct` blocks: one per alternate-format ISBN.
pub open spec fn spec_related_blocks(isbns: Seq<Seq<char>>) -> Seq<XmlEventView>
    decreases isbns.len(),
{
    if isbns.len() == 0 {
        Seq::empty()
    } else {
        spec_related_blocks(isbns.drop_last()) + spec_elem(
            "RelatedProduct"@,
            spec_simple("RelationCode"@, "06"@) + spec_elem(
                "ProductIdentifier"@,
                spec_simple("ProductIDType"@, "15"@) + spec_simple(
                    "IDValue"@,
                    isbns.last(),
                ),
            ),
        )
    }
}

fn related_blocks(isbns: &Vec<String>, out: &mut Vec<XmlNode>)
    ensures
        views(final(out)@) == views(old(out)@) + spec_related_blocks(
            isbns@.map_values(|s: String| s@),
        ),
{
    let ghost items = isbns@.map_values(|s: String| s@);
    let ghost base = views(out@);
    let mut i: usize = 0;
    while i < isbns.len()
        invariant
            items == isbns@.map_values(|s: String| s@),
            i <= isbns@.len(),
            views(out@) == base + spec_related_blocks(items.subrange(0, i as int)),
        decreases isbns@.len() - i,
    {
        push_start(out, "RelatedProduct");
        push_simple(out, "RelationCode", "06");
        push_start(out, "ProductIdentifier");
        push_simple(out, "ProductIDType", "15");
        push_simple(out, "IDValue", isbns[i].as_str());
        push_end(out);
        push_end(out);
        proof {
            let cur = items.subrange(0, i + 1 as int);
            assert(cur.drop_last() =~= items.subrange(0, i as int));
            assert(cur.last() == items[i as int]);
            assert(views(out@) =~= base + spec_related_blocks(cur));
        }
        i = i + 1;
    }
    proof {
        assert(items.subrange(0, items.len() as int) =~= items);
    }
}

/// The download entries of the website list: the PDF and the EPUB
/// URLs under role `29`, a URL shared by both listed once.
pub open spec fn spec_site_base(pdf: Option<Seq<char>>, epub: Option<Seq<char>>) -> Seq<
    (Seq<char>, Seq<char>, Seq<char>),
> {
    let role_dl = "29"@;
    let desc_dl = "Publisher's website: download the title"@;
    match (pdf, epub) {
        (Option::None, Option::None) => Seq::empty(),
        (Option::Some(p), Option::None) => seq![(p, role_dl, desc_dl)],
        (Option::None, Option::Some(e)) => seq![(e, role_dl, desc_dl)],
        (Option::Some(p), Option::Some(e)) => if p == e {
            seq![(p, role_dl, desc_dl)]
        } else {
            seq![(p, role_dl, desc_dl), (e, role_dl, desc_dl)]
        },
    }
}

/// The deduplicated website list of a work: the download entries,
/// then the landing page under role `01` — a landing page equal to a
/// download URL takes that entry's place.
pub open spec fn spec_site_list(
    pdf: Option<Seq<char>>,
    epub: Option<Seq<char>>,
    landing: Option<Seq<char>>,
) -> Seq<(Seq<char>, Seq<char>, Seq<char>)> {
    let role_shop = "01"@;
    let desc_shop = "Publisher's website: web shop"@;
    let base = spec_site_base(pdf, epub);
    match landing {
        Option::None => base,
        Option::Some(u) => {
            if base.len() >= 1 && base[0].0 == u {
                base.update(0, (u, role_shop, desc_shop))
            } else if base.len() == 2 && base[1].0 == u {
                base.update(1, (u, role_shop, desc_shop))
            } else {
                base.push((u, role_shop, desc_shop))
            }
        },
    }
}

/// The entries of a site list, as plain text triples.
pub open spec fn site_views(sites: Seq<(String, String, String)>) -> Seq<
    (Seq<char>, Seq<char>, Seq<char>),
> {
    sites.map_values(|e: (String, String, String)| (e.0@, e.1@, e.2@))
}

/// Builds the website list of a work.
#[verifier::rlimit(30)]
pub fn site_list(
    pdf: &Option<String>,
    epub: &Option<String>,
    landing: &Option<String>,
) -> (r: Vec<(String, String, String)>)
    ensures
        site_views(r@) == spec_site_list(
            spec_opt_view(*pdf),
            spec_opt_view(*epub),
            spec_opt_view(*landing),
        ),
{
    let ghost base_spec = spec_site_base(spec_opt_view(*pdf), spec_opt_view(*epub));
    let mut sites: Vec<(String, String, String)> = Vec::new();
    match pdf {
        Option::Some(u) => {
            sites.push(
                (
                    u.clone(),
                    String::from_str("29"),
                    String::from_str("Publisher's website: download the title"),
                ),
            );
        },
        Option::None => (),
    }
    match epub {
        Option::Some(u) => {
            let duplicate = match pdf {
                Option::Some(p) => *p == *u,
                Option::None => false,
            };
            if !duplicate {
                sites.push(
                    (
                        u.clone(),
                        String::from_str("29"),
                        String::from_str("Publisher's website: download the title"),
                    ),
                );
            }
        },
        Option::None => (),
    }
    proof {
        assert(site_views(sites@) =~~= base_spec);
    }
    match landing {
        Option::Some(u) => {
            let shop = (
                u.clone(),
                String::from_str("01"),
                String::from_str("Publisher's website: web shop"),
            );
            let ghost shop_view = (u@, "01"@, "Publisher's website: web shop"@);
            if sites.len() >= 1 && sites[0].0 == *u {
                let ghost before = sites@;
                sites.remove(0);
                sites.insert(0, shop);
                proof {
                    assert(site_views(sites@) =~~= base_spec.update(0, shop_view));
                }
            } else if sites.len() == 2 && sites[1].0 == *u {
                let ghost before = sites@;
                sites.remove(1);
                sites.insert(1, shop);
                proof {
                    assert(site_views(sites@) =~~= base_spec.update(1, shop_view));
                }
            } else {
                sites.push(shop);
                proof {
                    assert(site_views(sites@) =~~= base_spec.push(shop_view));
                }
            }
        },
        Option::None => (),
    }
    sites
}

/// The `Website` blocks of a site list, in order.
pub open spec fn spec_website_blocks(sites: Seq<(Seq<char>, Seq<char>, Seq<char>)>) -> Seq<
    XmlEventView,
>
    decreases sites.len(),
{
    if sites.len() == 0 {
        Seq::empty()
    } else {
        spec_website_blocks(sites.drop_last()) + spec_elem(
            "Website"@,
            spec_simple("WebsiteRole"@, sites.last().1) + spec_simple(
                "WebsiteDescription"@,
                sites.last().2,
            ) + spec_simple("WebsiteLink"@, sites.last().0),
        )
    }
}

fn website_blocks(sites: &Vec<(String, String, String)>, out: &mut Vec<XmlNode>)
    ensures
        views(final(out)@) == views(old(out)@) + spec_website_blocks(site_views(sites@)),
{
    let ghost items = site_views(sites@);
    let ghost base = views(out@);
    let mut i: usize = 0;
    while i < sites.len()
        invariant
            items == site_views(sites@),
            i <= sites@.len(),
            views(out@) == base + spec_website_blocks(items.subrange(0, i as int)),
        decreases sites@.len() - i,
    {
        push_start(out, "Website");
        push_simple(out, "WebsiteRole", sites[i].1.as_str());
        push_simple(out, "WebsiteDescription", sites[i].2.as_str());
        push_simple(out, "WebsiteLink", sites[i].0.as_str());
        push_end(out);
        proof {
            let cur = items.subrange(0, i + 1 as int);
            assert(cur.drop_last() =~= items.subrange(0, i as int));
            assert(cur.last() == items[i as int]);
            assert(views(out@) =~= base + spec_website_blocks(cur));
        }
        i = i + 1;
    }
    proof {
        assert(items.subrange(0, items.len() as int) =~= items);
    }
}

/// The record reference of a work.
pub open spec fn spec_urn(w: Work) -> Seq<char> {
    spec_record_reference(w.work_id@)
}

/// The identifier and form events at the head of a `Product` block.
pub open spec fn spec_product_head(w: Work) -> Seq<XmlEventView> {
    spec_simple("RecordReference"@, spec_urn(w)) + spec_simple("NotificationType"@, "03"@)
        + spec_simple("RecordSourceType"@, "01"@) + spec_elem(
        "ProductIdentifier"@,
        spec_simple("ProductIDType"@, "01"@) + spec_simple("IDValue"@, spec_urn(w)),
    ) + spec_elem(
        "ProductIdentifier"@,
        spec_simple("ProductIDType"@, "15"@) + spec_simple(
            "IDValue"@,
            spec_main_isbn(w.publications@),
        ),
    ) + (match w.doi {
        Option::Some(d) => spec_elem(
            "ProductIdentifier"@,
            spec_simple("ProductIDType"@, "06"@) + spec_simple("IDValue"@, d@),
        ),
        Option::None => Seq::empty(),
    }) + spec_simple("ProductForm"@, "DG"@) + spec_simple(
        "EpubType"@,
        if spec_canonical_fulltext(w.publications@, PublicationType::PDF) is Some {
            "002"@
        } else {
            "029"@
        },
    )
}

fn product_head(w: &Work, urn: &str, main_isbn: &str, has_pdf: bool, out: &mut Vec<XmlNode>)
    requires
        urn@ == spec_urn(*w),
        main_isbn@ == spec_main_isbn(w.publications@),
        has_pdf == (spec_canonical_fulltext(w.publications@, PublicationType::PDF) is Some),
    ensures
        views(final(out)@) == views(old(out)@) + spec_product_head(*w),
{
    push_simple(out, "RecordReference", urn);
    push_simple(out, "NotificationType", "03");
    push_simple(out, "RecordSourceType", "01");
    push_start(out, "ProductIdentifier");
    push_simple(out, "ProductIDType", "01");
    push_simple(out, "IDValue", urn);
    push_end(out);
    push_start(out, "ProductIdentifier");
    push_simple(out, "ProductIDType", "15");
    push_simple(out, "IDValue", main_isbn);
    push_end(out);
    match &w.doi {
        Option::Some(d) => {
            push_start(out, "ProductIdentifier");
            push_simple(out, "ProductIDType", "06");
            push_simple(out, "IDValue", d.to_str());
            push_end(out);
        },
        Option::None => (),
    }
    push_simple(out, "ProductForm", "DG");
    if has_pdf {
        push_simple(out, "EpubType", "002");
    } else {
        push_simple(out, "EpubType", "029");
    }
    proof {
        assert(views(out@) =~= views(old(out)@) + spec_product_head(*w));
    }
}

/// The `Title` block: with a subtitle, title and subtitle stand apart;
/// without one, the full title stands alone.
pub open spec fn spec_title_block(w: Work) -> Seq<XmlEventView> {
    spec_elem(
        "Title"@,
        spec_simple("TitleType"@, "01"@) + (match w.subtitle {
            Option::Some(st) => spec_simple("TitleText"@, w.title@) + spec_simple(
                "Subtitle"@,
                st@,
            ),
            Option::None => spec_simple("TitleText"@, w.full_title@),
        }),
    )
}

fn title_block(w: &Work, out: &mut Vec<XmlNode>)
    ensures
        views(final(out)@) == views(old(out)@) + spec_title_block(*w),
{
    push_start(out, "Title");
    push_simple(out, "TitleType", "01");
    match &w.subtitle {
        Option::Some(st) => {
            push_simple(out, "TitleText", w.title.as_str());
            push_simple(out, "Subtitle", st.as_str());
        },
        Option::None => {
            push_simple(out, "TitleText", w.full_title.as_str());
        },
    }
    push_end(out);
    proof {
        assert(views(out@) =~= views(old(out)@) + spec_title_block(*w));
    }
}

/// The series, title, identifier, website, contributor, language,
/// extent and subject events in the middle of a `Product` block.
pub open spec fn spec_product_mid(w: Work) -> Seq<XmlEventView> {
    spec_issue_blocks(w.issues@) + spec_title_block(w) + spec_elem(
        "WorkIdentifier"@,
        spec_simple("WorkIDType"@, "01"@) + spec_simple("IDTypeName"@, "Thoth WorkID"@)
            + spec_simple("IDValue"@, spec_urn(w)),
    ) + spec_website_blocks(
        spec_site_list(
            spec_canonical_fulltext(w.publications@, PublicationType::PDF),
            spec_canonical_fulltext(w.publications@, PublicationType::EPUB),
            spec_opt_view(w.landing_page),
        ),
    ) + spec_contribution_blocks(w.contributions@) + spec_language_blocks(w.languages@) + (
    match w.page_count {
        Option::Some(pc) => spec_elem(
            "Extent"@,
            spec_simple("ExtentType"@, "00"@) + spec_simple(
                "ExtentValue"@,
                spec_dec_i64(pc as int),
            ) + spec_simple("ExtentUnit"@, "03"@),
        ),
        Option::None => Seq::empty(),
    }) + spec_subject_blocks(w.subjects@)
}

#[verifier::rlimit(80)]
fn product_mid(w: &Work, urn: &str, out: &mut Vec<XmlNode>)
    requires
        w.wf(),
        urn@ == spec_urn(*w),
    ensures
        views(final(out)@) == views(old(out)@) + spec_product_mid(*w),
{
    issue_blocks(&w.issues, out);
    title_block(w, out);
    push_start(out, "WorkIdentifier");
    push_simple(out, "WorkIDType", "01");
    push_simple(out, "IDTypeName", "Thoth WorkID");
    push_simple(out, "IDValue", urn);
    push_end(out);
    let pdf_url = canonical_fulltext(&w.publications, &PublicationType::PDF);
    let epub_url = canonical_fulltext(&w.publications, &PublicationType::EPUB);
    let sites = site_list(&pdf_url, &epub_url, &w.landing_page);
    website_blocks(&sites, out);
    contribution_blocks(&w.contributions, out);
    language_blocks(&w.languages, out);
    match &w.page_count {
        Option::Some(pc) => {
            push_start(out, "Extent");
            push_simple(out, "ExtentType", "00");
            let pages = i64_to_dec(*pc);
            push_simple(out, "ExtentValue", pages.as_str());
            push_simple(out, "ExtentUnit", "03");
            push_end(out);
        },
        Option::None => (),
    }
    subject_blocks(&w.subjects, out);
    proof {
        assert(views(out@) =~= views(old(out)@) + spec_product_mid(*w));
    }
}

/// The `SupplyDetail` block with the bundled USD price.
pub open spec fn spec_supply_block(w: Work) -> Seq<XmlEventView> {
    spec_elem(
        "SupplyDetail"@,
        spec_simple("SupplierName"@, w.imprint.publisher.publisher_name@) + spec_simple(
            "SupplierRole"@,
            "09"@,
        ) + spec_simple("ProductAvailability"@, "99"@) + spec_simple(
            "AudienceRestrictionFlag"@,
            "R"@,
        ) + spec_simple("AudienceRestrictionNote"@, "Open access"@) + spec_elem(
            "Price"@,
            spec_simple("PriceTypeCode"@, "02"@) + spec_simple(
                "PriceAmount"@,
                spec_money(spec_bundle_cents(w.publications@) as nat),
            ) + spec_simple("CurrencyCode"@, "USD"@),
        ),
    )
}

fn supply_block(w: &Work, out: &mut Vec<XmlNode>)
    ensures
        views(final(out)@) == views(old(out)@) + spec_supply_block(*w),
{
    push_start(out, "SupplyDetail");
    push_simple(out, "SupplierName", w.imprint.publisher.publisher_name.as_str());
    push_simple(out, "SupplierRole", "09");
    push_simple(out, "ProductAvailability", "99");
    push_simple(out, "AudienceRestrictionFlag", "R");
    push_simple(out, "AudienceRestrictionNote", "Open access");
    push_start(out, "Price");
    push_simple(out, "PriceTypeCode", "02");
    let amount = money_str(bundle_cents(&w.publications));
    push_simple(out, "PriceAmount", amount.as_str());
    push_simple(out, "CurrencyCode", "USD");
    push_end(out);
    push_end(out);
    proof {
        assert(views(out@) =~= views(old(out)@) + spec_supply_block(*w));
    }
}

/// The audience, open-access note, license, abstract and cover
/// events of a `Product` block.
pub open spec fn spec_product_notes(w: Work) -> Seq<XmlEventView> {
    spec_elem(
        "Audience"@,
        spec_simple("AudienceCodeType"@, "01"@) + spec_simple("AudienceCodeValue"@, "06"@),
    ) + spec_elem(
        "OtherText"@,
        spec_simple("TextTypeCode"@, "47"@) + spec_simple(
            "Text"@,
            "Open access - no commercial use"@,
        ),
    ) + (match w.license {
        Option::Some(license) => spec_elem(
            "OtherText"@,
            spec_simple("TextTypeCode"@, "46"@) + spec_simple("Text"@, license@),
        ),
        Option::None => Seq::empty(),
    }) + (match w.long_abstract {
        Option::Some(la) => spec_elem(
            "OtherText"@,
            spec_simple("TextTypeCode"@, "03"@) + spec_simple("TextFormat"@, "06"@) + spec_simple(
                "Text"@,
                la@,
            ),
        ),
        Option::None => Seq::empty(),
    }) + (match w.cover_url {
        Option::Some(cu) => spec_elem(
            "MediaFile"@,
            spec_simple("MediaFileTypeCode"@, "04"@) + spec_simple(
                "MediaFileLinkTypeCode"@,
                "01"@,
            ) + spec_simple("MediaFileLink"@, cu@),
        ),
        Option::None => Seq::empty(),
    })
}

#[verifier::rlimit(90)]
fn product_notes(w: &Work, out: &mut Vec<XmlNode>)
    ensures
        views(final(out)@) == views(old(out)@) + spec_product_notes(*w),
{
    push_start(out, "Audience");
    push_simple(out, "AudienceCodeType", "01");
    push_simple(out, "AudienceCodeValue", "06");
    push_end(out);
    push_start(out, "OtherText");
    push_simple(out, "TextTypeCode", "47");
    push_simple(out, "Text", "Open access - no commercial use");
    push_end(out);
    match &w.license {
        Option::Some(license) => {
            push_start(out, "OtherText");
            push_simple(out, "TextTypeCode", "46");
            push_simple(out, "Text", license.as_str());
            push_end(out);
        },
        Option::None => (),
    }
    match &w.long_abstract {
        Option::Some(la) => {
            push_start(out, "OtherText");
            push_simple(out, "TextTypeCode", "03");
            push_simple(out, "TextFormat", "06");
            push_simple(out, "Text", la.as_str());
            push_end(out);
        },
        Option::None => (),
    }
    match &w.cover_url {
        Option::Some(cu) => {
            push_start(out, "MediaFile");
            push_simple(out, "MediaFileTypeCode", "04");
            push_simple(out, "MediaFileLinkTypeCode", "01");
            push_simple(out, "MediaFileLink", cu.as_str());
            push_end(out);
        },
        Option::None => (),
    }
    proof {
        assert(views(out@) =~= views(old(out)@) + spec_product_notes(*w));
    }
}

/// The imprint, publisher, place, status, date and rights events of
/// a `Product` block.
pub open spec fn spec_product_imprint_status(w: Work) -> Seq<XmlEventView> {
    spec_elem("Imprint"@, spec_simple("ImprintName"@, w.imprint.imprint_name@)) + spec_elem(
        "Publisher"@,
        spec_simple("PublishingRole"@, "01"@) + spec_simple(
            "PublisherName"@,
            w.imprint.publisher.publisher_name@,
        ) + (match w.imprint.publisher.publisher_url {
            Option::Some(pu) => spec_elem("Website"@, spec_simple("WebsiteLink"@, pu@)),
            Option::None => Seq::empty(),
        }),
    ) + (match w.place {
        Option::Some(place) => spec_simple("CityOfPublication"@, place@),
        Option::None => Seq::empty(),
    }) + spec_simple("PublishingStatus"@, spec_work_status_code(w.work_status)) + (
    match w.publication_date {
        Option::Some(d) => spec_simple("PublicationDate"@, d.spec_yyyymmdd()) + spec_simple(
            "CopyrightYear"@,
            d.spec_yyyy(),
        ),
        Option::None => Seq::empty(),
    }) + spec_elem(
        "SalesRights"@,
        spec_simple("SalesRightsType"@, "02"@) + spec_simple("RightsTerritory"@, "WORLD"@),
    )
}

#[verifier::rlimit(60)]
fn product_imprint_status(w: &Work, out: &mut Vec<XmlNode>)
    requires
        w.wf(),
    ensures
        views(final(out)@) == views(old(out)@) + spec_product_imprint_status(*w),
{
    push_start(out, "Imprint");
    push_simple(out, "ImprintName", w.imprint.imprint_name.as_str());
    push_end(out);
    push_start(out, "Publisher");
    push_simple(out, "PublishingRole", "01");
    push_simple(out, "PublisherName", w.imprint.publisher.publisher_name.as_str());
    match &w.imprint.publisher.publisher_url {
        Option::Some(pu) => {
            push_start(out, "Website");
            push_simple(out, "WebsiteLink", pu.as_str());
            push_end(out);
        },
        Option::None => (),
    }
    push_end(out);
    match &w.place {
        Option::Some(place) => {
            push_simple(out, "CityOfPublication", place.as_str());
        },
        Option::None => (),
    }
    push_simple(out, "PublishingStatus", work_status_code(&w.work_status));
    match &w.publication_date {
        Option::Some(d) => {
            let full = d.yyyymmdd();
            push_simple(out, "PublicationDate", full.as_str());
            let year = d.yyyy();
            push_simple(out, "CopyrightYear", year.as_str());
        },
        Option::None => (),
    }
    push_start(out, "SalesRights");
    push_simple(out, "SalesRightsType", "02");
    push_simple(out, "RightsTerritory", "WORLD");
    push_end(out);
    proof {
        assert(views(out@) =~= views(old(out)@) + spec_product_imprint_status(*w));
    }
}

/// The imprint, publisher, place, status, date, rights, related
/// products and supply events of a `Product` block.
pub open spec fn spec_product_publishing(w: Work) -> Seq<XmlEventView> {
    spec_product_imprint_status(w) + spec_related_blocks(spec_isbns(w.publications@))
        + spec_supply_block(w)
}

fn product_publishing(w: &Work, isbns: &Vec<String>, out: &mut Vec<XmlNode>)
    requires
        w.wf(),
        isbns@.map_values(|s: String| s@) == spec_isbns(w.publications@),
    ensures
        views(final(out)@) == views(old(out)@) + spec_product_publishing(*w),
{
    product_imprint_status(w, out);
    related_blocks(isbns, out);
    supply_block(w, out);
    proof {
        assert(views(out@) =~= views(old(out)@) + spec_product_publishing(*w));
    }
}

/// The events at the tail of a `Product` block.
pub open spec fn spec_product_tail(w: Work) -> Seq<XmlEventView> {
    spec_product_notes(w) + spec_product_publishing(w)
}

fn product_tail(w: &Work, isbns: &Vec<String>, out: &mut Vec<XmlNode>)
    requires
        w.wf(),
        isbns@.map_values(|s: String| s@) == spec_isbns(w.publications@),
    ensures
        views(final(out)@) == views(old(out)@) + spec_product_tail(*w),
{
    product_notes(w, out);
    product_publishing(w, isbns, out);
    proof {
        assert(views(out@) =~= views(old(out)@) + spec_product_tail(*w));
    }
}

/// The whole `Product` block of one eligible work.
pub open spec fn spec_product_block(w: Work) -> Seq<XmlEventView> {
    spec_elem("Product"@, spec_product_head(w) + spec_product_mid(w) + spec_product_tail(w))
}

/// Emits the `Product` block of one work.
#[verifier::rlimit(60)]
pub fn product_block(w: &Work, out: &mut Vec<XmlNode>)
    requires
        w.wf(),
    ensures
        views(final(out)@) == views(old(out)@) + spec_product_block(*w),
{
    let urn = record_reference(w.work_id.as_str());
    let data = get_publications_data(&w.publications);
    let has_pdf = canonical_fulltext(&w.publications, &PublicationType::PDF).is_some();
    push_start(out, "Product");
    product_head(w, urn.as_str(), data.0.as_str(), has_pdf, out);
    product_mid(w, urn.as_str(), out);
    product_tail(w, &data.1, out);
    push_end(out);
    proof {
        assert(views(out@) =~= views(old(out)@) + spec_product_block(*w));
    }
}

/// The `Header` block: fixed sender details and the batch date.
pub open spec fn spec_header_block(today: Date) -> Seq<XmlEventView> {
    spec_elem(
        "Header"@,
        spec_simple("FromCompany"@, "Thoth"@) + spec_simple("FromEmail"@, "info@thoth.pub"@)
            + spec_simple("SentDate"@, today.spec_yyyymmdd()),
    )
}

fn header_block(today: &Date, out: &mut Vec<XmlNode>)
    requires
        today.wf(),
    ensures
        views(final(out)@) == views(old(out)@) + spec_header_block(*today),
{
    push_start(out, "Header");
    push_simple(out, "FromCompany", "Thoth");
    push_simple(out, "FromEmail", "info@thoth.pub");
    let date = today.yyyymmdd();
    push_simple(out, "SentDate", date.as_str());
    push_end(out);
    proof {
        assert(views(out@) =~= views(old(out)@) + spec_header_block(*today));
    }
}

/// The `Product` blocks of a batch: one per work, in order.  The
/// eligibility gate stands in front, so an ineligible work never
/// reaches this list.
pub open spec fn spec_product_list(ws: Seq<Work>) -> Seq<XmlEventView>
    decreases ws.len(),
{
    if ws.len() == 0 {
        Seq::empty()
    } else {
        spec_product_list(ws.drop_last()) + spec_product_block(ws.last())
    }
}

/// The whole message of a batch.
pub open spec fn spec_message(ws: Seq<Work>, today: Date) -> Seq<XmlEventView> {
    spec_elem("ONIXMessage"@, spec_header_block(today) + spec_product_list(ws))
}

/// Decides eligibility of one work.
pub fn is_eligible(w: &Work) -> (r: bool)
    ensures
        r == spec_eligible(*w),
{
    let pdf = canonical_fulltext(&w.publications, &PublicationType::PDF);
    let epub = canonical_fulltext(&w.publications, &PublicationType::EPUB);
    pdf.is_some() || epub.is_some()
}

/// Whether every work of a batch passes the eligibility gate.
pub fn all_eligible(works: &Vec<Work>) -> (r: bool)
    ensures
        r == (forall|i: int| 0 <= i < works@.len() ==> spec_eligible(#[trigger] works@[i])),
{
    let mut i: usize = 0;
    while i < works.len()
        invariant
            i <= works@.len(),
            forall|k: int| 0 <= k < i ==> spec_eligible(#[trigger] works@[k]),
        decreases works@.len() - i,
    {
        if !is_eligible(&works[i]) {
            return false;
        }
        i = i + 1;
    }
    true
}

/// Builds the event list of a batch.  An empty batch is refused for
/// want of data; a batch holding any ineligible work is refused whole
/// — no work is skipped and nothing is emitted for the batch.
#[verifier::rlimit(60)]
pub fn build_message(works: &Vec<Work>, today: &Date) -> (r: Result<Vec<XmlNode>, ThothError>)
    requires
        forall|i: int| 0 <= i < works@.len() ==> (#[trigger] works@[i]).wf(),
        today.wf(),
    ensures
        r matches Ok(nodes) ==> views(nodes@) == spec_message(works@, *today),
        r is Ok <==> (works@.len() >= 1 && forall|i: int|
            0 <= i < works@.len() ==> spec_eligible(#[trigger] works@[i])),
        works@.len() == 0 ==> (r matches Err(e) && e matches ThothError::IncompleteMetadataRecord(spec, reason)
            && spec@ == "onix_2.1::ebsco_host"@ && reason@ == "Not enough data"@),
        (works@.len() >= 1 && exists|i: int|
            0 <= i < works@.len() && !spec_eligible(#[trigger] works@[i])) ==> (r matches Err(e)
            && e matches ThothError::IncompleteMetadataRecord(spec, reason) && spec@
            == "onix_2.1::ebsco_host"@ && reason@ == "No PDF or EPUB URL"@),
{
    if works.len() == 0 {
        return Err(
            ThothError::IncompleteMetadataRecord(
                String::from_str("onix_2.1::ebsco_host"),
                String::from_str("Not enough data"),
            ),
        );
    }
    if !all_eligible(works) {
        return Err(
            ThothError::IncompleteMetadataRecord(
                String::from_str("onix_2.1::ebsco_host"),
                String::from_str("No PDF or EPUB URL"),
            ),
        );
    }
    let mut out: Vec<XmlNode> = Vec::new();
    push_start(&mut out, "ONIXMessage");
    header_block(today, &mut out);
    let mut i: usize = 0;
    while i < works.len()
        invariant
            forall|k: int| 0 <= k < works@.len() ==> (#[trigger] works@[k]).wf(),
            today.wf(),
            i <= works@.len(),
            views(out@) == seq![ev_start("ONIXMessage"@)] + spec_header_block(*today)
                + spec_product_list(works@.subrange(0, i as int)),
        decreases works@.len() - i,
    {
        assert(works@[i as int].wf());
        product_block(&works[i], &mut out);
        proof {
            let cur = works@.subrange(0, i + 1 as int);
            assert(cur.drop_last() =~= works@.subrange(0, i as int));
            assert(cur.last() == works@[i as int]);
            assert(views(out@) =~= seq![ev_start("ONIXMessage"@)] + spec_header_block(*today)
                + spec_product_list(cur));
        }
        i = i + 1;
    }
    push_end(&mut out);
    proof {
        assert(works@.subrange(0, works@.len() as int) =~= works@);
        assert(views(out@) =~= spec_message(works@, *today));
    }
    Ok(out)
}


proof fn lemma_contribution_block_balanced(c: WorkContributions)
    ensures
        spec_balanced(spec_contribution_block(c)),
{
    broadcast use lemma_balanced_concat_auto, lemma_balanced_simple_auto, lemma_balanced_elem_auto;

    lemma_balanced_empty();
}

proof fn lemma_issue_block_balanced(i: WorkIssues)
    ensures
        spec_balanced(spec_issue_block(i)),
{
    broadcast use lemma_balanced_concat_auto, lemma_balanced_simple_auto, lemma_balanced_elem_auto;

}

proof fn lemma_language_block_balanced(l: WorkLanguages)
    ensures
        spec_balanced(spec_language_block(l)),
{
    broadcast use lemma_balanced_concat_auto, lemma_balanced_simple_auto, lemma_balanced_elem_auto;

}

proof fn lemma_subject_block_balanced(s: WorkSubjects)
    ensures
        spec_balanced(spec_subject_block(s)),
{
    broadcast use lemma_balanced_concat_auto, lemma_balanced_simple_auto, lemma_balanced_elem_auto;

}

proof fn lemma_issue_blocks_balanced(is: Seq<WorkIssues>)
    ensures
        spec_balanced(spec_issue_blocks(is)),
    decreases is.len(),
{
    broadcast use lemma_balanced_concat_auto;

    if is.len() == 0 {
        lemma_balanced_empty();
    } else {
        lemma_issue_blocks_balanced(is.drop_last());
        lemma_issue_block_balanced(is.last());
    }
}

proof fn lemma_contribution_blocks_balanced(cs: Seq<WorkContributions>)
    ensures
        spec_balanced(spec_contribution_blocks(cs)),
    decreases cs.len(),
{
    broadcast use lemma_balanced_concat_auto;

    if cs.len() == 0 {
        lemma_balanced_empty();
    } else {
        lemma_contribution_blocks_balanced(cs.drop_last());
        lemma_contribution_block_balanced(cs.last());
    }
}

proof fn lemma_language_blocks_balanced(ls: Seq<WorkLanguages>)
    ensures
        spec_balanced(spec_language_blocks(ls)),
    decreases ls.len(),
{
    broadcast use lemma_balanced_concat_auto;

    if ls.len() == 0 {
        lemma_balanced_empty();
    } else {
        lemma_language_blocks_balanced(ls.drop_last());
        lemma_language_block_balanced(ls.last());
    }
}

proof fn lemma_subject_blocks_balanced(ss: Seq<WorkSubjects>)
    ensures
        spec_balanced(spec_subject_blocks(ss)),
    decreases ss.len(),
{
    broadcast use lemma_balanced_concat_auto;

    if ss.len() == 0 {
        lemma_balanced_empty();
    } else {
        lemma_subject_blocks_balanced(ss.drop_last());
        lemma_subject_block_balanced(ss.last());
    }
}

proof fn lemma_related_blocks_balanced(isbns: Seq<Seq<char>>)
    ensures
        spec_balanced(spec_related_blocks(isbns)),
    decreases isbns.len(),
{
    broadcast use lemma_balanced_concat_auto, lemma_balanced_simple_auto, lemma_balanced_elem_auto;

    if isbns.len() == 0 {
        lemma_balanced_empty();
    } else {
        lemma_related_blocks_balanced(isbns.drop_last());
    }
}

proof fn lemma_website_blocks_balanced(sites: Seq<(Seq<char>, Seq<char>, Seq<char>)>)
    ensures
        spec_balanced(spec_website_blocks(sites)),
    decreases sites.len(),
{
    broadcast use lemma_balanced_concat_auto, lemma_balanced_simple_auto, lemma_balanced_elem_auto;

    if sites.len() == 0 {
        lemma_balanced_empty();
    } else {
        lemma_website_blocks_balanced(sites.drop_last());
    }
}

proof fn lemma_product_head_balanced(w: Work)
    ensures
        spec_balanced(spec_product_head(w)),
{
    broadcast use lemma_balanced_concat_auto, lemma_balanced_simple_auto, lemma_balanced_elem_auto;

    lemma_balanced_empty();
}

proof fn lemma_title_block_balanced(w: Work)
    ensures
        spec_balanced(spec_title_block(w)),
{
    broadcast use lemma_balanced_concat_auto, lemma_balanced_simple_auto, lemma_balanced_elem_auto;

}

proof fn lemma_product_mid_balanced(w: Work)
    ensures
        spec_balanced(spec_product_mid(w)),
{
    broadcast use lemma_balanced_concat_auto, lemma_balanced_simple_auto, lemma_balanced_elem_auto;

    lemma_balanced_empty();
    lemma_issue_blocks_balanced(w.issues@);
    lemma_title_block_balanced(w);
    lemma_website_blocks_balanced(
        spec_site_list(
            spec_canonical_fulltext(w.publications@, PublicationType::PDF),
            spec_canonical_fulltext(w.publications@, PublicationType::EPUB),
            spec_opt_view(w.landing_page),
        ),
    );
    lemma_contribution_blocks_balanced(w.contributions@);
    lemma_language_blocks_balanced(w.languages@);
    lemma_subject_blocks_balanced(w.subjects@);
}

proof fn lemma_supply_block_balanced(w: Work)
    ensures
        spec_balanced(spec_supply_block(w)),
{
    broadcast use lemma_balanced_concat_auto, lemma_balanced_simple_auto, lemma_balanced_elem_auto;

}

proof fn lemma_product_notes_balanced(w: Work)
    ensures
        spec_balanced(spec_product_notes(w)),
{
    broadcast use lemma_balanced_concat_auto, lemma_balanced_simple_auto, lemma_balanced_elem_auto;

    lemma_balanced_empty();
}

proof fn lemma_product_imprint_status_balanced(w: Work)
    ensures
        spec_balanced(spec_product_imprint_status(w)),
{
    broadcast use lemma_balanced_concat_auto, lemma_balanced_simple_auto, lemma_balanced_elem_auto;

    lemma_balanced_empty();
}

proof fn lemma_product_block_balanced(w: Work)
    ensures
        spec_balanced(spec_product_block(w)),
{
    broadcast use lemma_balanced_concat_auto, lemma_balanced_elem_auto;

    lemma_product_head_balanced(w);
    lemma_product_mid_balanced(w);
    lemma_product_notes_balanced(w);
    lemma_product_imprint_status_balanced(w);
    lemma_related_blocks_balanced(spec_isbns(w.publications@));
    lemma_supply_block_balanced(w);
}

proof fn lemma_header_block_balanced(today: Date)
    ensures
        spec_balanced(spec_header_block(today)),
{
    broadcast use lemma_balanced_concat_auto, lemma_balanced_simple_auto, lemma_balanced_elem_auto;

}

proof fn lemma_product_list_balanced(ws: Seq<Work>)
    ensures
        spec_balanced(spec_product_list(ws)),
    decreases ws.len(),
{
    broadcast use lemma_balanced_concat_auto;

    if ws.len() == 0 {
        lemma_balanced_empty();
    } else {
        lemma_product_list_balanced(ws.drop_last());
        lemma_product_block_balanced(ws.last());
    }
}

/// The whole message is a well-formed fragment: every close closes
/// something, so the emitter accepts every event of it.
pub proof fn lemma_message_balanced(ws: Seq<Work>, today: Date)
    ensures
        spec_balanced(spec_message(ws, today)),
{
    broadcast use lemma_balanced_concat_auto, lemma_balanced_elem_auto;

    lemma_header_block_balanced(today);
    lemma_product_list_balanced(ws);
}

/// The ONIX 2.1 dialect for EBSCO Host.
#[derive(Debug)]
pub struct Onix21EbscoHost {}

impl Onix21EbscoHost {
    /// Serializes a batch for the given batch date: success exactly
    /// when the batch is non-empty and every work passes the
    /// eligibility gate, and then the output is exactly the rendering
    /// of [`spec_message`]; the two refusals of [`build_message`]
    /// surface unchanged.
    pub fn generate_at(&self, works: &Vec<Work>, today: &Date) -> (r: Result<String, ThothError>)
        requires
            forall|i: int| 0 <= i < works@.len() ==> (#[trigger] works@[i]).wf(),
            today.wf(),
        ensures
            r matches Ok(s) ==> s@ == crate::xml_writer::spec_xml_doc(
                spec_message(works@, *today),
            ),
            r is Ok <==> (works@.len() >= 1 && forall|i: int|
                0 <= i < works@.len() ==> spec_eligible(#[trigger] works@[i])),
            works@.len() == 0 ==> (r matches Err(e) && e matches ThothError::IncompleteMetadataRecord(
                spec,
                reason,
            ) && spec@ == "onix_2.1::ebsco_host"@ && reason@ == "Not enough data"@),
            (works@.len() >= 1 && exists|i: int|
                0 <= i < works@.len() && !spec_eligible(#[trigger] works@[i])) ==> (r matches Err(e)
                && e matches ThothError::IncompleteMetadataRecord(spec, reason) && spec@
                == "onix_2.1::ebsco_host"@ && reason@ == "No PDF or EPUB URL"@),
    {
        match build_message(works, today) {
            Ok(nodes) => {
                proof {
                    lemma_message_balanced(works@, *today);
                }
                render_nodes(&nodes)
            },
            Err(e) => Err(e),
        }
    }

    /// Serializes a batch under today's date, read from the clock.
    /// The data refusals do not depend on the clock: an empty batch,
    /// or one holding an ineligible work, is refused with the stated
    /// reason exactly when the condition holds, and an internal error
    /// (a clock year outside the formatted range) can arise only on a
    /// batch the data would admit.
    pub fn generate(&self, works: &Vec<Work>) -> (r: Result<String, ThothError>)
        requires
            forall|i: int| 0 <= i < works@.len() ==> (#[trigger] works@[i]).wf(),
        ensures
            r matches Ok(s) ==> exists|d: Date|
                d.wf() && s@ == crate::xml_writer::spec_xml_doc(spec_message(works@, d)),
            (r matches Err(e) && e is InternalError) ==> (works@.len() >= 1 && forall|i: int|
                0 <= i < works@.len() ==> spec_eligible(#[trigger] works@[i])),
            (r matches Err(e) && e is IncompleteMetadataRecord) <==> (works@.len() == 0 || exists|
                i: int,
            | 0 <= i < works@.len() && !spec_eligible(#[trigger] works@[i])),
            works@.len() == 0 ==> (r matches Err(e) && e matches ThothError::IncompleteMetadataRecord(
                spec,
                reason,
            ) && spec@ == "onix_2.1::ebsco_host"@ && reason@ == "Not enough data"@),
            (works@.len() >= 1 && exists|i: int|
                0 <= i < works@.len() && !spec_eligible(#[trigger] works@[i])) ==> (r matches Err(e)
                && e matches ThothError::IncompleteMetadataRecord(spec, reason) && spec@
                == "onix_2.1::ebsco_host"@ && reason@ == "No PDF or EPUB URL"@),
    {
        if works.len() == 0 {
            return Err(
                ThothError::IncompleteMetadataRecord(
                    String::from_str("onix_2.1::ebsco_host"),
                    String::from_str("Not enough data"),
                ),
            );
        }
        if !all_eligible(works) {
            return Err(
                ThothError::IncompleteMetadataRecord(
                    String::from_str("onix_2.1::ebsco_host"),
                    String::from_str("No PDF or EPUB URL"),
                ),
            );
        }
        let now = crate::model::date::utc_now_parts();
        if now.year < 0 || now.year > 9999 {
            return Err(ThothError::InternalError(String::from_str("Could not format date")));
        }
        let today = now.date();
        let r = self.generate_at(works, &today);
        proof {
            if r is Ok {
                assert(today.wf() && r->Ok_0@ == crate::xml_writer::spec_xml_doc(
                    spec_message(works@, today),
                ));
            }
        }
        r
    }
}


/// Emits the `Product` block of one work, gated by eligibility: a
/// work without a canonical PDF or EPUB full-text URL is refused and
/// nothing is emitted for it.
pub fn work_block(w: &Work, out: &mut Vec<XmlNode>) -> (r: Result<(), ThothError>)
    requires
        w.wf(),
    ensures
        r is Ok <==> spec_eligible(*w),
        r is Ok ==> views(final(out)@) == views(old(out)@) + spec_product_block(*w),
        r is Err ==> views(final(out)@) == views(old(out)@),
        r matches Err(e) ==> (e matches ThothError::IncompleteMetadataRecord(spec, reason)
            && spec@ == "onix_2.1::ebsco_host"@ && reason@ == "No PDF or EPUB URL"@),
{
    if !is_eligible(w) {
        return Err(
            ThothError::IncompleteMetadataRecord(
                String::from_str("onix_2.1::ebsco_host"),
                String::from_str("No PDF or EPUB URL"),
            ),
        );
    }
    product_block(w, out);
    Ok(())
}

/// Law: the bundled price never falls below one hundredth, and equals
/// the larger format price where one is set.  A work whose PDF and
/// EPUB USD prices are absent or zero is priced at exactly `0.01`;
/// a priced format's amount passes through unchanged when it is the
/// larger.
pub proof fn lemma_bundle_price_floor(pubs: Seq<WorkPublications>)
    ensures
        spec_bundle_cents(pubs) >= 1,
        (spec_usd_cents(pubs, PublicationType::PDF) == 0 && spec_usd_cents(
            pubs,
            PublicationType::EPUB,
        ) == 0) ==> spec_bundle_cents(pubs) == 1,
        (spec_usd_cents(pubs, PublicationType::PDF) >= spec_usd_cents(
            pubs,
            PublicationType::EPUB,
        ) && spec_usd_cents(pubs, PublicationType::PDF) >= 1) ==> spec_bundle_cents(pubs)
            == spec_usd_cents(pubs, PublicationType::PDF),
        (spec_usd_cents(pubs, PublicationType::EPUB) >= spec_usd_cents(
            pubs,
            PublicationType::PDF,
        ) && spec_usd_cents(pubs, PublicationType::EPUB) >= 1) ==> spec_bundle_cents(pubs)
            == spec_usd_cents(pubs, PublicationType::EPUB),
{
}

/// Law: the serialized message is a function of the batch and the
/// batch date alone — two successful generations over equal input are
/// byte-identical.
pub proof fn lemma_deterministic_output(a: Seq<Work>, b: Seq<Work>, d1: Date, d2: Date)
    requires
        a == b,
        d1 == d2,
    ensures
        crate::xml_writer::spec_xml_doc(spec_message(a, d1)) == crate::xml_writer::spec_xml_doc(
            spec_message(b, d2),
        ),
{
}

} // verus!

