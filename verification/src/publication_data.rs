//! What the ONIX walks read off a work's records: the record
//! reference built from the work's identifier, the ISBN preference
//! rule shared by both dialects, the canonical full-text URLs, and
//! the USD price of a format.

use vstd::prelude::*;
use crate::client::{
    CurrencyCode, PublicationType, WorkPublications, WorkPublicationsLocations,
    WorkPublicationsPrices,
};
use crate::text::{ascii_lower, spec_lower, spec_no_hyphens, without_hyphens};

verus! {

/// The record reference of a work: a URN over the lower-cased
/// identifier.
pub open spec fn spec_record_reference(work_id: Seq<char>) -> Seq<char> {
    "urn:uuid:"@ + spec_lower(work_id)
}

/// Builds the record reference of a work.
pub fn record_reference(work_id: &str) -> (r: String)
    ensures
        r@ == spec_record_reference(work_id@),
{
    let mut s = String::from_str("urn:uuid:");
    let lower = ascii_lower(work_id);
    s.append(lower.as_str());
    s
}

/// The hyphen-stripped ISBN of a publication, where it has one.
pub open spec fn spec_pub_isbn(p: WorkPublications) -> Option<Seq<char>> {
    match p.isbn {
        Option::Some(i) => Option::Some(spec_no_hyphens(i@)),
        Option::None => Option::None,
    }
}

/// Every hyphen-stripped ISBN of the list, in publication order.
pub open spec fn spec_isbns(pubs: Seq<WorkPublications>) -> Seq<Seq<char>>
    decreases pubs.len(),
{
    if pubs.len() == 0 {
        Seq::empty()
    } else {
        spec_isbns(pubs.drop_last()) + (match spec_pub_isbn(pubs.last()) {
            Option::Some(i) => seq![i],
            Option::None => Seq::empty(),
        })
    }
}

/// One step of the main-ISBN fold: a PDF's ISBN always takes the slot,
/// a paperback's only while the slot is empty.
pub open spec fn spec_main_isbn_step(acc: Seq<char>, p: WorkPublications) -> Seq<char> {
    match spec_pub_isbn(p) {
        Option::Some(i) => {
            if p.publication_type is PDF {
                i
            } else if p.publication_type is PAPERBACK && acc.len() == 0 {
                i
            } else {
                acc
            }
        },
        Option::None => acc,
    }
}

/// The main-ISBN fold over a list, left to right, from `acc`.
pub open spec fn spec_main_isbn_from(acc: Seq<char>, pubs: Seq<WorkPublications>) -> Seq<char>
    decreases pubs.len(),
{
    if pubs.len() == 0 {
        acc
    } else {
        spec_main_isbn_from(spec_main_isbn_step(acc, pubs.first()), pubs.drop_first())
    }
}

/// The main ISBN of a publication set: the last PDF ISBN if any PDF
/// carries one, else the first paperback ISBN, else empty.
pub open spec fn spec_main_isbn(pubs: Seq<WorkPublications>) -> Seq<char> {
    spec_main_isbn_from(Seq::empty(), pubs)
}

/// Walks the publications once, collecting the main ISBN and the list
/// of all ISBNs with hyphens stripped.
pub fn get_publications_data(publications: &Vec<WorkPublications>) -> (r: (String, Vec<String>))
    ensures
        r.0@ == spec_main_isbn(publications@),
        r.1@.map_values(|s: String| s@) == spec_isbns(publications@),
{
    let mut main_isbn = String::new();
    let mut isbns: Vec<String> = Vec::new();
    let mut i: usize = 0;
    proof {
        assert(publications@.skip(0) =~= publications@);
    }
    while i < publications.len()
        invariant
            i <= publications@.len(),
            spec_main_isbn_from(main_isbn@, publications@.skip(i as int)) == spec_main_isbn(
                publications@,
            ),
            isbns@.map_values(|s: String| s@) == spec_isbns(publications@.subrange(0, i as int)),
        decreases publications@.len() - i,
    {
        let ghost rest = publications@.skip(i as int);
        let ghost main_before = main_isbn@;
        proof {
            assert(rest.len() > 0);
            assert(rest.first() == publications@[i as int]);
            assert(rest.drop_first() =~= publications@.skip(i + 1 as int));
            assert(publications@.subrange(0, i + 1 as int).drop_last() =~= publications@.subrange(
                0,
                i as int,
            ));
            assert(publications@.subrange(0, i + 1 as int).last() == publications@[i as int]);
        }
        let p = &publications[i];
        match &p.isbn {
            Option::Some(isbn) => {
                let stripped = without_hyphens(isbn.to_str());
                let ghost before = isbns@;
                isbns.push(stripped.clone());
                proof {
                    crate::seq_util::lemma_map_values_push(before, |s: String| s@, isbns@.last());
                    assert(isbns@.map_values(|s: String| s@) =~= spec_isbns(
                        publications@.subrange(0, i + 1 as int),
                    ));
                }
                let is_pdf = match &p.publication_type {
                    PublicationType::PDF => true,
                    _ => false,
                };
                let is_paperback = match &p.publication_type {
                    PublicationType::PAPERBACK => true,
                    _ => false,
                };
                if is_pdf {
                    main_isbn = stripped;
                } else if is_paperback && main_isbn.as_str().unicode_len() == 0 {
                    main_isbn = stripped;
                }
                proof {
                    assert(main_isbn@ == spec_main_isbn_step(main_before, publications@[i as int]));
                }
            },
            Option::None => {
                proof {
                    assert(isbns@.map_values(|s: String| s@) =~= spec_isbns(
                        publications@.subrange(0, i + 1 as int),
                    ));
                    assert(main_isbn@ == spec_main_isbn_step(main_before, publications@[i as int]));
                }
            },
        }
        i = i + 1;
    }
    proof {
        assert(publications@.skip(publications@.len() as int) =~= Seq::<WorkPublications>::empty());
        assert(publications@.subrange(0, publications@.len() as int) =~= publications@);
    }
    (main_isbn, isbns)
}

/// Whether a publication's format is the format asked for; catch-all
/// values never match.
pub open spec fn spec_same_pub_type(a: PublicationType, b: PublicationType) -> bool {
    match (a, b) {
        (PublicationType::PAPERBACK, PublicationType::PAPERBACK) => true,
        (PublicationType::HARDBACK, PublicationType::HARDBACK) => true,
        (PublicationType::PDF, PublicationType::PDF) => true,
        (PublicationType::HTML, PublicationType::HTML) => true,
        (PublicationType::XML, PublicationType::XML) => true,
        (PublicationType::EPUB, PublicationType::EPUB) => true,
        (PublicationType::MOBI, PublicationType::MOBI) => true,
        _ => false,
    }
}

fn same_pub_type(a: &PublicationType, b: &PublicationType) -> (r: bool)
    ensures
        r == spec_same_pub_type(*a, *b),
{
    match (a, b) {
        (PublicationType::PAPERBACK, PublicationType::PAPERBACK) => true,
        (PublicationType::HARDBACK, PublicationType::HARDBACK) => true,
        (PublicationType::PDF, PublicationType::PDF) => true,
        (PublicationType::HTML, PublicationType::HTML) => true,
        (PublicationType::XML, PublicationType::XML) => true,
        (PublicationType::EPUB, PublicationType::EPUB) => true,
        (PublicationType::MOBI, PublicationType::MOBI) => true,
        _ => false,
    }
}

/// The first canonical location of a list.
pub open spec fn spec_first_canonical(locs: Seq<WorkPublicationsLocations>) -> Option<
    WorkPublicationsLocations,
>
    decreases locs.len(),
{
    if locs.len() == 0 {
        Option::None
    } else if locs.first().canonical {
        Option::Some(locs.first())
    } else {
        spec_first_canonical(locs.drop_first())
    }
}

/// The full-text URL of a publication's canonical location, where the
/// location and its URL are present.
pub open spec fn spec_pub_canonical_url(p: WorkPublications) -> Option<Seq<char>> {
    match spec_first_canonical(p.locations@) {
        Option::Some(l) => match l.full_text_url {
            Option::Some(u) => Option::Some(u@),
            Option::None => Option::None,
        },
        Option::None => Option::None,
    }
}

/// The canonical full-text URL of the given format: every publication
/// of the format is considered, and the first one whose canonical
/// location carries a full-text URL supplies it.
pub open spec fn spec_canonical_fulltext(pubs: Seq<WorkPublications>, t: PublicationType) -> Option<
    Seq<char>,
>
    decreases pubs.len(),
{
    if pubs.len() == 0 {
        Option::None
    } else if spec_same_pub_type(pubs.first().publication_type, t) && spec_pub_canonical_url(
        pubs.first(),
    ) is Some {
        spec_pub_canonical_url(pubs.first())
    } else {
        spec_canonical_fulltext(pubs.drop_first(), t)
    }
}

/// The view of an optional string.
pub open spec fn spec_opt_view(o: Option<String>) -> Option<Seq<char>> {
    match o {
        Option::Some(s) => Option::Some(s@),
        Option::None => Option::None,
    }
}

fn first_canonical_url(locs: &Vec<WorkPublicationsLocations>) -> (r: Option<String>)
    ensures
        spec_opt_view(r) == (match spec_first_canonical(locs@) {
            Option::Some(l) => match l.full_text_url {
                Option::Some(u) => Option::Some(u@),
                Option::None => Option::None,
            },
            Option::None => Option::None,
        }),
        r is Some <==> (match spec_first_canonical(locs@) {
            Option::Some(l) => l.full_text_url is Some,
            Option::None => false,
        }),
{
    let mut i: usize = 0;
    proof {
        assert(locs@.skip(0) =~= locs@);
    }
    while i < locs.len()
        invariant
            i <= locs@.len(),
            spec_first_canonical(locs@.skip(i as int)) == spec_first_canonical(locs@),
        decreases locs@.len() - i,
    {
        proof {
            assert(locs@.skip(i as int).first() == locs@[i as int]);
            assert(locs@.skip(i as int).drop_first() =~= locs@.skip(i + 1 as int));
        }
        if locs[i].canonical {
            return match &locs[i].full_text_url {
                Option::Some(u) => Option::Some(u.clone()),
                Option::None => Option::None,
            };
        }
        i = i + 1;
    }
    proof {
        assert(locs@.skip(locs@.len() as int) =~= Seq::<WorkPublicationsLocations>::empty());
    }
    Option::None
}

/// The canonical full-text URL for the given format, as the
/// eligibility gate and the website list read it.
pub fn canonical_fulltext(pubs: &Vec<WorkPublications>, t: &PublicationType) -> (r: Option<String>)
    ensures
        spec_opt_view(r) == spec_canonical_fulltext(pubs@, *t),
{
    let mut i: usize = 0;
    proof {
        assert(pubs@.skip(0) =~= pubs@);
    }
    while i < pubs.len()
        invariant
            i <= pubs@.len(),
            spec_canonical_fulltext(pubs@.skip(i as int), *t) == spec_canonical_fulltext(
                pubs@,
                *t,
            ),
        decreases pubs@.len() - i,
    {
        proof {
            assert(pubs@.skip(i as int).first() == pubs@[i as int]);
            assert(pubs@.skip(i as int).drop_first() =~= pubs@.skip(i + 1 as int));
        }
        if same_pub_type(&pubs[i].publication_type, t) {
            let url = first_canonical_url(&pubs[i].locations);
            if url.is_some() {
                return url;
            }
        }
        i = i + 1;
    }
    proof {
        assert(pubs@.skip(pubs@.len() as int) =~= Seq::<WorkPublications>::empty());
    }
    Option::None
}

/// The first publication of the given format, located or not.
pub open spec fn spec_first_of_type(pubs: Seq<WorkPublications>, t: PublicationType) -> Option<
    WorkPublications,
>
    decreases pubs.len(),
{
    if pubs.len() == 0 {
        Option::None
    } else if spec_same_pub_type(pubs.first().publication_type, t) {
        Option::Some(pubs.first())
    } else {
        spec_first_of_type(pubs.drop_first(), t)
    }
}

/// The first USD price of a list, in minor units.
pub open spec fn spec_first_usd(prices: Seq<WorkPublicationsPrices>) -> Option<u64>
    decreases prices.len(),
{
    if prices.len() == 0 {
        Option::None
    } else if prices.first().currency_code is USD {
        Option::Some(prices.first().unit_price)
    } else {
        spec_first_usd(prices.drop_first())
    }
}

/// The USD price of the first publication of the given format, in
/// minor units; zero where the format or its USD price is absent.
pub open spec fn spec_usd_cents(pubs: Seq<WorkPublications>, t: PublicationType) -> u64 {
    match spec_first_of_type(pubs, t) {
        Option::Some(p) => match spec_first_usd(p.prices@) {
            Option::Some(c) => c,
            Option::None => 0,
        },
        Option::None => 0,
    }
}

fn first_usd(prices: &Vec<WorkPublicationsPrices>) -> (r: u64)
    ensures
        r == (match spec_first_usd(prices@) {
            Option::Some(c) => c,
            Option::None => 0u64,
        }),
{
    let mut i: usize = 0;
    proof {
        assert(prices@.skip(0) =~= prices@);
    }
    while i < prices.len()
        invariant
            i <= prices@.len(),
            spec_first_usd(prices@.skip(i as int)) == spec_first_usd(prices@),
        decreases prices@.len() - i,
    {
        proof {
            assert(prices@.skip(i as int).first() == prices@[i as int]);
            assert(prices@.skip(i as int).drop_first() =~= prices@.skip(i + 1 as int));
        }
        let is_usd = match &prices[i].currency_code {
            CurrencyCode::USD => true,
            _ => false,
        };
        if is_usd {
            return prices[i].unit_price;
        }
        i = i + 1;
    }
    proof {
        assert(prices@.skip(prices@.len() as int) =~= Seq::<WorkPublicationsPrices>::empty());
    }
    0
}

/// The USD price of the first publication of the given format.
pub fn usd_cents(pubs: &Vec<WorkPublications>, t: &PublicationType) -> (r: u64)
    ensures
        r == spec_usd_cents(pubs@, *t),
{
    let mut i: usize = 0;
    proof {
        assert(pubs@.skip(0) =~= pubs@);
    }
    while i < pubs.len()
        invariant
            i <= pubs@.len(),
            spec_first_of_type(pubs@.skip(i as int), *t) == spec_first_of_type(pubs@, *t),
        decreases pubs@.len() - i,
    {
        proof {
            assert(pubs@.skip(i as int).first() == pubs@[i as int]);
            assert(pubs@.skip(i as int).drop_first() =~= pubs@.skip(i + 1 as int));
        }
        if same_pub_type(&pubs[i].publication_type, t) {
            return first_usd(&pubs[i].prices);
        }
        i = i + 1;
    }
    proof {
        assert(pubs@.skip(pubs@.len() as int) =~= Seq::<WorkPublications>::empty());
    }
    0
}

/// The hyphen-stripped ISBN of the last PDF publication that carries
/// one.
pub open spec fn spec_last_pdf_isbn(pubs: Seq<WorkPublications>) -> Option<Seq<char>>
    decreases pubs.len(),
{
    if pubs.len() == 0 {
        Option::None
    } else {
        let tail = spec_last_pdf_isbn(pubs.drop_first());
        if tail is Some {
            tail
        } else if pubs.first().publication_type is PDF && pubs.first().isbn is Some {
            spec_pub_isbn(pubs.first())
        } else {
            Option::None
        }
    }
}

/// The hyphen-stripped ISBN of the first paperback publication that
/// carries one.
pub open spec fn spec_first_paperback_isbn(pubs: Seq<WorkPublications>) -> Option<Seq<char>>
    decreases pubs.len(),
{
    if pubs.len() == 0 {
        Option::None
    } else if pubs.first().publication_type is PAPERBACK && pubs.first().isbn is Some {
        spec_pub_isbn(pubs.first())
    } else {
        spec_first_paperback_isbn(pubs.drop_first())
    }
}

proof fn lemma_main_isbn_fold(acc: Seq<char>, pubs: Seq<WorkPublications>)
    requires
        forall|i: int| 0 <= i < pubs.len() ==> (#[trigger] pubs[i]).wf(),
    ensures
        spec_main_isbn_from(acc, pubs) == (match spec_last_pdf_isbn(pubs) {
            Option::Some(i) => i,
            Option::None => match spec_first_paperback_isbn(pubs) {
                Option::Some(i) => if acc.len() == 0 {
                    i
                } else {
                    acc
                },
                Option::None => acc,
            },
        }),
    decreases pubs.len(),
{
    if pubs.len() > 0 {
        let p = pubs.first();
        assert(pubs[0].wf());
        let rest = pubs.drop_first();
        assert(forall|i: int| 0 <= i < rest.len() ==> (#[trigger] rest[i]).wf()) by {
            assert(forall|i: int|
                0 <= i < rest.len() ==> rest[i] == pubs[i + 1] && (#[trigger] pubs[i + 1]).wf());
        }
        lemma_main_isbn_fold(spec_main_isbn_step(acc, p), rest);
    }
}

/// Law: the ISBN preference of both ONIX dialects.  Among all
/// publications, a PDF's ISBN wins (the last one, since each PDF
/// overwrites the slot); with no PDF ISBN anywhere, the first
/// paperback's ISBN is used; with neither, the main ISBN is empty.
/// In particular, a set holding both a PDF and a paperback ISBN
/// reports the PDF's, hyphens stripped.
pub proof fn lemma_main_isbn_preference(pubs: Seq<WorkPublications>)
    requires
        forall|i: int| 0 <= i < pubs.len() ==> (#[trigger] pubs[i]).wf(),
    ensures
        spec_last_pdf_isbn(pubs) matches Option::Some(i) ==> spec_main_isbn(pubs) == i,
        (match spec_first_paperback_isbn(pubs) {
            Option::Some(i) => spec_last_pdf_isbn(pubs) is None ==> spec_main_isbn(pubs) == i,
            Option::None => true,
        }),
        (spec_last_pdf_isbn(pubs) is None && spec_first_paperback_isbn(pubs) is None)
            ==> spec_main_isbn(pubs) == Seq::<char>::empty(),
{
    lemma_main_isbn_fold(Seq::empty(), pubs);
}

} // verus!
