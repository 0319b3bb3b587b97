//! The markup side of extraction. scraper parses the document and reads
//! the raw container texts and link targets; each of those reads is a pure
//! function of the markup (the selectors are fixed) and carries a name, so
//! `extract`'s contract pins its result as the extraction policy applied
//! to the named scan. Everything after the reads — choosing the first
//! "http"-prefixed link, capping at ten containers, sanitising and
//! discarding — is verified.
use vstd::prelude::*;

use crate::query::views_of_strings;
use crate::record::{
    extract_records, extracted, lemma_no_containers_no_records, lemma_records_well_formed,
    opt_view, raw_views, result_views, RawFields, RawView, SearchResult,
};
use crate::text::{has_http_prefix, http_prefixed};

verus! {

/// The outer markup of each result container of the document, in document
/// order: what scraper's scan for the fixed container pattern returns.
pub uninterp spec fn containers_of(markup: Seq<char>) -> Seq<Seq<char>>;

/// The concatenated text of the first node of a container's markup that
/// matches the given selector, or `None` when nothing matches (or the
/// selector text is no well-formed selector group).
pub uninterp spec fn selected_text(part: Seq<char>, sel: Seq<char>) -> Option<Seq<char>>;

/// The target of every descendant link of a container's markup that
/// carries one, in document order.
pub uninterp spec fn hrefs_of(part: Seq<char>) -> Seq<Seq<char>>;

/// Relies on scraper's Html::parse_document (tolerant, never a hard
/// failure), Selector::parse and select: the outer HTML of each node
/// matching the fixed result-container pattern, in document order. The
/// fixed selector group is well-formed, so its parse cannot fail.
#[verifier::external_body]
fn snippet_htmls(markup: &str) -> (r: Vec<String>)
    ensures
        views_of_strings(r@) == containers_of(markup@),
{
    let doc = scraper::Html::parse_document(markup);
    let sel = scraper::Selector::parse("div.snippet").unwrap();
    doc.select(&sel).map(|c| c.html()).collect()
}

/// Relies on scraper's Html::parse_fragment, Selector::parse, select and
/// ElementRef::text: the text of the first match of the selector in the
/// container's markup; `None` when nothing matches or the selector text
/// does not parse (no panic path).
#[verifier::external_body]
fn role_text(part: &str, sel: &str) -> (r: Option<String>)
    ensures
        opt_view(r) == selected_text(part@, sel@),
{
    let doc = scraper::Html::parse_fragment(part);
    match scraper::Selector::parse(sel) {
        Ok(s) => doc.select(&s).next().map(|e| e.text().collect()),
        Err(_) => None,
    }
}

/// Relies on scraper's Html::parse_fragment, Selector::parse, select and
/// ElementRef::attr: the `href` of every descendant link of the
/// container's markup that has one, in document order. The fixed link
/// selector group is well-formed, so its parse cannot fail. No test on
/// the targets happens here: the "http" guard is verified in the caller.
#[verifier::external_body]
fn link_hrefs(part: &str) -> (r: Vec<String>)
    ensures
        views_of_strings(r@) == hrefs_of(part@),
{
    let doc = scraper::Html::parse_fragment(part);
    let sel = scraper::Selector::parse("a.heading-serpresult, a[href]").unwrap();
    doc.select(&sel).filter_map(|e| e.attr("href")).map(String::from).collect()
}

/// What the scan reads from one container's markup: the first title-role
/// text, every link target, the first url-role text and the first
/// snippet-role text.
pub ghost struct ScanView {
    pub title: Option<Seq<char>>,
    pub hrefs: Seq<Seq<char>>,
    pub display_url: Option<Seq<char>>,
    pub description: Option<Seq<char>>,
}

/// The scan of one container's markup, assembled from the named reads.
pub open spec fn scan_of(part: Seq<char>) -> ScanView {
    ScanView {
        title: selected_text(part, ".title"@),
        hrefs: hrefs_of(part),
        display_url: selected_text(part, ".snippet-url"@),
        description: selected_text(part, ".snippet-description, .generic-snippet"@),
    }
}

/// The scan of the whole document: one entry per result container, in
/// document order. A function of the markup alone, since the selector
/// patterns are fixed.
pub open spec fn scraped(markup: Seq<char>) -> Seq<ScanView> {
    containers_of(markup).map_values(|p: Seq<char>| scan_of(p))
}

/// The first entry of `hrefs` that begins with "http", if any: the guard
/// that keeps relative and tracking links out of the results.
pub open spec fn first_http_href(hrefs: Seq<Seq<char>>) -> Option<Seq<char>>
    decreases hrefs.len(),
{
    if hrefs.len() == 0 {
        None
    } else if http_prefixed(hrefs.first()) {
        Some(hrefs.first())
    } else {
        first_http_href(hrefs.drop_first())
    }
}

/// A chosen href always begins with "http".
pub proof fn lemma_first_http_href_prefixed(hrefs: Seq<Seq<char>>)
    ensures
        first_http_href(hrefs) matches Some(u) ==> http_prefixed(u),
    decreases hrefs.len(),
{
    if hrefs.len() > 0 && !http_prefixed(hrefs.first()) {
        lemma_first_http_href_prefixed(hrefs.drop_first());
    }
}

/// The raw fields a scanned container hands to the record rules: its
/// texts as they stand, and as URL the target of the container's first
/// descendant link that begins with "http".
pub open spec fn fields_of_scan(c: ScanView) -> RawView {
    RawView {
        title: c.title,
        url: first_http_href(c.hrefs),
        display_url: c.display_url,
        description: c.description,
    }
}

/// The raw fields of every scanned container, in document order.
pub open spec fn fields_of(cs: Seq<ScanView>) -> Seq<RawView> {
    cs.map_values(|c: ScanView| fields_of_scan(c))
}

/// Read one container's raw fields from its markup: pick the first
/// "http"-prefixed link target as the URL and pass the texts through.
fn container_fields(part: &str) -> (r: RawFields)
    ensures
        r@ == fields_of_scan(scan_of(part@)),
{
    let title = role_text(part, ".title");
    let hrefs = link_hrefs(part);
    let mut url: Option<String> = None;
    let mut i: usize = 0;
    proof {
        assert(hrefs_of(part@).subrange(0, hrefs_of(part@).len() as int) =~= hrefs_of(part@));
    }
    while url.is_none() && i < hrefs.len()
        invariant
            0 <= i <= hrefs@.len(),
            views_of_strings(hrefs@) == hrefs_of(part@),
            url is None ==> first_http_href(hrefs_of(part@)) == first_http_href(
                hrefs_of(part@).subrange(i as int, hrefs_of(part@).len() as int),
            ),
            url matches Some(u) ==> first_http_href(hrefs_of(part@)) == Some(u@),
        decreases hrefs@.len() - i,
    {
        proof {
            let hv = hrefs_of(part@);
            let sub = hv.subrange(i as int, hv.len() as int);
            assert(sub.first() == hv[i as int]);
            assert(hv[i as int] == hrefs@[i as int]@);
            assert(sub.drop_first() =~= hv.subrange(i as int + 1, hv.len() as int));
        }
        if has_http_prefix(hrefs[i].as_str()) {
            url = Some(hrefs[i].clone());
        }
        i += 1;
    }
    proof {
        if url is None {
            let hv = hrefs_of(part@);
            assert(hv.subrange(i as int, hv.len() as int).len() == 0);
            assert(first_http_href(hv) is None);
        }
    }
    let display_url = role_text(part, ".snippet-url");
    let description = role_text(part, ".snippet-description, .generic-snippet");
    RawFields { title, url, display_url, description }
}

/// Extract the search results from raw markup: scraper scans the result
/// containers; then, verified, each container's first "http"-prefixed
/// link becomes its URL, the first ten containers in document order are
/// kept, and the record rules sanitise and discard. The result is exactly
/// the extraction policy applied to the named scan of the markup; markup
/// without matches yields an empty vector, never an error.
pub fn extract(markup: &str) -> (r: Vec<SearchResult>)
    ensures
        result_views(r@) == extracted(fields_of(scraped(markup@))),
        r@.len() <= 10,
        forall|j: int|
            0 <= j < r@.len() ==> {
                let rv = (#[trigger] r@[j])@;
                rv.title.len() > 0 && rv.url.len() > 0 && http_prefixed(rv.url)
            },
{
    let parts = snippet_htmls(markup);
    let ghost sv = scraped(markup@);
    let mut raw: Vec<RawFields> = Vec::new();
    let mut i: usize = 0;
    while i < parts.len()
        invariant
            0 <= i <= parts@.len(),
            views_of_strings(parts@) == containers_of(markup@),
            sv == scraped(markup@),
            raw@.len() == i,
            raw_views(raw@) == fields_of(sv).take(i as int),
        decreases parts@.len() - i,
    {
        let f = container_fields(parts[i].as_str());
        proof {
            assert(containers_of(markup@)[i as int] == parts@[i as int]@);
            assert(sv[i as int] == scan_of(parts@[i as int]@));
            assert(fields_of(sv)[i as int] == fields_of_scan(sv[i as int]));
            assert(raw_views(raw@.push(f)) =~= raw_views(raw@).push(f@));
            assert(fields_of(sv).take(i as int + 1) =~= fields_of(sv).take(i as int).push(
                fields_of(sv)[i as int],
            ));
        }
        raw.push(f);
        i += 1;
    }
    proof {
        assert(raw_views(raw@) =~= fields_of(sv));
    }
    let records = extract_records(&raw);
    proof {
        assert forall|j: int|
            0 <= j < fields_of(sv).len() implies ((#[trigger] fields_of(sv)[j]).url matches Some(u)
            ==> http_prefixed(u)) by {
            assert(fields_of(sv)[j] == fields_of_scan(sv[j]));
            lemma_first_http_href_prefixed(sv[j].hrefs);
        }
        lemma_records_well_formed(fields_of(sv));
        assert forall|j: int| 0 <= j < records@.len() implies {
            let rv = (#[trigger] records@[j])@;
            rv.title.len() > 0 && rv.url.len() > 0 && http_prefixed(rv.url)
        } by {
            assert(result_views(records@)[j] == records@[j]@);
        }
    }
    records
}

/// Law: markup whose scan finds no result container yields no records.
pub proof fn lemma_empty_scan_no_records(markup: Seq<char>)
    requires
        containers_of(markup).len() == 0,
    ensures
        extracted(fields_of(scraped(markup))).len() == 0,
{
    lemma_no_containers_no_records(fields_of(scraped(markup)));
}

} // verus!
