//! Search-result records: the per-container field set pulled out of the
//! markup, the rules that turn it into a record or discard it, and the
//! capped extraction over a whole sequence of containers.
use vstd::prelude::*;

use crate::text::{
    display_url_of, http_prefixed, normalize_display_url, sanitize_display, sanitized,
};

verus! {

/// One extracted search hit. Every record surviving extraction has a
/// non-empty title and a non-empty URL that begins with "http".
pub struct SearchResult {
    pub title: String,
    pub url: String,
    pub display_url: String,
    pub description: String,
}

/// The mathematical value of a `SearchResult`: its four fields as
/// character sequences.
pub ghost struct ResultView {
    pub title: Seq<char>,
    pub url: Seq<char>,
    pub display_url: Seq<char>,
    pub description: Seq<char>,
}

impl View for SearchResult {
    type V = ResultView;

    open spec fn view(&self) -> ResultView {
        ResultView {
            title: self.title@,
            url: self.url@,
            display_url: self.display_url@,
            description: self.description@,
        }
    }
}

/// The raw texts found in one result container, before sanitation: each
/// field is `None` where no sub-node of that role was found (for the URL,
/// where no descendant link with an "http"-prefixed target was found).
pub struct RawFields {
    pub title: Option<String>,
    pub url: Option<String>,
    pub display_url: Option<String>,
    pub description: Option<String>,
}

/// The mathematical value of a `RawFields`.
pub ghost struct RawView {
    pub title: Option<Seq<char>>,
    pub url: Option<Seq<char>>,
    pub display_url: Option<Seq<char>>,
    pub description: Option<Seq<char>>,
}

/// The view of an optional string.
pub open spec fn opt_view(o: Option<String>) -> Option<Seq<char>> {
    match o {
        Some(s) => Some(s@),
        None => None,
    }
}

impl View for RawFields {
    type V = RawView;

    open spec fn view(&self) -> RawView {
        RawView {
            title: opt_view(self.title),
            url: opt_view(self.url),
            display_url: opt_view(self.display_url),
            description: opt_view(self.description),
        }
    }
}

/// A missing field defaults to the empty text.
pub open spec fn opt_or_empty(o: Option<Seq<char>>) -> Seq<char> {
    match o {
        Some(s) => s,
        None => Seq::empty(),
    }
}

/// The record a container yields: title and description sanitized, the
/// display URL normalised; `None` (the container is discarded) exactly
/// when title or URL come out empty.
pub open spec fn record_of(f: RawView) -> Option<ResultView> {
    let title = sanitized(opt_or_empty(f.title));
    let url = opt_or_empty(f.url);
    let display_url = display_url_of(opt_or_empty(f.display_url));
    let description = sanitized(opt_or_empty(f.description));
    if title.len() > 0 && url.len() > 0 {
        Some(ResultView { title, url, display_url, description })
    } else {
        None
    }
}

/// The view of an optional record.
pub open spec fn opt_record_view(r: Option<SearchResult>) -> Option<ResultView> {
    match r {
        Some(rec) => Some(rec@),
        None => None,
    }
}

/// The views of a sequence of raw field sets.
pub open spec fn raw_views(rs: Seq<RawFields>) -> Seq<RawView> {
    rs.map_values(|f: RawFields| f@)
}

/// The views of a sequence of records.
pub open spec fn result_views(rs: Seq<SearchResult>) -> Seq<ResultView> {
    rs.map_values(|r: SearchResult| r@)
}

/// The records of the containers from position `i` on, in order, with the
/// discarded ones left out.
pub open spec fn extracted_from(rs: Seq<RawView>, i: int) -> Seq<ResultView>
    decreases rs.len() - i,
{
    if i < 0 || i >= rs.len() {
        Seq::empty()
    } else {
        match record_of(rs[i]) {
            Some(r) => seq![r] + extracted_from(rs, i + 1),
            None => extracted_from(rs, i + 1),
        }
    }
}

/// The first ten containers in document order; the remainder is ignored.
pub open spec fn capped(rs: Seq<RawView>) -> Seq<RawView> {
    if rs.len() <= 10 {
        rs
    } else {
        rs.take(10)
    }
}

/// The full extraction policy over raw container fields: cap at ten
/// containers, build each record, drop the discarded ones, keep the order.
pub open spec fn extracted(rs: Seq<RawView>) -> Seq<ResultView> {
    extracted_from(capped(rs), 0)
}

/// Build the record of one container, or discard it: title and
/// description are sanitized, the display URL is normalised, and the
/// container is dropped exactly when title or URL end up empty.
pub fn make_record(f: &RawFields) -> (r: Option<SearchResult>)
    ensures
        opt_record_view(r) == record_of(f@),
{
    let title = match &f.title {
        Some(s) => sanitize_display(s.as_str()),
        None => String::new(),
    };
    let url = match &f.url {
        Some(s) => s.clone(),
        None => String::new(),
    };
    let display_url = match &f.display_url {
        Some(s) => normalize_display_url(s.as_str()),
        None => String::new(),
    };
    let description = match &f.description {
        Some(s) => sanitize_display(s.as_str()),
        None => String::new(),
    };
    if title.as_str().is_empty() || url.as_str().is_empty() {
        None
    } else {
        Some(SearchResult { title, url, display_url, description })
    }
}

/// Turn the raw fields of the containers, in document order, into the
/// final records: at most the first ten containers are considered, and
/// discarded containers leave no record.
pub fn extract_records(raw: &Vec<RawFields>) -> (r: Vec<SearchResult>)
    ensures
        result_views(r@) == extracted(raw_views(raw@)),
        r@.len() <= 10,
{
    let n: usize = if raw.len() < 10 {
        raw.len()
    } else {
        10
    };
    proof {
        assert(capped(raw_views(raw@)) =~= raw_views(raw@).take(n as int));
    }
    let ghost cv = capped(raw_views(raw@));
    let mut out: Vec<SearchResult> = Vec::new();
    let mut i: usize = 0;
    while i < n
        invariant
            0 <= i <= n <= raw@.len(),
            n <= 10,
            cv == capped(raw_views(raw@)),
            cv.len() == n,
            out@.len() <= i,
            result_views(out@) + extracted_from(cv, i as int) == extracted_from(cv, 0),
        decreases n - i,
    {
        proof {
            assert(cv[i as int] == raw@[i as int]@);
        }
        let rec = make_record(&raw[i]);
        match rec {
            Some(record) => {
                proof {
                    let rv = record_of(cv[i as int]);
                    assert(extracted_from(cv, i as int) == seq![rv->0] + extracted_from(
                        cv,
                        i as int + 1,
                    ));
                    assert(result_views(out@.push(record)) =~= result_views(out@).push(record@));
                    assert(result_views(out@).push(record@) + extracted_from(cv, i as int + 1)
                        =~= result_views(out@) + extracted_from(cv, i as int));
                }
                out.push(record);
            },
            None => {
                proof {
                    assert(extracted_from(cv, i as int) == extracted_from(cv, i as int + 1));
                }
            },
        }
        i += 1;
    }
    proof {
        assert(extracted_from(cv, n as int) =~= Seq::<ResultView>::empty());
        assert(result_views(out@) + Seq::<ResultView>::empty() =~= result_views(out@));
    }
    out
}

/// Law: with no matching container there is no record — extraction of an
/// empty container sequence yields the empty record sequence.
pub proof fn lemma_no_containers_no_records(rs: Seq<RawView>)
    requires
        rs.len() == 0,
    ensures
        extracted(rs).len() == 0,
{
    assert(extracted_from(capped(rs), 0) =~= Seq::<ResultView>::empty());
}

proof fn lemma_extracted_from_all_kept(rs: Seq<RawView>, i: int)
    requires
        0 <= i <= rs.len(),
        forall|j: int| i <= j < rs.len() ==> record_of(#[trigger] rs[j]) is Some,
    ensures
        extracted_from(rs, i).len() == rs.len() - i,
        forall|j: int|
            i <= j < rs.len() ==> #[trigger] extracted_from(rs, i)[j - i] == record_of(rs[j])->0,
    decreases rs.len() - i,
{
    if i < rs.len() {
        lemma_extracted_from_all_kept(rs, i + 1);
        let head = record_of(rs[i])->0;
        let rest = extracted_from(rs, i + 1);
        assert(extracted_from(rs, i) == seq![head] + rest);
        assert forall|j: int| i <= j < rs.len() implies #[trigger] extracted_from(rs, i)[j - i]
            == record_of(rs[j])->0 by {
            if j == i {
                assert((seq![head] + rest)[0] == head);
            } else {
                assert((seq![head] + rest)[j - i] == rest[j - (i + 1)]);
            }
        }
    }
}

/// Law: when the first ten containers all qualify, extraction returns
/// exactly those ten records, in document order; any further container
/// leaves no trace.
pub proof fn lemma_first_ten(rs: Seq<RawView>)
    requires
        rs.len() >= 10,
        forall|i: int| 0 <= i < 10 ==> record_of(#[trigger] rs[i]) is Some,
    ensures
        extracted(rs).len() == 10,
        forall|i: int| 0 <= i < 10 ==> #[trigger] extracted(rs)[i] == record_of(rs[i])->0,
{
    let c = capped(rs);
    assert(c =~= rs.take(10));
    assert(forall|i: int| 0 <= i < 10 ==> #[trigger] c[i] == rs[i]);
    lemma_extracted_from_all_kept(c, 0);
    assert forall|i: int| 0 <= i < 10 implies #[trigger] extracted(rs)[i] == record_of(rs[i])->0 by {
        assert(extracted_from(c, 0)[i - 0] == record_of(c[i])->0);
    }
}

proof fn lemma_extracted_from_well_formed(rs: Seq<RawView>, i: int)
    requires
        0 <= i,
        forall|j: int|
            0 <= j < rs.len() ==> ((#[trigger] rs[j]).url matches Some(u) ==> http_prefixed(u)),
    ensures
        forall|k: int|
            0 <= k < extracted_from(rs, i).len() ==> {
                let r = #[trigger] extracted_from(rs, i)[k];
                r.title.len() > 0 && r.url.len() > 0 && http_prefixed(r.url)
            },
    decreases rs.len() - i,
{
    if i < rs.len() {
        lemma_extracted_from_well_formed(rs, i + 1);
        let rest = extracted_from(rs, i + 1);
        match record_of(rs[i]) {
            Some(head) => {
                assert(extracted_from(rs, i) == seq![head] + rest);
                assert(head.url == opt_or_empty(rs[i].url));
                assert(head.url.len() > 0);
                assert(rs[i].url matches Some(u) && u == head.url);
                assert forall|k: int| 0 <= k < extracted_from(rs, i).len() implies {
                    let r = #[trigger] extracted_from(rs, i)[k];
                    r.title.len() > 0 && r.url.len() > 0 && http_prefixed(r.url)
                } by {
                    if k == 0 {
                        assert((seq![head] + rest)[0] == head);
                    } else {
                        assert((seq![head] + rest)[k] == rest[k - 1]);
                    }
                }
            },
            None => {
                assert(extracted_from(rs, i) == rest);
            },
        }
    }
}

/// Law: every extracted record has a non-empty title and a non-empty URL
/// that begins with "http", as long as every candidate URL among the raw
/// fields begins with "http" (which the container scan guarantees).
pub proof fn lemma_records_well_formed(rs: Seq<RawView>)
    requires
        forall|j: int|
            0 <= j < rs.len() ==> ((#[trigger] rs[j]).url matches Some(u) ==> http_prefixed(u)),
    ensures
        forall|k: int|
            0 <= k < extracted(rs).len() ==> {
                let r = #[trigger] extracted(rs)[k];
                r.title.len() > 0 && r.url.len() > 0 && http_prefixed(r.url)
            },
{
    let c = capped(rs);
    assert(forall|j: int|
        0 <= j < c.len() ==> ((#[trigger] c[j]).url matches Some(u) ==> http_prefixed(u)));
    lemma_extracted_from_well_formed(c, 0);
}

} // verus!
