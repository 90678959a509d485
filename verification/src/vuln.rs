//! Grouping raw index hits by CVE.
//!
//! The search index ranks documents per advisory, so one CVE can appear
//! once for every advisory that mentions it. The aggregator collapses
//! those hits into one summary per CVE, keeping the index's ranking
//! order: a summary sits where its CVE was first seen, carries the
//! fields of that first document, and collects the advisory identifiers
//! of every later hit in encounter order.

use vstd::prelude::*;

verus! {

use crate::MAX_LIMIT;
use crate::clamp_limit;

/// One hit as the index returns it: a single advisory's view of a CVE.
#[derive(Debug, Clone, PartialEq, Eq)]
pub struct RawDocument {
    pub cve: String,
    pub advisory: String,
    pub title: String,
    pub description: String,
    pub release: Option<String>,
    /// CVSS base score in tenths (for example 98 for a score of 9.8);
    /// absent when the advisory carries no score.
    pub cvss: Option<u64>,
    pub affected_packages: Vec<String>,
}

/// The mathematical content of a [`RawDocument`].
#[verifier::ext_equal]
pub struct DocView {
    pub cve: Seq<char>,
    pub advisory: Seq<char>,
    pub title: Seq<char>,
    pub description: Seq<char>,
    pub release: Option<Seq<char>>,
    pub cvss: Option<u64>,
    pub affected_packages: Seq<Seq<char>>,
}

impl View for RawDocument {
    type V = DocView;

    open spec fn view(&self) -> DocView {
        DocView {
            cve: self.cve@,
            advisory: self.advisory@,
            title: self.title@,
            description: self.description@,
            release: match self.release {
                Some(r) => Some(r@),
                None => None,
            },
            cvss: self.cvss,
            affected_packages: self.affected_packages@.map_values(|p: String| p@),
        }
    }
}

/// One CVE with every advisory that mentioned it, in encounter order.
#[derive(Debug, Clone, PartialEq, Eq)]
pub struct VulnSummary {
    pub cve: String,
    pub advisories: Vec<String>,
    pub title: String,
    pub description: String,
    pub release: Option<String>,
    /// CVSS base score in tenths; see [`RawDocument::cvss`].
    pub cvss: Option<u64>,
    pub affected_packages: Vec<String>,
}

/// The mathematical content of a [`VulnSummary`].
#[verifier::ext_equal]
pub struct SummaryView {
    pub cve: Seq<char>,
    pub advisories: Seq<Seq<char>>,
    pub title: Seq<char>,
    pub description: Seq<char>,
    pub release: Option<Seq<char>>,
    pub cvss: Option<u64>,
    pub affected_packages: Seq<Seq<char>>,
}

impl View for VulnSummary {
    type V = SummaryView;

    open spec fn view(&self) -> SummaryView {
        SummaryView {
            cve: self.cve@,
            advisories: self.advisories@.map_values(|a: String| a@),
            title: self.title@,
            description: self.description@,
            release: match self.release {
                Some(r) => Some(r@),
                None => None,
            },
            cvss: self.cvss,
            affected_packages: self.affected_packages@.map_values(|p: String| p@),
        }
    }
}

/// A page of results together with the index's match count.
///
/// `total` counts the matching documents before deduplication, so it can
/// exceed the number of summaries in `result`.
#[derive(Debug, Clone, PartialEq, Eq)]
pub struct SearchResult<R> {
    pub total: usize,
    pub result: R,
}

/// What is sent to the index for one page of results.
#[derive(Debug, Clone, PartialEq, Eq)]
pub struct IndexRequest {
    pub q: String,
    pub offset: usize,
    pub limit: usize,
}

/// What the index hands back on success.
#[derive(Debug, Clone, PartialEq, Eq)]
pub struct IndexResponse {
    pub documents: Vec<RawDocument>,
    pub total: usize,
}

/// Why a search request produced no result.
#[derive(Debug, Clone, PartialEq, Eq)]
pub enum SearchError {
    /// The index call itself failed; the message comes from the index.
    IndexFailure(String),
}

/// The summary a single document starts: its fields, one advisory.
pub open spec fn summary_of(d: DocView) -> SummaryView {
    SummaryView {
        cve: d.cve,
        advisories: seq![d.advisory],
        title: d.title,
        description: d.description,
        release: d.release,
        cvss: d.cvss,
        affected_packages: d.affected_packages,
    }
}

/// `s` with one more advisory appended; every other field stays.
pub open spec fn with_advisory(s: SummaryView, advisory: Seq<char>) -> SummaryView {
    SummaryView { advisories: s.advisories.push(advisory), ..s }
}

/// The first position in `summaries` holding `cve`, or `-1` when absent.
pub open spec fn find_cve(summaries: Seq<SummaryView>, cve: Seq<char>) -> int
    decreases summaries.len(),
{
    if summaries.len() == 0 {
        -1
    } else if summaries[0].cve == cve {
        0
    } else {
        let r = find_cve(summaries.drop_first(), cve);
        if r < 0 {
            -1
        } else {
            r + 1
        }
    }
}

pub proof fn lemma_find_cve_absent(summaries: Seq<SummaryView>, cve: Seq<char>)
    requires
        find_cve(summaries, cve) < 0,
    ensures
        forall|i: int| 0 <= i < summaries.len() ==> summaries[i].cve != cve,
    decreases summaries.len(),
{
    if summaries.len() > 0 {
        lemma_find_cve_absent(summaries.drop_first(), cve);
        assert forall|i: int| 0 <= i < summaries.len() implies summaries[i].cve != cve by {
            if i > 0 {
                assert(summaries.drop_first()[i - 1] == summaries[i]);
            }
        }
    }
}

pub proof fn lemma_find_cve_present(summaries: Seq<SummaryView>, cve: Seq<char>)
    requires
        find_cve(summaries, cve) >= 0,
    ensures
        0 <= find_cve(summaries, cve) < summaries.len(),
        summaries[find_cve(summaries, cve)].cve == cve,
        forall|i: int| 0 <= i < find_cve(summaries, cve) ==> summaries[i].cve != cve,
    decreases summaries.len(),
{
    if summaries.len() > 0 && summaries[0].cve != cve {
        lemma_find_cve_present(summaries.drop_first(), cve);
        let r = find_cve(summaries.drop_first(), cve);
        assert(summaries.drop_first()[r] == summaries[r + 1]);
        assert forall|i: int| 0 <= i < r + 1 implies summaries[i].cve != cve by {
            if i > 0 {
                assert(summaries.drop_first()[i - 1] == summaries[i]);
            }
        }
    }
}

/// The exact position a scan for `cve` reaches: the first match.
pub proof fn lemma_find_cve_first(summaries: Seq<SummaryView>, cve: Seq<char>, i: int)
    requires
        0 <= i < summaries.len(),
        summaries[i].cve == cve,
        forall|k: int| 0 <= k < i ==> summaries[k].cve != cve,
    ensures
        find_cve(summaries, cve) == i,
    decreases summaries.len(),
{
    if i > 0 {
        assert forall|k: int| 0 <= k < i - 1 implies summaries.drop_first()[k].cve != cve by {
            assert(summaries.drop_first()[k] == summaries[k + 1]);
        }
        assert(summaries.drop_first()[i - 1] == summaries[i]);
        lemma_find_cve_first(summaries.drop_first(), cve, i - 1);
    }
}

/// The CVE-grouped summaries of `docs`, in first-seen order.
///
/// A document whose CVE is new starts a summary from its own fields; a
/// document whose CVE was already seen only appends its advisory to the
/// existing summary.
pub open spec fn summarize(docs: Seq<DocView>) -> Seq<SummaryView>
    decreases docs.len(),
{
    if docs.len() == 0 {
        Seq::<SummaryView>::empty()
    } else {
        let prev = summarize(docs.drop_last());
        let d = docs.last();
        let i = find_cve(prev, d.cve);
        if i < 0 {
            prev.push(summary_of(d))
        } else {
            prev.update(i, with_advisory(prev[i], d.advisory))
        }
    }
}

/// No CVE appears twice in the aggregated summaries.
pub proof fn lemma_summarize_unique(docs: Seq<DocView>)
    ensures
        forall|i: int, j: int|
            0 <= i < j < summarize(docs).len() ==> summarize(docs)[i].cve != summarize(docs)[j].cve,
    decreases docs.len(),
{
    if docs.len() > 0 {
        lemma_summarize_unique(docs.drop_last());
        let prev = summarize(docs.drop_last());
        let d = docs.last();
        let i = find_cve(prev, d.cve);
        if i < 0 {
            lemma_find_cve_absent(prev, d.cve);
        } else {
            lemma_find_cve_present(prev, d.cve);
        }
    }
}

/// Finds the summary already holding `cve`, scanning in order.
fn find_summary(summaries: &Vec<VulnSummary>, cve: &String) -> (r: Option<usize>)
    ensures
        match r {
            Some(i) => i < summaries.len() && find_cve(
                summaries@.map_values(|s: VulnSummary| s@),
                cve@,
            ) == i,
            None => find_cve(summaries@.map_values(|s: VulnSummary| s@), cve@) < 0,
        },
{
    let ghost views = summaries@.map_values(|s: VulnSummary| s@);
    let mut i: usize = 0;
    while i < summaries.len()
        invariant
            i <= summaries.len(),
            views == summaries@.map_values(|s: VulnSummary| s@),
            forall|k: int| 0 <= k < i ==> views[k].cve != cve@,
        decreases summaries.len() - i,
    {
        if summaries[i].cve == *cve {
            proof {
                lemma_find_cve_first(views, cve@, i as int);
            }
            return Some(i);
        }
        i = i + 1;
    }
    proof {
        if find_cve(views, cve@) >= 0 {
            lemma_find_cve_present(views, cve@);
        }
    }
    None
}

/// Collapses the ranked documents into one summary per CVE.
///
/// The output keeps the index's ranking order by first appearance; the
/// first document seen for a CVE supplies every field of the summary,
/// and later documents for the same CVE only add their advisory. No two
/// summaries in the output share a CVE.
pub fn aggregate_by_cve(documents: Vec<RawDocument>) -> (r: Vec<VulnSummary>)
    ensures
        r@.map_values(|s: VulnSummary| s@) == summarize(documents@.map_values(|d: RawDocument| d@)),
        forall|i: int, j: int| 0 <= i < j < r@.len() ==> r@[i].cve@ != r@[j].cve@,
{
    let ghost doc_views = documents@.map_values(|d: RawDocument| d@);
    let mut summaries: Vec<VulnSummary> = Vec::new();
    let mut idx: usize = 0;
    let n = documents.len();
    let mut documents = documents;
    proof {
        assert(doc_views.skip(0) =~= doc_views);
        assert(summaries@.map_values(|s: VulnSummary| s@) =~= summarize(doc_views.take(0)));
    }
    // Consume the documents front to back so each one's fields can move
    // into the summary it seeds.
    while idx < n
        invariant
            idx <= n,
            n == doc_views.len(),
            documents@.map_values(|d: RawDocument| d@) == doc_views.skip(idx as int),
            summaries@.map_values(|s: VulnSummary| s@) == summarize(doc_views.take(idx as int)),
        decreases n - idx,
    {
        proof {
            assert(documents@.map_values(|x: RawDocument| x@).len() == documents@.len());
            assert(doc_views.skip(idx as int).len() == n - idx);
        }
        let d = documents.remove(0);
        assert(documents@.map_values(|x: RawDocument| x@) =~= doc_views.skip(idx as int).drop_first());
        assert(d@ == doc_views.skip(idx as int)[0]);
        assert(d@ == doc_views[idx as int]);
        assert(documents@.map_values(|x: RawDocument| x@) =~= doc_views.skip(idx + 1));
        let found = find_summary(&summaries, &d.cve);
        match found {
            Some(i) => {
                let ghost prev = summarize(doc_views.take(idx as int));
                let ghost old_views = summaries@.map_values(|s: VulnSummary| s@);
                let mut entry = summaries.remove(i);
                assert(entry@ == prev[i as int]);
                entry.advisories.push(d.advisory);
                assert(entry@.advisories =~= with_advisory(
                    prev[i as int],
                    doc_views[idx as int].advisory,
                ).advisories);
                assert(entry@ =~= with_advisory(prev[i as int], doc_views[idx as int].advisory));
                summaries.insert(i, entry);
                proof {
                    assert(doc_views.take(idx + 1).drop_last() =~= doc_views.take(idx as int));
                    assert(doc_views.take(idx + 1).last() == doc_views[idx as int]);
                    assert(summaries@.map_values(|s: VulnSummary| s@) =~= prev.update(
                        i as int,
                        with_advisory(prev[i as int], doc_views[idx as int].advisory),
                    ));
                }
            },
            None => {
                let entry = VulnSummary {
                    cve: d.cve,
                    advisories: singleton(d.advisory),
                    title: d.title,
                    description: d.description,
                    release: d.release,
                    cvss: d.cvss,
                    affected_packages: d.affected_packages,
                };
                summaries.push(entry);
                proof {
                    let prev = summarize(doc_views.take(idx as int));
                    assert(doc_views.take(idx + 1).drop_last() =~= doc_views.take(idx as int));
                    assert(doc_views.take(idx + 1).last() == doc_views[idx as int]);
                    assert(entry@ =~= summary_of(doc_views[idx as int]));
                    assert(summaries@.map_values(|s: VulnSummary| s@) =~= prev.push(
                        summary_of(doc_views[idx as int]),
                    ));
                }
            },
        }
        idx = idx + 1;
    }
    proof {
        assert(doc_views.take(n as int) =~= doc_views);
        lemma_summarize_unique(doc_views);
        assert forall|i: int, j: int| 0 <= i < j < summaries@.len() implies summaries@[i].cve@
            != summaries@[j].cve@ by {
            let views = summaries@.map_values(|s: VulnSummary| s@);
            assert(views[i].cve == summaries@[i].cve@);
            assert(views[j].cve == summaries@[j].cve@);
        }
    }
    summaries
}

/// A one-element advisory list.
fn singleton(advisory: String) -> (r: Vec<String>)
    ensures
        r@.map_values(|a: String| a@) =~= seq![advisory@],
{
    let mut r: Vec<String> = Vec::new();
    r.push(advisory);
    r
}

/// Shapes a caller's page request into the call the index receives.
///
/// The query and offset pass through unchanged; the limit is clamped to
/// [`MAX_LIMIT`] before the index ever sees it.
pub fn plan_search(q: String, offset: usize, limit: usize) -> (r: IndexRequest)
    ensures
        r.q == q,
        r.offset == offset,
        r.limit == if limit < MAX_LIMIT { limit as int } else { MAX_LIMIT as int },
        r.limit <= MAX_LIMIT,
{
    IndexRequest { q, offset, limit: clamp_limit(limit) }
}

/// Turns the index's answer into the response the caller receives.
///
/// On success the documents are grouped by CVE and the index's match
/// count passes through untouched, whatever deduplication removed. A
/// failed index call aborts the whole aggregation: nothing partial is
/// returned, only the index's message.
pub fn finish_search(outcome: Result<IndexResponse, String>) -> (r: Result<
    SearchResult<Vec<VulnSummary>>,
    SearchError,
>)
    ensures
        match outcome {
            Ok(resp) => {
                &&& r is Ok
                &&& r->Ok_0.total == resp.total
                &&& r->Ok_0.result@.map_values(|s: VulnSummary| s@) == summarize(
                    resp.documents@.map_values(|d: RawDocument| d@),
                )
                &&& forall|i: int, j: int|
                    0 <= i < j < r->Ok_0.result@.len() ==> r->Ok_0.result@[i].cve@
                        != r->Ok_0.result@[j].cve@
            },
            Err(msg) => r == Result::<SearchResult<Vec<VulnSummary>>, SearchError>::Err(
                SearchError::IndexFailure(msg),
            ),
        },
{
    match outcome {
        Ok(resp) => Ok(
            SearchResult { total: resp.total, result: aggregate_by_cve(resp.documents) },
        ),
        Err(msg) => Err(SearchError::IndexFailure(msg)),
    }
}

} // verus!
