use spog::vuln::{
    IndexResponse, RawDocument, SearchError, VulnSummary, aggregate_by_cve, finish_search,
    plan_search,
};
use spog::clamp_limit;

fn doc(cve: &str, advisory: &str, title: &str) -> RawDocument {
    RawDocument {
        cve: cve.to_string(),
        advisory: advisory.to_string(),
        title: title.to_string(),
        description: format!("about {cve}"),
        release: None,
        cvss: None,
        affected_packages: Vec::new(),
    }
}

#[test]
fn aggregates_three_documents_into_two_summaries() {
    let docs = vec![
        doc("CVE-1", "A", "T1"),
        doc("CVE-1", "B", "T2"),
        doc("CVE-2", "C", "T3"),
    ];
    let out = aggregate_by_cve(docs);
    assert_eq!(out.len(), 2);
    assert_eq!(out[0].cve, "CVE-1");
    assert_eq!(out[0].advisories, vec!["A".to_string(), "B".to_string()]);
    // The first document seen for CVE-1 supplies the title.
    assert_eq!(out[0].title, "T1");
    assert_eq!(out[1].cve, "CVE-2");
    assert_eq!(out[1].advisories, vec!["C".to_string()]);
    assert_eq!(out[1].title, "T3");
}

#[test]
fn output_cves_are_unique() {
    let docs = vec![
        doc("CVE-9", "A", "a"),
        doc("CVE-8", "B", "b"),
        doc("CVE-9", "C", "c"),
        doc("CVE-7", "D", "d"),
        doc("CVE-8", "E", "e"),
        doc("CVE-9", "F", "f"),
    ];
    let out = aggregate_by_cve(docs);
    for i in 0..out.len() {
        for j in 0..out.len() {
            if i != j {
                assert_ne!(out[i].cve, out[j].cve);
            }
        }
    }
    assert_eq!(out.len(), 3);
}

#[test]
fn first_seen_fields_win() {
    let mut first = doc("CVE-1", "A", "T1");
    first.release = Some("r1".to_string());
    first.cvss = Some(98);
    first.affected_packages = vec!["pkg-a".to_string()];
    let mut second = doc("CVE-1", "B", "T2");
    second.release = Some("r2".to_string());
    second.cvss = Some(10);
    second.affected_packages = vec!["pkg-b".to_string()];
    let out = aggregate_by_cve(vec![first, second]);
    assert_eq!(out.len(), 1);
    assert_eq!(out[0].release, Some("r1".to_string()));
    assert_eq!(out[0].cvss, Some(98));
    assert_eq!(out[0].affected_packages, vec!["pkg-a".to_string()]);
    assert_eq!(out[0].advisories, vec!["A".to_string(), "B".to_string()]);
}

#[test]
fn empty_input_gives_empty_output() {
    let out = aggregate_by_cve(Vec::new());
    assert!(out.is_empty());
}

#[test]
fn limit_is_clamped_to_one_thousand() {
    let req = plan_search("q".to_string(), 0, 5000);
    assert_eq!(req.limit, 1000);
    assert_eq!(req.q, "q");
    assert_eq!(req.offset, 0);
    assert_eq!(clamp_limit(5000), 1000);
    assert_eq!(clamp_limit(1000), 1000);
    assert_eq!(clamp_limit(999), 999);
    assert_eq!(clamp_limit(0), 0);
}

#[test]
fn total_passes_through_untouched() {
    let resp = IndexResponse {
        documents: vec![
            doc("CVE-1", "A", "T1"),
            doc("CVE-1", "B", "T2"),
            doc("CVE-1", "C", "T3"),
        ],
        total: 37,
    };
    let out = finish_search(Ok(resp)).expect("index call succeeded");
    // One summary after dedup, but the index's match count stays.
    assert_eq!(out.result.len(), 1);
    assert_eq!(out.total, 37);
}

#[test]
fn index_failure_aborts_with_its_message() {
    let out: Result<spog::vuln::SearchResult<Vec<VulnSummary>>, SearchError> =
        finish_search(Err("backend outage".to_string()));
    match out {
        Err(SearchError::IndexFailure(msg)) => assert_eq!(msg, "backend outage"),
        _ => panic!("expected an index failure"),
    }
}
