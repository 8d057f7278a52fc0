use website_checker::engine::run_jobs;
use website_checker::outcome::{AttemptEvent, CheckOutcome, CheckStatus, ResultSet};
use website_checker::queue::JobQueue;

fn fail(msg: &str) -> AttemptEvent {
    AttemptEvent::TransportFailure(msg.to_string())
}

fn resp(code: u16) -> AttemptEvent {
    AttemptEvent::Response(code)
}

fn jobs(urls: &[&str]) -> Vec<String> {
    urls.iter().map(|u| u.to_string()).collect()
}

#[test]
fn every_job_yields_exactly_one_outcome() {
    let source = jobs(&["http://a.test", "http://b.test", "http://c.test"]);
    let events = vec![vec![resp(200)], vec![fail("refused")], vec![resp(503)]];
    let results = run_jobs(&source, &events, 0, 99);
    assert_eq!(results.len(), 3);
    let entries = results.entries();
    assert_eq!(entries[0].url, "http://a.test");
    assert_eq!(entries[0].status, CheckStatus::Success(200));
    assert_eq!(entries[1].url, "http://b.test");
    assert_eq!(entries[1].status, CheckStatus::Failure("refused".to_string()));
    assert_eq!(entries[2].url, "http://c.test");
    assert_eq!(entries[2].status, CheckStatus::Success(503));
    for entry in entries {
        assert_eq!(entry.timestamp_secs, 99);
    }
}

#[test]
fn duplicate_urls_produce_independent_entries() {
    let source = jobs(&["http://same.test", "http://same.test"]);
    let events = vec![vec![resp(200)], vec![resp(404)]];
    let results = run_jobs(&source, &events, 0, 0);
    assert_eq!(results.len(), 2);
    assert_eq!(results.entries()[0].status, CheckStatus::Success(200));
    assert_eq!(results.entries()[1].status, CheckStatus::Success(404));
}

#[test]
fn two_urls_both_succeeding_give_two_success_entries() {
    let source = jobs(&["https://a.test", "https://b.test"]);
    let events = vec![vec![resp(200)], vec![resp(200)]];
    let results = run_jobs(&source, &events, 0, 0);
    assert_eq!(results.len(), 2);
    for entry in results.entries() {
        assert_eq!(entry.status, CheckStatus::Success(200));
    }
}

#[test]
fn failing_job_with_retries_reports_cumulative_delay() {
    // One URL, retries = 2: three failed attempts, at least 200 ms of
    // forced inter-attempt delay.
    let source = jobs(&["http://example.invalid"]);
    let events = vec![vec![fail("dns error"), fail("dns error"), fail("dns error again")]];
    let results = run_jobs(&source, &events, 2, 0);
    assert_eq!(results.len(), 1);
    let entry = &results.entries()[0];
    assert_eq!(entry.status, CheckStatus::Failure("dns error again".to_string()));
    assert!(entry.elapsed_ms >= 200);
}

#[test]
fn append_order_never_changes_the_pair_multiset() {
    // The same outcomes appended in two different orders carry the same
    // (url, status) pairs: what a different worker count changes is
    // only the order of appends.
    let a = CheckOutcome {
        url: "http://a.test".to_string(),
        status: CheckStatus::Success(200),
        elapsed_ms: 1,
        timestamp_secs: 0,
    };
    let b = CheckOutcome {
        url: "http://b.test".to_string(),
        status: CheckStatus::Failure("down".to_string()),
        elapsed_ms: 2,
        timestamp_secs: 0,
    };
    let c = CheckOutcome {
        url: "http://c.test".to_string(),
        status: CheckStatus::Success(301),
        elapsed_ms: 3,
        timestamp_secs: 0,
    };
    let mut one_worker = ResultSet::new();
    for outcome in [a.clone(), b.clone(), c.clone()] {
        one_worker.append(outcome);
    }
    let mut many_workers = ResultSet::new();
    for outcome in [c, a, b] {
        many_workers.append(outcome);
    }
    let mut pairs_one: Vec<(String, String)> = one_worker
        .entries()
        .iter()
        .map(|e| (e.url.clone(), format!("{:?}", e.status)))
        .collect();
    let mut pairs_many: Vec<(String, String)> = many_workers
        .entries()
        .iter()
        .map(|e| (e.url.clone(), format!("{:?}", e.status)))
        .collect();
    pairs_one.sort();
    pairs_many.sort();
    assert_eq!(pairs_one, pairs_many);
}

#[test]
fn queue_hands_out_jobs_in_order_then_closes() {
    let mut queue = JobQueue::new(jobs(&["http://a.test", "http://b.test"]));
    assert_eq!(queue.dequeue(), Some("http://a.test".to_string()));
    assert_eq!(queue.dequeue(), Some("http://b.test".to_string()));
    assert_eq!(queue.dequeue(), None);
    assert_eq!(queue.dequeue(), None);
}
