use url_validator::augment::{augment, extract_urls};
use url_validator::batch::{build_output, Sink};
use url_validator::columns::{augment_header, prepare_batch, select_columns, split_names};
use url_validator::outcome::{FetchEvent, ProbeOutcome};
use url_validator::probe::{classify_fetch, probe_outcome, probe_syntax, report_line};

fn strings(items: &[&str]) -> Vec<String> {
    items.iter().map(|s| s.to_string()).collect()
}

#[test]
fn labels_are_the_fixed_texts() {
    assert_eq!(ProbeOutcome::Working.label(), "working");
    assert_eq!(ProbeOutcome::NotWorking.label(), "not working");
    assert_eq!(ProbeOutcome::TimedOut.label(), "timeout");
    assert_eq!(ProbeOutcome::InvalidUrl.label(), "Not valid Url");
}

#[test]
fn any_status_below_500_is_working() {
    for status in [200u16, 204, 301, 302, 404, 418, 499] {
        assert_eq!(
            classify_fetch(&FetchEvent::Completed(status)),
            ProbeOutcome::Working
        );
    }
}

#[test]
fn server_errors_are_not_working() {
    for status in [500u16, 502, 503, 599] {
        assert_eq!(
            classify_fetch(&FetchEvent::Completed(status)),
            ProbeOutcome::NotWorking
        );
    }
}

#[test]
fn timeout_is_timeout_never_not_working() {
    let o = classify_fetch(&FetchEvent::TimedOut);
    assert_eq!(o, ProbeOutcome::TimedOut);
    assert_ne!(o, ProbeOutcome::NotWorking);
}

#[test]
fn transport_failure_is_not_working() {
    assert_eq!(
        classify_fetch(&FetchEvent::TransportError),
        ProbeOutcome::NotWorking
    );
}

#[test]
fn invalid_url_is_rejected_before_any_fetch() {
    assert_eq!(probe_syntax("not a url"), Some(ProbeOutcome::InvalidUrl));
    assert_eq!(probe_syntax(""), Some(ProbeOutcome::InvalidUrl));
    assert_eq!(probe_syntax("https://example.com"), None);
}

#[test]
fn probe_of_invalid_url_ignores_the_fetch_event() {
    assert_eq!(
        probe_outcome("not a url", &FetchEvent::Completed(200)),
        ProbeOutcome::InvalidUrl
    );
    assert_eq!(
        probe_outcome("not a url", &FetchEvent::TimedOut),
        ProbeOutcome::InvalidUrl
    );
}

#[test]
fn probe_of_valid_url_follows_the_fetch_event() {
    assert_eq!(
        probe_outcome("https://example.com/does-not-exist", &FetchEvent::Completed(404)),
        ProbeOutcome::Working
    );
    assert_eq!(
        probe_outcome("https://example.com", &FetchEvent::TimedOut),
        ProbeOutcome::TimedOut
    );
    assert_eq!(
        probe_outcome("https://example.com", &FetchEvent::TransportError),
        ProbeOutcome::NotWorking
    );
}

#[test]
fn report_line_names_url_and_label() {
    assert_eq!(
        report_line("https://example.com", ProbeOutcome::Working),
        "=> https://example.com is working"
    );
    assert_eq!(
        report_line("not a url", ProbeOutcome::InvalidUrl),
        "=> not a url is Not valid Url"
    );
}

#[test]
fn split_names_splits_on_commas() {
    assert_eq!(split_names("url,link"), strings(&["url", "link"]));
    assert_eq!(split_names("url"), strings(&["url"]));
    assert_eq!(split_names(""), strings(&[""]));
    assert_eq!(split_names("a,,b"), strings(&["a", "", "b"]));
    assert_eq!(split_names(",x"), strings(&["", "x"]));
    assert_eq!(split_names("x,"), strings(&["x", ""]));
}

#[test]
fn select_columns_matches_names_exactly_in_header_order() {
    let header = strings(&["name", "url", "homepage"]);
    let sel = select_columns(&header, &strings(&["homepage", "url"]));
    assert_eq!(sel, vec![1, 2]);
}

#[test]
fn select_columns_does_not_match_substrings() {
    let header = strings(&["url", "urls", "burl"]);
    let sel = select_columns(&header, &strings(&["url"]));
    assert_eq!(sel, vec![0]);
}

#[test]
fn select_columns_of_unmatched_names_is_empty() {
    let header = strings(&["name", "age"]);
    let sel = select_columns(&header, &strings(&["url"]));
    assert_eq!(sel, Vec::<usize>::new());
}

#[test]
fn augment_header_appends_status_names() {
    let header = strings(&["name", "url", "homepage"]);
    let out = augment_header(&header, &vec![1, 2]);
    assert_eq!(
        out,
        strings(&["name", "url", "homepage", "url_Status", "homepage_Status"])
    );
}

#[test]
fn prepare_batch_selects_and_augments_in_one_step() {
    let header = strings(&["name", "url", "age", "homepage"]);
    let (sel, augmented) = prepare_batch(&header, "homepage,url");
    assert_eq!(sel, vec![1, 3]);
    assert_eq!(
        augmented,
        strings(&["name", "url", "age", "homepage", "url_Status", "homepage_Status"])
    );
}

#[test]
fn extract_urls_reads_the_selected_fields() {
    let record = strings(&["alice", "https://a.example", "https://b.example"]);
    let urls = extract_urls(&record, &vec![1, 2]);
    assert_eq!(urls, strings(&["https://a.example", "https://b.example"]));
}

#[test]
fn augment_appends_one_label_per_outcome() {
    let record = strings(&["alice", "https://a.example"]);
    let out = augment(&record, &vec![ProbeOutcome::Working]);
    assert_eq!(out, strings(&["alice", "https://a.example", "working"]));
}

#[test]
fn augmented_length_is_record_plus_columns() {
    let record = strings(&["a", "b", "c", "d"]);
    let outcomes = vec![
        ProbeOutcome::Working,
        ProbeOutcome::TimedOut,
        ProbeOutcome::InvalidUrl,
    ];
    let out = augment(&record, &outcomes);
    assert_eq!(out.len(), record.len() + outcomes.len());
    let none = augment(&record, &Vec::new());
    assert_eq!(none.len(), record.len());
    assert_eq!(none, record);
}

#[test]
fn batch_output_is_header_plus_one_record_per_row() {
    let header = strings(&["name", "url"]);
    let sel = vec![1usize];
    let rows = vec![
        strings(&["ok", "https://example.com"]),
        strings(&["slow", "https://slow.example"]),
        strings(&["bad", "not a url"]),
    ];
    let outcomes = vec![
        vec![ProbeOutcome::Working],
        vec![ProbeOutcome::TimedOut],
        vec![ProbeOutcome::InvalidUrl],
    ];
    let out = build_output(&header, &sel, &rows, &outcomes);
    assert_eq!(out.len(), 4);
    assert_eq!(out[0], strings(&["name", "url", "url_Status"]));
    assert_eq!(out[1], strings(&["ok", "https://example.com", "working"]));
    assert_eq!(out[2], strings(&["slow", "https://slow.example", "timeout"]));
    assert_eq!(out[3], strings(&["bad", "not a url", "Not valid Url"]));
}

#[test]
fn header_only_input_yields_header_only_output() {
    let header = strings(&["name", "url"]);
    let out = build_output(&header, &vec![1usize], &Vec::new(), &Vec::new());
    assert_eq!(out.len(), 1);
    assert_eq!(out[0], strings(&["name", "url", "url_Status"]));
}

#[test]
fn every_output_record_has_the_expected_field_count() {
    let header = strings(&["id", "url", "homepage"]);
    let sel = vec![1usize, 2];
    let mut rows = Vec::new();
    let mut outcomes = Vec::new();
    for i in 0..100 {
        rows.push(strings(&[&i.to_string(), "https://a.example", "not a url"]));
        outcomes.push(vec![ProbeOutcome::Working, ProbeOutcome::InvalidUrl]);
    }
    let out = build_output(&header, &sel, &rows, &outcomes);
    assert_eq!(out.len(), 101);
    for record in &out {
        assert_eq!(record.len(), header.len() + sel.len());
    }
}

#[test]
fn sink_keeps_whole_records_in_write_order() {
    let mut sink = Sink::new();
    sink.write_header(strings(&["h", "h_Status"]));
    sink.write_record(strings(&["b", "working"]));
    sink.write_record(strings(&["c", "timeout"]));
    let records = sink.into_records();
    assert_eq!(records.len(), 3);
    assert_eq!(records[0], strings(&["h", "h_Status"]));
    assert_eq!(records[1], strings(&["b", "working"]));
    assert_eq!(records[2], strings(&["c", "timeout"]));
}
