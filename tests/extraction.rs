use usage_filter::extractor::StreamUsageExtractor;
use usage_filter::metrics::{report_usage, MetricHandles, MetricIncrement};
use usage_filter::usage::{parse_usage, usage_from_document, usage_from_value, UsageRecord};

const FULL: &str =
    r#"{"id":"x","usage":{"prompt_tokens": 10, "completion_tokens": 5, "total_tokens": 15}}"#;

fn handles() -> MetricHandles {
    MetricHandles::new(1, 2, 3)
}

fn inc(handle: u32, amount: i64) -> MetricIncrement {
    MetricIncrement { handle, amount }
}

fn deliver(chunks: &[&[u8]]) -> Vec<MetricIncrement> {
    let mut e = StreamUsageExtractor::new(handles());
    let mut out = Vec::new();
    for (i, c) in chunks.iter().enumerate() {
        out.extend(e.on_chunk(c, i + 1 == chunks.len()));
    }
    out
}

fn delta(out: &[MetricIncrement], handle: u32) -> i64 {
    out.iter().filter(|i| i.handle == handle).map(|i| i.amount).sum()
}

#[test]
fn full_usage_reports_each_counter_once() {
    let out = deliver(&[FULL.as_bytes()]);
    assert_eq!(out, vec![inc(1, 10), inc(2, 5), inc(3, 15)]);
}

#[test]
fn every_split_gives_the_same_report() {
    let body = FULL.as_bytes();
    let whole = deliver(&[body]);
    for cut in 0..=body.len() {
        assert_eq!(deliver(&[&body[..cut], &body[cut..]]), whole);
        assert_eq!(deliver(&[&body[..cut], &body[cut..], b""]), whole);
    }
    let bytes: Vec<&[u8]> = body.chunks(1).collect();
    assert_eq!(deliver(&bytes), whole);
}

#[test]
fn nothing_is_reported_before_the_final_chunk() {
    let mut e = StreamUsageExtractor::new(handles());
    assert!(e.on_chunk(FULL.as_bytes(), false).is_empty());
    assert!(!e.is_completed());
    assert_eq!(e.buffered(), FULL.as_bytes());
    assert_eq!(e.on_chunk(b"", true), vec![inc(1, 10), inc(2, 5), inc(3, 15)]);
    assert!(e.is_completed());
}

#[test]
fn invalid_utf8_reports_nothing() {
    let mut body = FULL.as_bytes().to_vec();
    body.insert(3, 0xff);
    assert!(deliver(&[&body]).is_empty());
    assert_eq!(parse_usage(&body), None);
}

#[test]
fn invalid_json_reports_nothing() {
    assert!(deliver(&[b"{\"usage\": {\"prompt_tokens\": 10,"]).is_empty());
    assert!(deliver(&[b"not json at all"]).is_empty());
    assert!(deliver(&[b""]).is_empty());
}

#[test]
fn missing_usage_reports_nothing() {
    assert!(deliver(&[b"{\"choices\": []}"]).is_empty());
    assert!(deliver(&[b"[1, 2, 3]"]).is_empty());
    assert!(deliver(&[b"{\"Usage\": {\"prompt_tokens\": 1, \"completion_tokens\": 1, \"total_tokens\": 2}}"]).is_empty());
}

#[test]
fn partial_usage_reports_nothing() {
    assert!(deliver(&[b"{\"usage\": {\"prompt_tokens\": 10}}"]).is_empty());
    assert!(deliver(&[b"{\"usage\": {\"prompt_tokens\": 10, \"completion_tokens\": 5}}"]).is_empty());
}

#[test]
fn mistyped_usage_reports_nothing() {
    assert!(deliver(&[b"{\"usage\": {\"prompt_tokens\": 1.5, \"completion_tokens\": 5, \"total_tokens\": 15}}"]).is_empty());
    assert!(deliver(&[b"{\"usage\": {\"prompt_tokens\": \"10\", \"completion_tokens\": 5, \"total_tokens\": 15}}"]).is_empty());
    assert!(deliver(&[b"{\"usage\": {\"prompt_tokens\": 9223372036854775808, \"completion_tokens\": 5, \"total_tokens\": 15}}"]).is_empty());
    assert!(deliver(&[b"{\"usage\": [10, 5, 15]}"]).is_empty());
    assert!(deliver(&[b"{\"usage\": null}"]).is_empty());
}

#[test]
fn largest_counts_are_reported() {
    let body = b"{\"usage\": {\"prompt_tokens\": 9223372036854775807, \"completion_tokens\": 0, \"total_tokens\": 9223372036854775807}}";
    assert_eq!(deliver(&[body]), vec![inc(1, i64::MAX), inc(2, 0), inc(3, i64::MAX)]);
}

#[test]
fn second_final_chunk_reports_nothing() {
    let mut e = StreamUsageExtractor::new(handles());
    assert_eq!(e.on_chunk(FULL.as_bytes(), true).len(), 3);
    assert!(e.on_chunk(FULL.as_bytes(), true).is_empty());
    assert!(e.on_chunk(b"more", false).is_empty());
    assert_eq!(e.buffered(), FULL.as_bytes());
}

#[test]
fn two_exchanges_add_up() {
    let other = b"{\"usage\": {\"prompt_tokens\": 7, \"completion_tokens\": 3, \"total_tokens\": 10}}";
    let mut a = StreamUsageExtractor::new(handles());
    let mut b = StreamUsageExtractor::new(handles());
    let body = FULL.as_bytes();
    let mut out = Vec::new();
    out.extend(a.on_chunk(&body[..20], false));
    out.extend(b.on_chunk(&other[..12], false));
    out.extend(a.on_chunk(&body[20..], false));
    out.extend(b.on_chunk(&other[12..], true));
    out.extend(a.on_chunk(b"", true));
    assert_eq!(delta(&out, 1), 17);
    assert_eq!(delta(&out, 2), 8);
    assert_eq!(delta(&out, 3), 25);
}

#[test]
fn record_needs_all_three_fields() {
    assert_eq!(
        UsageRecord::from_fields(Some(10), Some(5), Some(15)),
        Some(UsageRecord { prompt_tokens: 10, completion_tokens: 5, total_tokens: 15 })
    );
    assert_eq!(UsageRecord::from_fields(Some(10), None, Some(15)), None);
    assert_eq!(UsageRecord::from_fields(None, None, None), None);
}

#[test]
fn usage_read_from_parsed_values() {
    let doc: serde_json::Value = serde_json::from_str(FULL).unwrap();
    let expected = Some(UsageRecord { prompt_tokens: 10, completion_tokens: 5, total_tokens: 15 });
    assert_eq!(usage_from_document(&doc), expected);
    assert_eq!(usage_from_value(&doc["usage"]), expected);
    assert_eq!(usage_from_value(&doc), None);
    assert_eq!(parse_usage(FULL.as_bytes()), expected);
    let neg: serde_json::Value =
        serde_json::from_str("{\"prompt_tokens\": -1, \"completion_tokens\": 2, \"total_tokens\": 1}").unwrap();
    assert_eq!(
        usage_from_value(&neg),
        Some(UsageRecord { prompt_tokens: -1, completion_tokens: 2, total_tokens: 1 })
    );
}

#[test]
fn report_lists_prompt_completion_total() {
    let h = MetricHandles::new(40, 41, 42);
    let u = UsageRecord { prompt_tokens: 3, completion_tokens: 4, total_tokens: 7 };
    assert_eq!(report_usage(&h, Some(u)), vec![inc(40, 3), inc(41, 4), inc(42, 7)]);
    assert!(report_usage(&h, None).is_empty());
}

#[test]
fn registration_fails_if_any_counter_is_missing() {
    assert_eq!(
        MetricHandles::from_registrations(Some(4), Some(5), Some(6)),
        Some(MetricHandles { prompt: 4, completion: 5, total: 6 })
    );
    assert_eq!(MetricHandles::from_registrations(Some(4), None, Some(6)), None);
    assert_eq!(MetricHandles::from_registrations(None, Some(5), Some(6)), None);
    assert_eq!(MetricHandles::from_registrations(Some(4), Some(5), None), None);
}
