use fuzzer_compare::number::Decimal;
use fuzzer_compare::status::AflStatusMonitor;

fn sample(text: &str) -> fuzzer_compare::status::AflStautsResult {
    AflStatusMonitor::new("fuzzer_stats".to_string()).get_result(text.as_bytes())
}

#[test]
fn status_fields_parse() {
    let text = "start_time        : 1700000000\ncorpus_count      : 42\nexecs_done        : 1000\nsaved_crashes     : 0\nedges_found       : 500\nbitmap_cvg        : 12.34%\n";
    let r = sample(text);
    assert_eq!(r.case_num, 42);
    assert_eq!(r.cycle_num, 1000);
    assert_eq!(r.crash_num, 0);
    assert_eq!(r.edge_covered, 500);
    assert_eq!(r.edge_percent, Decimal { mantissa: 1234, scale: 2 });
}

#[test]
fn status_compact_lines_parse() {
    let text = "corpus_count : 42\nexecs_done : 1000\nsaved_crashes : 0\nedges_found : 500\nbitmap_cvg : 12.34%";
    let r = sample(text);
    assert_eq!((r.case_num, r.cycle_num, r.crash_num, r.edge_covered), (42, 1000, 0, 500));
    assert_eq!(r.edge_percent, Decimal { mantissa: 1234, scale: 2 });
}

#[test]
fn status_missing_field_is_sentinel() {
    let text = "corpus_count : 42\nexecs_done : 1000\nedges_found : 500\nbitmap_cvg : 12.34%\n";
    let r = sample(text);
    assert_eq!(r.crash_num, -1);
    assert_eq!(r.case_num, 42);
    assert_eq!(r.cycle_num, 1000);
    assert_eq!(r.edge_covered, 500);
    assert_eq!(r.edge_percent, Decimal { mantissa: 1234, scale: 2 });
}

#[test]
fn status_unparseable_fields_are_sentinels() {
    let text = "corpus_count : many\nexecs_done : 99999999999\nsaved_crashes : -3\nedges_found :\nbitmap_cvg : 12.34\n";
    let r = sample(text);
    assert_eq!(r.case_num, -1);
    assert_eq!(r.cycle_num, -1);
    assert_eq!(r.crash_num, -3);
    assert_eq!(r.edge_covered, -1);
    assert_eq!(r.edge_percent, Decimal { mantissa: -1, scale: 0 });
}

#[test]
fn status_empty_file_is_all_sentinels() {
    let r = sample("");
    assert_eq!((r.case_num, r.cycle_num, r.crash_num, r.edge_covered), (-1, -1, -1, -1));
    assert_eq!(r.edge_percent, Decimal { mantissa: -1, scale: 0 });
}

#[test]
fn status_key_must_match_whole() {
    let text = "corpus_count_extra : 7\ncorpus_count : 8\n";
    assert_eq!(sample(text).case_num, 8);
}

#[test]
fn status_extreme_counts() {
    let text = "corpus_count : 2147483647\nexecs_done : -2147483648\nsaved_crashes : +5\nedges_found : 2147483648\n";
    let r = sample(text);
    assert_eq!(r.case_num, 2147483647);
    assert_eq!(r.cycle_num, -2147483648);
    assert_eq!(r.crash_num, 5);
    assert_eq!(r.edge_covered, -1);
}

#[test]
fn status_grep_item_span() {
    let text = b"a : 1\nkey :  value here  \n";
    let (s, e) = AflStatusMonitor::grep_item(text, b"key").unwrap();
    assert_eq!(&text[s..e], b"value here");
    assert_eq!(AflStatusMonitor::grep_item(text, b"nope"), None);
}

#[test]
fn status_line_order_does_not_matter() {
    let a = "corpus_count : 42\nexecs_done : 1000\nsaved_crashes : 0\nedges_found : 500\nbitmap_cvg : 12.34%\n";
    let b = "bitmap_cvg : 12.34%\nstart_time : 1\nedges_found : 500\nsaved_crashes : 0\nexecs_done : 1000\nfuzzer_pid : 77\ncorpus_count : 42\n";
    assert_eq!(sample(a), sample(b));
}
