use fuzzer_compare::coverage::{LLVMCoverageItem, LLVMCoverageMonitor, MonitorParseError};
use fuzzer_compare::number::Decimal;

fn item(total: i32, missed: i32, mantissa: i64, scale: u32) -> LLVMCoverageItem {
    LLVMCoverageItem { missed, total, percent: Decimal { mantissa, scale } }
}

fn monitor() -> LLVMCoverageMonitor {
    LLVMCoverageMonitor::new("/bin/postgres".to_string(), "/prof".to_string())
}

#[test]
fn coverage_totals_line_parses() {
    let report = "Filename Regions Missed Cover Functions Missed Cover Lines Missed Cover Branches Missed Cover\n---\nTOTAL 100 10 90.00% 50 5 90.00% 200 20 90.00% 30 3 90.00%\n";
    let r = monitor().get_result(report.as_bytes()).unwrap();
    assert_eq!(r.region_cov, item(100, 10, 9000, 2));
    assert_eq!(r.func_cov, item(50, 5, 9000, 2));
    assert_eq!(r.line_cov, item(200, 20, 9000, 2));
    assert_eq!(r.branch_cov, item(30, 3, 9000, 2));
}

#[test]
fn coverage_without_final_newline() {
    let report = "TOTAL   7 1 85.71%   2 0 100.00%   9 3 66.67%   4 2 50.00%";
    let r = LLVMCoverageMonitor::parse_report(report.as_bytes()).unwrap();
    assert_eq!(r.region_cov, item(7, 1, 8571, 2));
    assert_eq!(r.func_cov, item(2, 0, 10000, 2));
    assert_eq!(r.line_cov, item(9, 3, 6667, 2));
    assert_eq!(r.branch_cov, item(4, 2, 5000, 2));
}

#[test]
fn coverage_short_line_fails() {
    let report = "TOTAL 100 10 90.00% 50 5 90.00%\n";
    assert_eq!(monitor().get_result(report.as_bytes()), Err(MonitorParseError));
}

#[test]
fn coverage_empty_report_fails() {
    assert_eq!(monitor().get_result(b""), Err(MonitorParseError));
    assert_eq!(monitor().get_result(b"\n"), Err(MonitorParseError));
}

#[test]
fn coverage_missing_percent_sign_fails() {
    let report = "TOTAL 100 10 90.00 50 5 90.00% 200 20 90.00% 30 3 90.00%\n";
    assert_eq!(monitor().get_result(report.as_bytes()), Err(MonitorParseError));
}

#[test]
fn coverage_reads_only_last_line() {
    let report = "TOTAL 1 1 1.00% 1 1 1.00% 1 1 1.00% 1 1 1.00%\nx 100 10 90.00% 50 5 90.00% 200 20 90.00% 30 3 90.00%\n";
    let r = monitor().get_result(report.as_bytes()).unwrap();
    assert_eq!(r.region_cov.total, 100);
}

#[test]
fn coverage_fragments_are_profraw_files() {
    let names = vec![
        "a-1.profraw".to_string(),
        "tmp.profdata".to_string(),
        "profraw".to_string(),
        "b-2.profraw".to_string(),
    ];
    assert_eq!(
        LLVMCoverageMonitor::profile_fragments(&names),
        vec!["a-1.profraw".to_string(), "b-2.profraw".to_string()]
    );
    let merge = monitor().merge(&names);
    assert_eq!(
        merge.shell_args,
        vec![
            "-c".to_string(),
            "llvm-profdata merge a-1.profraw b-2.profraw -o tmp.profdata".to_string()
        ]
    );
    assert_eq!(merge.cwd, Some("/prof".to_string()));
}

#[test]
fn coverage_report_command() {
    let cmd = monitor().report();
    assert_eq!(
        cmd.shell_args[1],
        "llvm-cov report --instr-profile /prof/tmp.profdata /bin/postgres"
    );
    assert!(cmd.piped);
}

#[test]
fn coverage_depends_on_last_line_only() {
    let last = "TOTAL 100 10 90.00% 50 5 90.00% 200 20 90.00% 30 3 90.00%\n";
    let a = format!("header\n---\n{}", last);
    let b = format!("something else entirely\n{}", last);
    assert_eq!(
        LLVMCoverageMonitor::parse_report(a.as_bytes()),
        LLVMCoverageMonitor::parse_report(b.as_bytes())
    );
    assert_eq!(
        LLVMCoverageMonitor::parse_report(a.as_bytes()),
        LLVMCoverageMonitor::parse_report(last.as_bytes())
    );
}
