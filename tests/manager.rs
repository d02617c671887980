use fuzzer_compare::clock::Timestamp;
use fuzzer_compare::layout::Workspace;
use fuzzer_compare::manager::{MonitorManager, MonitorManagerConfig, SampleError};

const STATUS: &str = "corpus_count : 42\nexecs_done : 1000\nsaved_crashes : 0\nedges_found : 500\nbitmap_cvg : 12.34%\n";
const REPORT: &str = "TOTAL 100 10 90.00% 50 5 90.00% 200 20 90.00% 30 3 90.00%\n";

fn at(minute: u32) -> Timestamp {
    Timestamp { year: 2024, month: 3, day: 9, hour: 7, minute, second: 5 }
}

fn manager() -> MonitorManager {
    let config = MonitorManagerConfig::new(
        "/o/squirrel-pg.csv".to_string(),
        "/t/fuzzer_stats".to_string(),
        "/i/postgres".to_string(),
        "/t/prof".to_string(),
    );
    MonitorManager::new("squirrel-pg".to_string(), config)
}

#[test]
fn log_grows_by_one_record_per_tick() {
    let mut m = manager();
    let mut log = m.header();
    let n = 4;
    for k in 0..n {
        let row = m.dump_to_csv(at(k * 5), STATUS.as_bytes(), REPORT.as_bytes()).unwrap();
        log.extend(row);
    }
    let text = String::from_utf8(log).unwrap();
    let lines: Vec<&str> = text.lines().collect();
    assert_eq!(lines.len(), n as usize + 1);
    assert_eq!(
        lines[0],
        "name,timestamp,case_num,cycle_num,crash_num,edge_covered,edge_percent,region_cov_percent,func_cov_percent,line_cov_percent,branch_cov_percent"
    );
    assert_eq!(
        lines[1],
        "squirrel-pg,2024-03-09 07:00:05,42,1000,0,500,12.34,90.00,90.00,90.00,90.00"
    );
    let stamps: Vec<&str> = lines[1..].iter().map(|l| l.split(',').nth(1).unwrap()).collect();
    let mut sorted = stamps.clone();
    sorted.sort();
    assert_eq!(stamps, sorted);
}

#[test]
fn malformed_report_records_nothing() {
    let mut m = manager();
    assert_eq!(
        m.dump_to_csv(at(0), STATUS.as_bytes(), b"TOTAL 1 2\n"),
        Err(SampleError::MalformedReport)
    );
    let bad = Timestamp { year: 12000, ..at(0) };
    assert_eq!(m.dump_to_csv(bad, STATUS.as_bytes(), REPORT.as_bytes()), Err(SampleError::Clock));
}

#[test]
fn missing_status_field_still_records() {
    let mut m = manager();
    let status = "corpus_count : 42\nexecs_done : 1000\nedges_found : 500\nbitmap_cvg : 12.34%\n";
    let row = m.dump_to_csv(at(1), status.as_bytes(), REPORT.as_bytes()).unwrap();
    assert_eq!(
        String::from_utf8(row).unwrap(),
        "squirrel-pg,2024-03-09 07:01:05,42,1000,-1,500,12.34,90.00,90.00,90.00,90.00\n"
    );
}

#[test]
fn timestamp_format() {
    assert_eq!(at(7).format(), "2024-03-09 07:07:05");
    assert!(at(7).is_printable());
    let r = manager().get_result(at(2), STATUS.as_bytes(), REPORT.as_bytes()).ok().unwrap();
    assert_eq!(r.timestamp, "2024-03-09 07:02:05");
    assert_eq!(r.afl_status.case_num, 42);
}

#[test]
fn monitors_watch_their_sessions() {
    let ws = Workspace::new(&"/w".to_string());
    let ms = fuzzer_compare::setup_monitor(&ws);
    assert_eq!(ms.len(), 3);
    assert_eq!(ms[0].name, "squirrel-pg");
    assert_eq!(ms[1].config.output_csv, "/w/tmp/output/squirrel-my.csv");
    assert_eq!(
        ms[2].afl_status_monitor.status_file,
        "/w/tmp/test/squirrel-ma/test/1/fuzzer_stats"
    );
    assert_eq!(ms[2].llvm_cov_monitor.exec_path, "/w/tmp/install/mariadb/bin/mariadbd");
    assert_eq!(ms[0].llvm_cov_monitor.profile_dir, "/w/tmp/test/squirrel-pg/prof");
}

#[test]
fn monitor_loop_samples_every_monitor() {
    let ws = Workspace::new(&"/w".to_string());
    let mut ms = fuzzer_compare::setup_monitor(&ws);
    let good = (STATUS.as_bytes().to_vec(), REPORT.as_bytes().to_vec());
    let bad = (STATUS.as_bytes().to_vec(), b"oops\n".to_vec());
    let out = fuzzer_compare::monitor_loop(&mut ms, at(3), &vec![good.clone(), bad, good]);
    assert_eq!(out.len(), 3);
    assert!(out[0].is_ok());
    assert_eq!(out[1], Err(SampleError::MalformedReport));
    assert!(String::from_utf8(out[2].clone().unwrap()).unwrap().starts_with("squirrel-ma,"));
}

#[test]
fn healthy_tick_after_failed_one_records() {
    let mut m = manager();
    assert!(m.dump_to_csv(at(0), STATUS.as_bytes(), b"").is_err());
    let row = m.dump_to_csv(at(5), STATUS.as_bytes(), REPORT.as_bytes()).unwrap();
    assert_eq!(
        String::from_utf8(row).unwrap(),
        "squirrel-pg,2024-03-09 07:05:05,42,1000,0,500,12.34,90.00,90.00,90.00,90.00\n"
    );
}
