//! The metrics recorder: one sample per engine and tick, stamped with the
//! local time and appended as one CSV record to that engine's log.
use crate::clock::{lemma_text_order, text_lt, ts_lt, Timestamp};
use crate::command::{cat, push_string, push_word, words};
use crate::coverage::{report_of, LLVMCoverageMonitor, LLVMCoverageResult, MonitorParseError};
use crate::layout::Workspace;
use crate::number::decimal_of;
use crate::runner::{engine_tag, prof_path, test_path, Engine};
use crate::render::{decimal_text, decimal_to_text, int_text, int_to_text};
use crate::status::{count_field, percent_field, percent_of, AflStatusMonitor, AflStautsResult};
use crate::text::MAX_SCALE;
use vstd::prelude::*;
use vstd::string::StringSliceAdditionalSpecFns;

verus! {

/// The bytes of one CSV record with the given fields, as the csv crate writes it.
pub uninterp spec fn csv_record(fields: Seq<Seq<char>>) -> Seq<u8>;

/// Relies on csv::Writer::write_record and csv::Writer::into_inner, writing
/// into memory: the bytes of one record, quoted and terminated as the crate
/// does by default. The first record of a writer passes its field-count check
/// and writing to or flushing a `Vec` cannot fail, so a record always comes out.
#[verifier::external_body]
fn encode_record(fields: &Vec<String>) -> (r: Option<Vec<u8>>)
    ensures
        r is Some,
        r matches Some(b) ==> b@ == csv_record(words(fields@)),
{
    let mut w = csv::Writer::from_writer(Vec::new());
    if w.write_record(fields.iter()).is_err() {
        return None;
    }
    w.into_inner().ok()
}

/// Why a tick recorded nothing for an engine.
#[derive(Clone, Copy, Debug, PartialEq, Eq, Structural)]
pub enum SampleError {
    /// The coverage report did not read as four groups of coverage.
    MalformedReport,
    /// The clock gave a time that the record format cannot hold.
    Clock,
}

/// Where one engine's monitor reads and writes.
#[derive(Clone)]
pub struct MonitorManagerConfig {
    pub output_csv: String,
    pub afl_status_file: String,
    pub llvm_exec_path: String,
    pub llvm_prof_dir: String,
}

impl MonitorManagerConfig {
    pub fn new(
        output_csv: String,
        afl_status_file: String,
        llvm_exec_path: String,
        llvm_prof_dir: String,
    ) -> (r: Self)
        ensures
            r.output_csv@ == output_csv@,
            r.afl_status_file@ == afl_status_file@,
            r.llvm_exec_path@ == llvm_exec_path@,
            r.llvm_prof_dir@ == llvm_prof_dir@,
    {
        Self { output_csv, afl_status_file, llvm_exec_path, llvm_prof_dir }
    }
}

/// One engine's sample at one time.
pub struct MonitorManagerResult {
    pub name: String,
    pub timestamp: String,
    pub afl_status: AflStautsResult,
    pub llvm_cov: LLVMCoverageResult,
}

/// The column names, written once at the head of every log.
pub open spec fn header_fields() -> Seq<Seq<char>> {
    seq![
        "name"@,
        "timestamp"@,
        "case_num"@,
        "cycle_num"@,
        "crash_num"@,
        "edge_covered"@,
        "edge_percent"@,
        "region_cov_percent"@,
        "func_cov_percent"@,
        "line_cov_percent"@,
        "branch_cov_percent"@,
    ]
}

/// The fields of the record of one sample.
pub open spec fn record_fields(
    name: Seq<char>,
    now: Timestamp,
    a: AflStautsResult,
    c: LLVMCoverageResult,
) -> Seq<Seq<char>> {
    seq![
        name,
        now.text(),
        int_text(a.case_num as int),
        int_text(a.cycle_num as int),
        int_text(a.crash_num as int),
        int_text(a.edge_covered as int),
        decimal_text(a.edge_percent),
        decimal_text(c.region_cov.percent),
        decimal_text(c.func_cov.percent),
        decimal_text(c.line_cov.percent),
        decimal_text(c.branch_cov.percent),
    ]
}

/// The sample that a status file's text and a coverage report's text give.
pub open spec fn status_of(s: Seq<u8>) -> AflStautsResult {
    AflStautsResult {
        case_num: count_field(s, "corpus_count".spec_bytes()) as i32,
        cycle_num: count_field(s, "execs_done".spec_bytes()) as i32,
        crash_num: count_field(s, "saved_crashes".spec_bytes()) as i32,
        edge_covered: count_field(s, "edges_found".spec_bytes()) as i32,
        edge_percent: percent_field(s, "bitmap_cvg".spec_bytes()),
    }
}

proof fn lemma_decimal_scale(s: Seq<u8>)
    ensures
        decimal_of(s) matches Some(d) ==> d.scale <= MAX_SCALE,
{
}

proof fn lemma_percent_scale(v: Seq<u8>)
    ensures
        percent_of(v) matches Some(d) ==> d.scale <= MAX_SCALE,
{
    if v.len() > 0 {
        lemma_decimal_scale(v.drop_last());
    }
}

proof fn lemma_field_scale(s: Seq<u8>, key: Seq<u8>)
    ensures
        percent_field(s, key).scale <= MAX_SCALE,
{
    if let Some(v) = crate::status::field_from(s, key, 0) {
        lemma_percent_scale(v);
    }
}

proof fn lemma_report_scales(s: Seq<u8>)
    ensures
        report_of(s) matches Some(c) ==> {
            &&& c.region_cov.percent.scale <= MAX_SCALE
            &&& c.func_cov.percent.scale <= MAX_SCALE
            &&& c.line_cov.percent.scale <= MAX_SCALE
            &&& c.branch_cov.percent.scale <= MAX_SCALE
        },
{
    let hi = crate::coverage::last_line_end(s);
    if let Some(w) = crate::coverage::take_words(
        s,
        crate::coverage::line_start(s, hi),
        hi,
        crate::coverage::REPORT_WORDS as nat,
    ) {
        lemma_percent_scale(w[3]);
        lemma_percent_scale(w[6]);
        lemma_percent_scale(w[9]);
        lemma_percent_scale(w[12]);
    }
}

/// The monitor of one engine and the model of its log: the records written,
/// header first, and the time of each sample recorded since.
pub struct MonitorManager {
    pub name: String,
    pub config: MonitorManagerConfig,
    pub afl_status_monitor: AflStatusMonitor,
    pub llvm_cov_monitor: LLVMCoverageMonitor,
    pub records: Ghost<Seq<Seq<Seq<char>>>>,
    pub stamps: Ghost<Seq<Timestamp>>,
}

impl MonitorManager {
    pub open spec fn wf(&self) -> bool {
        &&& self.records@.len() == self.stamps@.len() + 1
        &&& self.records@[0] == header_fields()
        &&& forall|i: int| 0 <= i < self.stamps@.len() ==> (#[trigger] self.stamps@[i]).printable()
        &&& forall|i: int|
            0 <= i < self.stamps@.len() ==> (#[trigger] self.records@[i + 1])[1]
                == self.stamps@[i].text() && self.records@[i + 1][0] == self.name@
    }

    /// A monitor whose log holds its header alone.
    pub fn new(name: String, config: MonitorManagerConfig) -> (r: Self)
        ensures
            r.wf(),
            r.name@ == name@,
            r.records@ == seq![header_fields()],
            r.stamps@.len() == 0,
            r.config.output_csv@ == config.output_csv@,
            r.afl_status_monitor.status_file@ == config.afl_status_file@,
            r.llvm_cov_monitor.exec_path@ == config.llvm_exec_path@,
            r.llvm_cov_monitor.profile_dir@ == config.llvm_prof_dir@,
    {
        let afl = AflStatusMonitor::new(config.afl_status_file.clone());
        let llvm = LLVMCoverageMonitor::new(
            config.llvm_exec_path.clone(),
            config.llvm_prof_dir.clone(),
        );
        let ghost head = seq![header_fields()];
        MonitorManager {
            name,
            config,
            afl_status_monitor: afl,
            llvm_cov_monitor: llvm,
            records: Ghost(head),
            stamps: Ghost(Seq::empty()),
        }
    }

    /// The bytes of the header record that opens the log.
    pub fn header(&self) -> (r: Vec<u8>)
        ensures
            r@ == csv_record(header_fields()),
    {
        let mut f: Vec<String> = Vec::new();
        push_word(&mut f, "name");
        push_word(&mut f, "timestamp");
        push_word(&mut f, "case_num");
        push_word(&mut f, "cycle_num");
        push_word(&mut f, "crash_num");
        push_word(&mut f, "edge_covered");
        push_word(&mut f, "edge_percent");
        push_word(&mut f, "region_cov_percent");
        push_word(&mut f, "func_cov_percent");
        push_word(&mut f, "line_cov_percent");
        push_word(&mut f, "branch_cov_percent");
        assert(words(f@) =~= header_fields());
        encode_record(&f).unwrap()
    }

    /// The sample taken at `now` from the status file's text and the report's
    /// text: it fails only where the time cannot be written or the report does
    /// not read as coverage.
    pub fn get_result(&self, now: Timestamp, status: &[u8], report: &[u8]) -> (r: Result<
        MonitorManagerResult,
        SampleError,
    >)
        ensures
            r matches Ok(res) ==> {
                &&& now.printable()
                &&& report_of(report@) == Some(res.llvm_cov)
                &&& res.afl_status == status_of(status@)
                &&& res.name@ == self.name@
                &&& res.timestamp@ == now.text()
            },
            r == Err::<MonitorManagerResult, SampleError>(SampleError::Clock) <==> !now.printable(),
            r == Err::<MonitorManagerResult, SampleError>(SampleError::MalformedReport) <==> (
            now.printable() && report_of(report@) is None),
            r is Ok <==> now.printable() && report_of(report@) is Some,
    {
        if !now.is_printable() {
            return Err(SampleError::Clock);
        }
        let llvm_cov = match self.llvm_cov_monitor.get_result(report) {
            Ok(c) => c,
            Err(MonitorParseError) => return Err(SampleError::MalformedReport),
        };
        Ok(
            MonitorManagerResult {
                name: self.name.clone(),
                timestamp: now.format(),
                afl_status: self.afl_status_monitor.get_result(status),
                llvm_cov,
            },
        )
    }

    /// Records the sample taken at `now`: the bytes of one record to append to
    /// the log, and the log's model grows by exactly that record. It fails, and
    /// the log stays as it was, only where the time cannot be written or the
    /// report does not read as coverage.
    pub fn dump_to_csv(&mut self, now: Timestamp, status: &[u8], report: &[u8]) -> (r: Result<
        Vec<u8>,
        SampleError,
    >)
        requires
            old(self).wf(),
        ensures
            final(self).wf(),
            final(self).name == old(self).name,
            r matches Ok(b) ==> {
                &&& report_of(report@) matches Some(c)
                &&& b@ == csv_record(
                    record_fields(old(self).name@, now, status_of(status@), c),
                )
                &&& final(self).records@ == old(self).records@.push(
                    record_fields(old(self).name@, now, status_of(status@), c),
                )
                &&& final(self).stamps@ == old(self).stamps@.push(now)
            },
            r is Err ==> final(self).records@ == old(self).records@ && final(self).stamps@
                == old(self).stamps@,
            !now.printable() ==> r == Err::<Vec<u8>, SampleError>(SampleError::Clock),
            now.printable() && report_of(report@) is None ==> r == Err::<Vec<u8>, SampleError>(
                SampleError::MalformedReport,
            ),
            now.printable() && report_of(report@) is Some ==> r is Ok,
    {
        let res = match self.get_result(now, status, report) {
            Ok(res) => res,
            Err(e) => return Err(e),
        };
        proof {
            lemma_field_scale(status@, "bitmap_cvg".spec_bytes());
            lemma_report_scales(report@);
        }
        let mut f: Vec<String> = Vec::new();
        push_string(&mut f, &res.name);
        push_string(&mut f, &res.timestamp);
        push_string(&mut f, &int_to_text(res.afl_status.case_num as i64));
        push_string(&mut f, &int_to_text(res.afl_status.cycle_num as i64));
        push_string(&mut f, &int_to_text(res.afl_status.crash_num as i64));
        push_string(&mut f, &int_to_text(res.afl_status.edge_covered as i64));
        push_string(&mut f, &decimal_to_text(res.afl_status.edge_percent));
        push_string(&mut f, &decimal_to_text(res.llvm_cov.region_cov.percent));
        push_string(&mut f, &decimal_to_text(res.llvm_cov.func_cov.percent));
        push_string(&mut f, &decimal_to_text(res.llvm_cov.line_cov.percent));
        push_string(&mut f, &decimal_to_text(res.llvm_cov.branch_cov.percent));
        let ghost fields = record_fields(self.name@, now, status_of(status@), res.llvm_cov);
        assert(words(f@) =~= fields);
        let b = encode_record(&f).unwrap();
        let ghost old_records = self.records@;
        let ghost old_stamps = self.stamps@;
        self.records = Ghost(self.records@.push(fields));
        self.stamps = Ghost(self.stamps@.push(now));
        assert forall|i: int| 0 <= i < self.stamps@.len() implies (
        #[trigger] self.records@[i + 1])[1] == self.stamps@[i].text()
            && self.records@[i + 1][0] == self.name@ by {
            if i < old_stamps.len() {
                assert(self.records@[i + 1] == old_records[i + 1]);
            }
        }
        assert forall|i: int| 0 <= i < self.stamps@.len() implies (
        #[trigger] self.stamps@[i]).printable() by {
            if i < old_stamps.len() {
                assert(self.stamps@[i] == old_stamps[i]);
            }
        }
        Ok(b)
    }
}

/// A log holds its header and then exactly one record per sample recorded, in
/// the order recorded, each stamped with the time it was taken and named after
/// its engine: after `n` recorded ticks it has `n + 1` records. Where the clock
/// never went back between ticks, the timestamps of the records never decrease.
pub proof fn lemma_log_append_only(m: MonitorManager)
    requires
        m.wf(),
    ensures
        m.records@.len() == m.stamps@.len() + 1,
        m.records@[0] == header_fields(),
        forall|i: int|
            1 <= i < m.records@.len() ==> (#[trigger] m.records@[i])[1] == m.stamps@[i - 1].text(),
        (forall|i: int, j: int|
            0 <= i < j < m.stamps@.len() ==> !ts_lt(#[trigger] m.stamps@[j], #[trigger] m.stamps@[i]))
            ==> forall|i: int, j: int|
            1 <= i < j < m.records@.len() ==> (#[trigger] m.records@[i])[1] == (
            #[trigger] m.records@[j])[1] || text_lt(m.records@[i][1], m.records@[j][1]),
{
    assert forall|i: int| 1 <= i < m.records@.len() implies (#[trigger] m.records@[i])[1]
        == m.stamps@[i - 1].text() by {
        assert(m.records@[(i - 1) + 1] == m.records@[i]);
    }
    if forall|i: int, j: int|
        0 <= i < j < m.stamps@.len() ==> !ts_lt(#[trigger] m.stamps@[j], #[trigger] m.stamps@[i]) {
        assert forall|i: int, j: int| 1 <= i < j < m.records@.len() implies (
        #[trigger] m.records@[i])[1] == (#[trigger] m.records@[j])[1] || text_lt(
            m.records@[i][1],
            m.records@[j][1],
        ) by {
            let a = m.stamps@[i - 1];
            let b = m.stamps@[j - 1];
            assert(m.records@[(i - 1) + 1] == m.records@[i]);
            assert(m.records@[(j - 1) + 1] == m.records@[j]);
            assert(!ts_lt(b, a));
            if a != b {
                assert(ts_lt(a, b));
                lemma_text_order(a, b);
            }
        }
    }
}

pub open spec fn server_binary(e: Engine) -> Seq<char> {
    match e {
        Engine::Postgresql => "/postgresql/bin/postgres"@,
        Engine::Mysql => "/mysql/bin/mysqld"@,
        Engine::Mariadb => "/mariadb/bin/mariadbd"@,
    }
}

/// The name under which an engine's samples are recorded.
pub open spec fn monitor_name(e: Engine) -> Seq<char> {
    "squirrel-"@ + engine_tag(e)
}

impl MonitorManager {
    /// Whether this monitor watches the session of `e` in `ws`: its log, the
    /// fuzzer's status file, the installed server and the profile directory.
    pub open spec fn watches(&self, ws: Workspace, e: Engine) -> bool {
        &&& self.name@ == monitor_name(e)
        &&& self.config.output_csv@ == ws.output_dir@ + "/"@ + monitor_name(e) + ".csv"@
        &&& self.afl_status_monitor.status_file@ == test_path(ws.test_dir@, e) + "/1/fuzzer_stats"@
        &&& self.llvm_cov_monitor.exec_path@ == ws.install_dir@ + server_binary(e)
        &&& self.llvm_cov_monitor.profile_dir@ == prof_path(ws.test_dir@, e)
    }
}

fn server_binary_of(e: Engine) -> (r: &'static str)
    ensures
        r@ == server_binary(e),
{
    match e {
        Engine::Postgresql => "/postgresql/bin/postgres",
        Engine::Mysql => "/mysql/bin/mysqld",
        Engine::Mariadb => "/mariadb/bin/mariadbd",
    }
}

fn tag_str(e: Engine) -> (r: &'static str)
    ensures
        r@ == engine_tag(e),
{
    match e {
        Engine::Postgresql => "pg",
        Engine::Mysql => "my",
        Engine::Mariadb => "ma",
    }
}

/// The monitor of the session of `e`, its log holding the header alone.
pub fn monitor_for(ws: &Workspace, e: Engine) -> (r: MonitorManager)
    requires
        ws.wf(),
    ensures
        r.wf(),
        r.watches(*ws, e),
        r.stamps@.len() == 0,
{
    let name = cat(&String::from_str("squirrel-"), tag_str(e));
    let session = cat(&cat(&ws.test_dir, "/"), name.as_str());
    let config = MonitorManagerConfig::new(
        cat(&cat(&cat(&ws.output_dir, "/"), name.as_str()), ".csv"),
        cat(&session, "/test/1/fuzzer_stats"),
        cat(&ws.install_dir, server_binary_of(e)),
        cat(&session, "/prof"),
    );
    proof {
        assert(session@ + "/test/1/fuzzer_stats"@ =~= test_path(ws.test_dir@, e) + "/1/fuzzer_stats"@) by {
            reveal_strlit("/test/1/fuzzer_stats");
            reveal_strlit("/1/fuzzer_stats");
            reveal_strlit("/test");
            reveal_strlit("/squirrel-");
            reveal_strlit("squirrel-");
            reveal_strlit("/");
        }
        assert(session@ + "/prof"@ =~= prof_path(ws.test_dir@, e)) by {
            reveal_strlit("/squirrel-");
            reveal_strlit("squirrel-");
            reveal_strlit("/");
        }
    }
    assert(config.output_csv@ =~= ws.output_dir@ + "/"@ + monitor_name(e) + ".csv"@);
    MonitorManager::new(name, config)
}

} // verus!
