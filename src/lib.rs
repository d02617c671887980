//! Orchestration of a comparative fuzzing campaign against several database
//! engines: build plans, session plans, and the parsing and recording of
//! progress samples.
use vstd::prelude::*;

pub mod builder;
pub mod clock;
pub mod command;
pub mod coverage;
pub mod layout;
pub mod manager;
pub mod monitor;
pub mod number;
pub mod render;
pub mod runner;
pub mod status;
pub mod text;
pub mod utils;

pub use builder::setup;

use layout::Workspace;
use clock::Timestamp;
use manager::{monitor_for, MonitorManager, SampleError};
use runner::{Engine, Runner, SessionPlan, SquirrelRunner};

verus! {

/// The monitors of the three engines' sessions, each log holding its header alone.
pub fn setup_monitor(ws: &Workspace) -> (r: Vec<MonitorManager>)
    requires
        ws.wf(),
    ensures
        r@.len() == 3,
        r@[0].watches(*ws, Engine::Postgresql),
        r@[1].watches(*ws, Engine::Mysql),
        r@[2].watches(*ws, Engine::Mariadb),
        forall|i: int| 0 <= i < 3 ==> (#[trigger] r@[i]).wf() && r@[i].stamps@.len() == 0,
{
    let mut v: Vec<MonitorManager> = Vec::new();
    v.push(monitor_for(ws, Engine::Postgresql));
    v.push(monitor_for(ws, Engine::Mysql));
    v.push(monitor_for(ws, Engine::Mariadb));
    v
}

/// Takes one sample of every monitor at `now` and returns, for each, the
/// bytes to append to its log or why nothing was recorded; `samples[i]` holds
/// the status file's text and the coverage report's text of monitor `i`.
pub fn monitor_loop(
    monitors: &mut Vec<MonitorManager>,
    now: Timestamp,
    samples: &Vec<(Vec<u8>, Vec<u8>)>,
) -> (r: Vec<Result<Vec<u8>, SampleError>>)
    requires
        old(monitors)@.len() == samples@.len(),
        forall|i: int| 0 <= i < old(monitors)@.len() ==> (#[trigger] old(monitors)@[i]).wf(),
    ensures
        r@.len() == samples@.len(),
        final(monitors)@.len() == old(monitors)@.len(),
        forall|i: int| 0 <= i < final(monitors)@.len() ==> #[trigger] ticked(
            old(monitors)@[i],
            final(monitors)@[i],
            now,
            samples@[i],
            r@[i],
        ),
{
    let mut out: Vec<Result<Vec<u8>, SampleError>> = Vec::new();
    let n = monitors.len();
    let mut i: usize = 0;
    while i < n
        invariant
            n == monitors@.len() == old(monitors)@.len() == samples@.len(),
            i <= n,
            out@.len() == i,
            forall|j: int| i <= j < n ==> monitors@[j] == old(monitors)@[j],
            forall|j: int|
                0 <= j < i ==> #[trigger] ticked(
                    old(monitors)@[j],
                    monitors@[j],
                    now,
                    samples@[j],
                    out@[j],
                ),
            forall|j: int| 0 <= j < n ==> (#[trigger] old(monitors)@[j]).wf(),
        decreases n - i,
    {
        let ghost before = monitors@;
        let status = samples[i].0.as_slice();
        let report = samples[i].1.as_slice();
        assert(report@ == samples@[i as int].1@);
        assert(status@ == samples@[i as int].0@);
        let ghost out_before = out@;
        let res = monitors[i].dump_to_csv(now, status, report);
        assert(monitors@ == before.update(i as int, monitors@[i as int]));
        out.push(res);
        proof {
            assert forall|j: int| 0 <= j < i + 1 implies #[trigger] ticked(
                old(monitors)@[j],
                monitors@[j],
                now,
                samples@[j],
                out@[j],
            ) by {
                if j < i {
                    assert(monitors@[j] == before[j]);
                    assert(out@[j] == out_before[j]);
                } else {
                    assert(before[j] == old(monitors)@[j]);
                    assert(out@[j] == res);
                }
            }
        }
        i = i + 1;
    }
    out
}

/// One monitor's tick: `after` is `before` with the sample's record appended
/// where `r` is `Ok` (with that record's bytes), and unchanged where `r` is
/// `Err`; a printable time and a report that reads as coverage always record.
pub open spec fn ticked(
    before: MonitorManager,
    after: MonitorManager,
    now: Timestamp,
    sample: (Vec<u8>, Vec<u8>),
    r: Result<Vec<u8>, SampleError>,
) -> bool {
    &&& after.wf()
    &&& after.name == before.name
    &&& (r matches Ok(b) ==> {
        &&& coverage::report_of(sample.1@) matches Some(c)
        &&& b@ == manager::csv_record(
            manager::record_fields(before.name@, now, manager::status_of(sample.0@), c),
        )
        &&& after.records@ == before.records@.push(
            manager::record_fields(before.name@, now, manager::status_of(sample.0@), c),
        )
        &&& after.stamps@ == before.stamps@.push(now)
    })
    &&& (r is Err ==> after.records@ == before.records@ && after.stamps@ == before.stamps@)
    &&& (now.printable() && coverage::report_of(sample.1@) is Some ==> r is Ok)
}

/// The sessions of the three engines, to be run side by side.
pub fn launch_fuzzers(ws: &Workspace) -> (r: Vec<SessionPlan>)
    requires
        ws.wf(),
    ensures
        r@.len() == 3,
        r@[0].is_plan_for(*ws, Engine::Postgresql),
        r@[1].is_plan_for(*ws, Engine::Mysql),
        r@[2].is_plan_for(*ws, Engine::Mariadb),
{
    let mut v: Vec<SessionPlan> = Vec::new();
    v.push(SquirrelRunner::run_pgsql(ws));
    v.push(SquirrelRunner::run_mysql(ws));
    v.push(SquirrelRunner::run_mariadb(ws));
    v
}

} // verus!
