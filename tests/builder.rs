use fuzzer_compare::builder::{
    cmake_build, cmake_config, git_clone, next_step, post_setup, BuildError, Probe,
    SetupProgress, Step, StepProgress, Target,
};
use fuzzer_compare::command::ShellCommand;
use fuzzer_compare::layout::{create_new_dir, DirOp, Workspace};

fn ws() -> Workspace {
    Workspace::new(&"/w".to_string())
}

fn kinds(steps: &[Step]) -> Vec<Option<BuildError>> {
    steps
        .iter()
        .map(|s| match s {
            Step::MakeDir(_) => None,
            Step::Run(_, e) => Some(*e),
        })
        .collect()
}

fn script(step: &Step) -> String {
    match step {
        Step::Run(c, _) => c.shell_args[1].clone(),
        Step::MakeDir(d) => d.clone(),
    }
}

const ALL: [Target; 5] =
    [Target::Squirrel, Target::Boost, Target::Postgresql, Target::Mysql, Target::Mariadb];

#[test]
fn installed_target_plans_no_command() {
    let done = Probe { installed: true, source: true, archive: true };
    for t in ALL {
        assert!(t.plan(&ws(), done).is_empty());
        assert!(t.plan(&ws(), done).is_empty());
    }
}

#[test]
fn fresh_target_fetches_then_builds() {
    let fresh = Probe { installed: false, source: false, archive: false };
    let pg = Target::Postgresql.plan(&ws(), fresh);
    assert_eq!(
        kinds(&pg),
        vec![
            Some(BuildError::Fetch),
            Some(BuildError::Fetch),
            Some(BuildError::Fetch),
            None,
            Some(BuildError::Configure),
            Some(BuildError::Compile),
            Some(BuildError::Install),
        ]
    );
    assert_eq!(
        script(&pg[0]),
        "wget https://ftp.postgresql.org/pub/source/v15.0/postgresql-15.0.tar.bz2"
    );
    assert_eq!(script(&pg[1]), "tar xvf /w/tmp/db/postgresql-15.0.tar.bz2");
    assert_eq!(script(&pg[2]), "mv postgresql-15.0 postgresql");
    assert_eq!(script(&pg[3]), "/w/tmp/db/postgresql/build");
    let my = Target::Mysql.plan(&ws(), fresh);
    assert_eq!(
        script(&my[0]),
        "git clone --recursive https://github.com/mysql/mysql-server.git /w/tmp/db/mysql"
    );
    assert_eq!(script(&my[1]), "git checkout 8.0");
    assert_eq!(script(&my[6]), "cmake --build /w/tmp/db/mysql/build --target install -j 6");
}

#[test]
fn cached_sources_skip_fetch() {
    let p = Probe { installed: false, source: true, archive: true };
    let ma = Target::Mariadb.plan(&ws(), p);
    assert_eq!(
        kinds(&ma),
        vec![
            None,
            None,
            Some(BuildError::Configure),
            Some(BuildError::Compile),
            Some(BuildError::Install),
        ]
    );
    let boost = Target::Boost.plan(&ws(), Probe { installed: false, source: false, archive: true });
    assert_eq!(kinds(&boost), vec![Some(BuildError::Fetch), Some(BuildError::Fetch)]);
}

#[test]
fn framework_builds_until_its_fuzzer_exists() {
    let p = Probe { installed: false, source: true, archive: false };
    let sq = Target::Squirrel.plan(&ws(), p);
    assert_eq!(sq.len(), 5);
    assert_eq!(script(&sq[4]), "make -j");
    assert!(Target::Squirrel.plan(&ws(), Probe { installed: true, ..p }).is_empty());
    assert_eq!(
        Target::Squirrel.done_marker(&ws()),
        "/w/tmp/fuzzers/squirrel/AFLplusplus/afl-fuzz"
    );
    assert_eq!(Target::Mysql.done_marker(&ws()), "/w/tmp/install/mysql");
}

#[test]
fn steps_stop_at_first_failure() {
    let steps = Target::Mariadb.plan(&ws(), Probe { installed: false, source: true, archive: true });
    assert_eq!(next_step(&steps, &vec![]), StepProgress::Next(0));
    assert_eq!(next_step(&steps, &vec![true, true]), StepProgress::Next(2));
    assert_eq!(
        next_step(&steps, &vec![true, true, false]),
        StepProgress::Finished(Err(BuildError::Configure))
    );
    assert_eq!(
        next_step(&steps, &vec![true, true, true, true, false]),
        StepProgress::Finished(Err(BuildError::Install))
    );
    assert_eq!(next_step(&steps, &vec![true; 5]), StepProgress::Finished(Ok(())));
    assert_eq!(
        next_step(&steps, &vec![false]),
        StepProgress::Finished(Err(BuildError::Configure))
    );
}

#[test]
fn setup_order_puts_shared_builds_first() {
    let mut p = SetupProgress::new();
    let mut order = Vec::new();
    while let Some(t) = p.next_target() {
        order.push(t);
        p.record(Ok(()));
    }
    assert_eq!(order, ALL.to_vec());
    assert_eq!(p.outcome(), Some(Ok(())));
}

#[test]
fn setup_stops_at_first_failure() {
    let mut p = fuzzer_compare::setup();
    assert_eq!(p.next_target(), Some(Target::Squirrel));
    p.record(Ok(()));
    assert_eq!(p.outcome(), None);
    assert_eq!(p.next_target(), Some(Target::Boost));
    p.record(Err(BuildError::Fetch));
    assert_eq!(p.next_target(), None);
    assert_eq!(p.outcome(), Some(Err(BuildError::Fetch)));
    assert_eq!(p.built, vec![Target::Squirrel]);
}

#[test]
fn step_outcome_carries_its_error() {
    let run = Step::Run(ShellCommand::new(), BuildError::Install);
    assert_eq!(run.outcome(true), Ok(()));
    assert_eq!(run.outcome(false), Err(BuildError::Install));
    assert_eq!(Step::MakeDir("/x".to_string()).outcome(false), Err(BuildError::Configure));
}

#[test]
fn cmake_commands() {
    let src = "/s".to_string();
    let steps = cmake_config(&src, None, &vec!["-DX=1".to_string()]);
    assert_eq!(script(&steps[0]), "/s/build");
    assert_eq!(
        script(&steps[1]),
        "cmake -S /s -B /s/build -DCMAKE_BUILD_TYPE=Release -DCMAKE_C_COMPILER=/usr/bin/clang -DCMAKE_CXX_COMPILER=/usr/bin/clang++ -DX=1"
    );
    let b = cmake_build(&src, Some(&"/b".to_string()), &vec![], Some("install"), Some(3));
    assert_eq!(script(&b), "cmake --build /b --target install -j 3");
    assert_eq!(b.outcome(false), Err(BuildError::Install));
    let capped = cmake_build(&src, None, &vec!["-v".to_string()], None, Some(64));
    assert_eq!(script(&capped), "cmake --build /s/build --target all -j 6 -v");
    assert_eq!(capped.outcome(false), Err(BuildError::Compile));
    let zero = cmake_build(&src, None, &vec![], None, Some(0));
    assert_eq!(script(&zero), "cmake --build /s/build --target all -j 0");
    assert_eq!(steps[0].outcome(false), Err(BuildError::Configure));
    assert_eq!(steps[1].outcome(false), Err(BuildError::Configure));
    let clone = git_clone("u", &"/d".to_string());
    assert_eq!(clone.shell_args[1], "git clone --recursive u /d");
    assert_eq!(clone.cwd, Some(".".to_string()));
}

#[test]
fn workspace_layout_and_reset() {
    let w = ws();
    assert_eq!(w.tmp_dir, "/w/tmp");
    assert_eq!(w.db_dir, "/w/tmp/db");
    assert_eq!(w.output_dir, "/w/tmp/output");
    let ops = w.pre_setup(true, false);
    assert_eq!(ops.len(), 8);
    assert!(matches!(&ops[5], DirOp::Remove(d) if d == "/w/tmp/test"));
    assert!(matches!(&ops[6], DirOp::Create(d) if d == "/w/tmp/test"));
    assert!(matches!(&ops[7], DirOp::Create(d) if d == "/w/tmp/output"));
    assert_eq!(create_new_dir(&"/a".to_string(), false).len(), 1);
    assert_eq!(post_setup(&w).shell_args[1], "cp -r /w/squirrel/ /w/tmp/config");
}

#[test]
fn test_shell_command() {
    let cmd = vec!["ls".to_string(), "-l".to_string(), "-a".to_string()];
    let c = ShellCommand::new().args(&cmd).current_dir(&".".to_string());
    assert_eq!(c.shell_args, vec!["-c".to_string(), "ls -l -a".to_string()]);
    assert_eq!(c.cwd, Some(".".to_string()));
    assert!(!c.piped);
}
