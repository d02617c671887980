use fuzzer_compare::layout::Workspace;
use fuzzer_compare::runner::{Engine, Runner, SquirrelRunner};

fn ws() -> Workspace {
    Workspace::new(&"/w".to_string())
}

fn under(p: &str, d: &str) -> bool {
    p == d || p.starts_with(&format!("{}/", d))
}

#[test]
fn sessions_use_disjoint_directories() {
    let plans = fuzzer_compare::launch_fuzzers(&ws());
    assert_eq!(plans.len(), 3);
    for (i, a) in plans.iter().enumerate() {
        for (j, b) in plans.iter().enumerate() {
            if i == j {
                continue;
            }
            for p in [&a.session_dir, &a.test_path, &a.data_dir, &a.prof_dir] {
                for q in [&b.session_dir, &b.test_path, &b.data_dir, &b.prof_dir] {
                    assert!(!under(p, q), "{} lies under {}", p, q);
                }
            }
        }
    }
}

#[test]
fn postgres_session_plan() {
    let p = SquirrelRunner::run_pgsql(&ws());
    assert_eq!(p.engine, Engine::Postgresql);
    assert_eq!(p.test_path, "/w/tmp/test/squirrel-pg/test");
    assert_eq!(p.data_dir, "/w/tmp/test/squirrel-pg/test/data");
    assert_eq!(p.init.shell_args[1], "/w/tmp/install/postgresql/bin/initdb -D $TEST_PATH/data");
    assert_eq!(
        p.fuzz.shell_args[1],
        "/w/tmp/fuzzers/squirrel/AFLplusplus/afl-fuzz -i /w/tmp/fuzzers/squirrel/data/fuzz_root/pqsql_input -o $TEST_PATH -t 120000 -S 1 -- /w/tmp/fuzzers/squirrel/build/db_driver"
    );
    assert_eq!(p.init.cwd, Some("/w/tmp/test".to_string()));
    assert_eq!(p.envs.len(), 14);
    assert!(p.envs.contains(&(
        "LLVM_PROFILE_FILE".to_string(),
        "/w/tmp/test/squirrel-pg/prof/squirrel-postgresql-%p-%m.profraw".to_string()
    )));
    assert_eq!(p.fuzz.envs, p.envs);
}

#[test]
fn mariadb_session_plan() {
    let p = SquirrelRunner::run_mariadb(&ws());
    assert_eq!(
        p.init.shell_args[1],
        "/w/tmp/install/mariadb/scripts/mariadb-install-db --basedir=/w/tmp/install/mariadb --datadir=/w/tmp/test/squirrel-ma/test/data/data"
    );
    assert!(p.fuzz.shell_args[1].contains("fuzz_root/mysql_input"));
    assert!(p.envs.contains(&(
        "MARIADB_INSTALL_PATH".to_string(),
        "/w/tmp/install/mariadb".to_string()
    )));
    let m = SquirrelRunner::run_mysql(&ws());
    assert!(m.envs.contains(&(
        "SQUIRREL_CONFIG".to_string(),
        "/w/tmp/config/squirrel/config_mysql.yml".to_string()
    )));
}
