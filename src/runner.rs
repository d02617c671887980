//! Fuzzing sessions: one per engine, each in a directory of its own, with its
//! own environment, database instance and fuzzer command.
use crate::command::{cat, join_words, pairs, push_string, push_word, words, ShellCommand};
use crate::layout::Workspace;
use vstd::prelude::*;

verus! {

/// The database engines that are fuzzed.
#[derive(Clone, Copy, Debug, PartialEq, Eq, Structural)]
pub enum Engine {
    Postgresql,
    Mysql,
    Mariadb,
}

pub open spec fn engine_tag(e: Engine) -> Seq<char> {
    match e {
        Engine::Postgresql => "pg"@,
        Engine::Mysql => "my"@,
        Engine::Mariadb => "ma"@,
    }
}

pub open spec fn engine_name(e: Engine) -> Seq<char> {
    match e {
        Engine::Postgresql => "postgresql"@,
        Engine::Mysql => "mysql"@,
        Engine::Mariadb => "mariadb"@,
    }
}

/// The seed corpus of each engine's grammar; the two MySQL dialects share one.
pub open spec fn corpus_name(e: Engine) -> Seq<char> {
    match e {
        Engine::Postgresql => "pqsql_input"@,
        Engine::Mysql => "mysql_input"@,
        Engine::Mariadb => "mysql_input"@,
    }
}

pub open spec fn mutator_name(e: Engine) -> Seq<char> {
    match e {
        Engine::Postgresql => "libpostgresql_mutator.so"@,
        Engine::Mysql => "libmysql_mutator.so"@,
        Engine::Mariadb => "libmysql_mutator.so"@,
    }
}

pub open spec fn install_var(e: Engine) -> Seq<char> {
    match e {
        Engine::Postgresql => "PGSQL_INSTALL_PATH"@,
        Engine::Mysql => "MYSQL_INSTALL_PATH"@,
        Engine::Mariadb => "MARIADB_INSTALL_PATH"@,
    }
}

/// The directory that a session owns alone.
pub open spec fn session_dir(test_dir: Seq<char>, e: Engine) -> Seq<char> {
    test_dir + "/squirrel-"@ + engine_tag(e)
}

pub open spec fn test_path(test_dir: Seq<char>, e: Engine) -> Seq<char> {
    session_dir(test_dir, e) + "/test"@
}

pub open spec fn data_path(test_dir: Seq<char>, e: Engine) -> Seq<char> {
    test_path(test_dir, e) + "/data"@
}

pub open spec fn prof_path(test_dir: Seq<char>, e: Engine) -> Seq<char> {
    session_dir(test_dir, e) + "/prof"@
}

/// Every directory that a session reads or writes.
pub open spec fn session_dirs(test_dir: Seq<char>, e: Engine) -> Seq<Seq<char>> {
    seq![
        session_dir(test_dir, e),
        test_path(test_dir, e),
        data_path(test_dir, e),
        prof_path(test_dir, e),
    ]
}

/// `p` is the directory `d` or lies below it.
pub open spec fn is_under(p: Seq<char>, d: Seq<char>) -> bool {
    p == d || (d + "/"@).is_prefix_of(p)
}

/// The environment that a session of `e` runs in.
pub open spec fn env_profile(ws: Workspace, e: Engine) -> Seq<(Seq<char>, Seq<char>)> {
    seq![
        ("AFL_CUSTOM_MUTATOR_ONLY"@, "1"@),
        ("AFL_CUSTOM_MUTATOR_LIBRARY"@, ws.fuzzers_dir@ + "/squirrel/build/"@ + mutator_name(e)),
        ("AFL_IGNORE_PROBLEMS"@, "1"@),
        ("AFL_DISABLE_TRIM"@, "1"@),
        ("AFL_MAP_SIZE"@, "2097152"@),
        ("AFL_I_DONT_CARE_ABOUT_MISSING_CRASHES"@, "1"@),
        ("AFL_AUTORESUME"@, "1"@),
        ("AFL_DEBUG"@, "1"@),
        ("AFL_NO_UI"@, "1"@),
        ("AFL_FORKSRV_INIT_TMOUT"@, "1000000"@),
        ("SQUIRREL_CONFIG"@, ws.config_dir@ + "/squirrel/config_"@ + engine_name(e) + ".yml"@),
        ("TEST_PATH"@, test_path(ws.test_dir@, e)),
        (install_var(e), ws.install_dir@ + "/"@ + engine_name(e)),
        (
            "LLVM_PROFILE_FILE"@,
            prof_path(ws.test_dir@, e) + "/squirrel-"@ + engine_name(e) + "-%p-%m.profraw"@,
        ),
    ]
}

/// The words of the command that initializes an empty database for `e`.
pub open spec fn init_words(ws: Workspace, e: Engine) -> Seq<Seq<char>> {
    match e {
        Engine::Postgresql => seq![
            ws.install_dir@ + "/postgresql/bin/initdb"@,
            "-D"@,
            "$TEST_PATH/data"@,
        ],
        Engine::Mysql => seq![ws.install_dir@ + "/mysql/bin/mysqld"@, "-D"@, "$TEST_PATH/data"@],
        Engine::Mariadb => seq![
            ws.install_dir@ + "/mariadb/scripts/mariadb-install-db"@,
            "--basedir="@ + ws.install_dir@ + "/mariadb"@,
            "--datadir="@ + data_path(ws.test_dir@, e) + "/data"@,
        ],
    }
}

/// The per-execution timeout of every session, in milliseconds.
pub open spec fn fuzz_timeout() -> Seq<char> {
    "120000"@
}

/// The words of the command that runs the fuzzer for `e`.
pub open spec fn fuzz_words(ws: Workspace, e: Engine) -> Seq<Seq<char>> {
    seq![
        ws.fuzzers_dir@ + "/squirrel/AFLplusplus/afl-fuzz"@,
        "-i"@,
        ws.fuzzers_dir@ + "/squirrel/data/fuzz_root/"@ + corpus_name(e),
        "-o"@,
        "$TEST_PATH"@,
        "-t"@,
        fuzz_timeout(),
        "-S"@,
        "1"@,
        "--"@,
        ws.fuzzers_dir@ + "/squirrel/build/db_driver"@,
    ]
}

/// Everything a session of one engine needs: its directories, its environment,
/// and the two commands run in turn, both from the workspace's test directory.
pub struct SessionPlan {
    pub engine: Engine,
    pub session_dir: String,
    pub test_path: String,
    pub data_dir: String,
    pub prof_dir: String,
    pub envs: Vec<(String, String)>,
    pub init: ShellCommand,
    pub fuzz: ShellCommand,
}

impl SessionPlan {
    pub open spec fn is_plan_for(&self, ws: Workspace, e: Engine) -> bool {
        &&& self.engine == e
        &&& self.session_dir@ == session_dir(ws.test_dir@, e)
        &&& self.test_path@ == test_path(ws.test_dir@, e)
        &&& self.data_dir@ == data_path(ws.test_dir@, e)
        &&& self.prof_dir@ == prof_path(ws.test_dir@, e)
        &&& pairs(self.envs@) == env_profile(ws, e)
        &&& self.init.args_view() == seq!["-c"@, join_words(init_words(ws, e))]
        &&& self.init.cwd_view() == Some(ws.test_dir@)
        &&& self.init.env_view() == env_profile(ws, e)
        &&& !self.init.piped
        &&& self.fuzz.args_view() == seq!["-c"@, join_words(fuzz_words(ws, e))]
        &&& self.fuzz.cwd_view() == Some(ws.test_dir@)
        &&& self.fuzz.env_view() == env_profile(ws, e)
        &&& !self.fuzz.piped
    }
}

fn tag_of(e: Engine) -> (r: &'static str)
    ensures
        r@ == engine_tag(e),
{
    match e {
        Engine::Postgresql => "pg",
        Engine::Mysql => "my",
        Engine::Mariadb => "ma",
    }
}

fn name_of(e: Engine) -> (r: &'static str)
    ensures
        r@ == engine_name(e),
{
    match e {
        Engine::Postgresql => "postgresql",
        Engine::Mysql => "mysql",
        Engine::Mariadb => "mariadb",
    }
}

fn corpus_of(e: Engine) -> (r: &'static str)
    ensures
        r@ == corpus_name(e),
{
    match e {
        Engine::Postgresql => "pqsql_input",
        _ => "mysql_input",
    }
}

fn mutator_of(e: Engine) -> (r: &'static str)
    ensures
        r@ == mutator_name(e),
{
    match e {
        Engine::Postgresql => "libpostgresql_mutator.so",
        _ => "libmysql_mutator.so",
    }
}

fn install_var_of(e: Engine) -> (r: &'static str)
    ensures
        r@ == install_var(e),
{
    match e {
        Engine::Postgresql => "PGSQL_INSTALL_PATH",
        Engine::Mysql => "MYSQL_INSTALL_PATH",
        Engine::Mariadb => "MARIADB_INSTALL_PATH",
    }
}

fn push_pair(v: &mut Vec<(String, String)>, k: &str, val: String)
    ensures
        pairs(final(v)@) == pairs(old(v)@).push((k@, val@)),
{
    v.push((String::from_str(k), val));
    assert(pairs(final(v)@) =~= pairs(old(v)@).push((k@, val@)));
}

fn one() -> (r: String)
    ensures
        r@ == "1"@,
{
    String::from_str("1")
}

/// The environment that a session of `e` runs in.
pub fn env_profile_of(ws: &Workspace, e: Engine) -> (r: Vec<(String, String)>)
    requires
        ws.wf(),
    ensures
        pairs(r@) == env_profile(*ws, e),
{
    let name = name_of(e);
    let mut v: Vec<(String, String)> = Vec::new();
    push_pair(&mut v, "AFL_CUSTOM_MUTATOR_ONLY", one());
    push_pair(
        &mut v,
        "AFL_CUSTOM_MUTATOR_LIBRARY",
        cat(&cat(&ws.fuzzers_dir, "/squirrel/build/"), mutator_of(e)),
    );
    push_pair(&mut v, "AFL_IGNORE_PROBLEMS", one());
    push_pair(&mut v, "AFL_DISABLE_TRIM", one());
    push_pair(&mut v, "AFL_MAP_SIZE", String::from_str("2097152"));
    push_pair(&mut v, "AFL_I_DONT_CARE_ABOUT_MISSING_CRASHES", one());
    push_pair(&mut v, "AFL_AUTORESUME", one());
    push_pair(&mut v, "AFL_DEBUG", one());
    push_pair(&mut v, "AFL_NO_UI", one());
    push_pair(&mut v, "AFL_FORKSRV_INIT_TMOUT", String::from_str("1000000"));
    push_pair(
        &mut v,
        "SQUIRREL_CONFIG",
        cat(&cat(&cat(&ws.config_dir, "/squirrel/config_"), name), ".yml"),
    );
    let session = cat(&cat(&ws.test_dir, "/squirrel-"), tag_of(e));
    push_pair(&mut v, "TEST_PATH", cat(&session, "/test"));
    push_pair(&mut v, install_var_of(e), cat(&cat(&ws.install_dir, "/"), name));
    push_pair(
        &mut v,
        "LLVM_PROFILE_FILE",
        cat(&cat(&cat(&cat(&session, "/prof"), "/squirrel-"), name), "-%p-%m.profraw"),
    );
    assert(pairs(v@) =~= env_profile(*ws, e));
    v
}

fn init_command_words(ws: &Workspace, e: Engine) -> (r: Vec<String>)
    requires
        ws.wf(),
    ensures
        words(r@) == init_words(*ws, e),
{
    let mut v: Vec<String> = Vec::new();
    match e {
        Engine::Postgresql => {
            push_string(&mut v, &cat(&ws.install_dir, "/postgresql/bin/initdb"));
            push_word(&mut v, "-D");
            push_word(&mut v, "$TEST_PATH/data");
        },
        Engine::Mysql => {
            push_string(&mut v, &cat(&ws.install_dir, "/mysql/bin/mysqld"));
            push_word(&mut v, "-D");
            push_word(&mut v, "$TEST_PATH/data");
        },
        Engine::Mariadb => {
            push_string(&mut v, &cat(&ws.install_dir, "/mariadb/scripts/mariadb-install-db"));
            let base = cat(&String::from_str("--basedir="), ws.install_dir.as_str());
            push_string(&mut v, &cat(&base, "/mariadb"));
            let data = cat(
                &cat(&cat(&cat(&ws.test_dir, "/squirrel-"), tag_of(e)), "/test"),
                "/data",
            );
            let arg = cat(&cat(&String::from_str("--datadir="), data.as_str()), "/data");
            push_string(&mut v, &arg);
        },
    }
    assert(words(v@) =~= init_words(*ws, e));
    v
}

fn fuzz_command_words(ws: &Workspace, e: Engine) -> (r: Vec<String>)
    requires
        ws.wf(),
    ensures
        words(r@) == fuzz_words(*ws, e),
{
    let mut v: Vec<String> = Vec::new();
    push_string(&mut v, &cat(&ws.fuzzers_dir, "/squirrel/AFLplusplus/afl-fuzz"));
    push_word(&mut v, "-i");
    push_string(&mut v, &cat(&cat(&ws.fuzzers_dir, "/squirrel/data/fuzz_root/"), corpus_of(e)));
    push_word(&mut v, "-o");
    push_word(&mut v, "$TEST_PATH");
    push_word(&mut v, "-t");
    push_word(&mut v, "120000");
    push_word(&mut v, "-S");
    push_word(&mut v, "1");
    push_word(&mut v, "--");
    push_string(&mut v, &cat(&ws.fuzzers_dir, "/squirrel/build/db_driver"));
    assert(words(v@) =~= fuzz_words(*ws, e));
    v
}

/// The session of `e` in the workspace `ws`.
pub fn session_plan(ws: &Workspace, e: Engine) -> (r: SessionPlan)
    requires
        ws.wf(),
    ensures
        r.is_plan_for(*ws, e),
{
    let session = cat(&cat(&ws.test_dir, "/squirrel-"), tag_of(e));
    let test = cat(&session, "/test");
    let data = cat(&test, "/data");
    let prof = cat(&session, "/prof");
    let envs = env_profile_of(ws, e);
    let init = ShellCommand::new().args(&init_command_words(ws, e)).current_dir(
        &ws.test_dir,
    ).envs(&envs);
    let fuzz = ShellCommand::new().args(&fuzz_command_words(ws, e)).current_dir(
        &ws.test_dir,
    ).envs(&envs);
    assert(init.args_view() =~= seq!["-c"@, join_words(init_words(*ws, e))]);
    assert(fuzz.args_view() =~= seq!["-c"@, join_words(fuzz_words(*ws, e))]);
    assert(init.env_view() =~= env_profile(*ws, e));
    assert(fuzz.env_view() =~= env_profile(*ws, e));
    SessionPlan {
        engine: e,
        session_dir: session,
        test_path: test,
        data_dir: data,
        prof_dir: prof,
        envs,
        init,
        fuzz,
    }
}

/// Runs one fuzzing session per engine.
pub trait Runner {
    fn run_pgsql(ws: &Workspace) -> (r: SessionPlan)
        requires
            ws.wf(),
        ensures
            r.is_plan_for(*ws, Engine::Postgresql),
    ;

    fn run_mysql(ws: &Workspace) -> (r: SessionPlan)
        requires
            ws.wf(),
        ensures
            r.is_plan_for(*ws, Engine::Mysql),
    ;

    fn run_mariadb(ws: &Workspace) -> (r: SessionPlan)
        requires
            ws.wf(),
        ensures
            r.is_plan_for(*ws, Engine::Mariadb),
    ;
}

/// Sessions driven by the Squirrel fuzzer.
pub struct SquirrelRunner;

impl Runner for SquirrelRunner {
    fn run_pgsql(ws: &Workspace) -> (r: SessionPlan) {
        session_plan(ws, Engine::Postgresql)
    }

    fn run_mysql(ws: &Workspace) -> (r: SessionPlan) {
        session_plan(ws, Engine::Mysql)
    }

    fn run_mariadb(ws: &Workspace) -> (r: SessionPlan) {
        session_plan(ws, Engine::Mariadb)
    }
}

/// Paths that begin with two different names of one length lie apart.
proof fn lemma_apart(p: Seq<char>, q: Seq<char>, a: Seq<char>, b: Seq<char>, k: int)
    requires
        a.len() == b.len(),
        0 <= k < a.len(),
        a[k] != b[k],
        a.is_prefix_of(p),
        b.is_prefix_of(q),
    ensures
        !is_under(p, q),
{
    assert(p[k] == a[k]);
    assert(q[k] == b[k]);
    if (q + "/"@).is_prefix_of(p) {
        assert((q + "/"@)[k] == q[k]);
    }
}

proof fn lemma_session_prefix(test_dir: Seq<char>, e: Engine, i: int)
    requires
        0 <= i < 4,
    ensures
        session_dir(test_dir, e).is_prefix_of(session_dirs(test_dir, e)[i]),
{
    let s = session_dir(test_dir, e);
    let t = test_path(test_dir, e);
    assert(s.is_prefix_of(s));
    assert(s.is_prefix_of(t)) by {
        assert(t.subrange(0, s.len() as int) =~= s);
    }
    assert(s.is_prefix_of(data_path(test_dir, e))) by {
        assert(data_path(test_dir, e).subrange(0, s.len() as int) =~= s);
    }
    assert(s.is_prefix_of(prof_path(test_dir, e))) by {
        assert(prof_path(test_dir, e).subrange(0, s.len() as int) =~= s);
    }
}

/// Sessions of two different engines share no directory: none that one of them
/// uses is, or lies below, one that the other uses.
pub proof fn lemma_sessions_isolated(test_dir: Seq<char>, e1: Engine, e2: Engine)
    requires
        e1 != e2,
    ensures
        forall|i: int, j: int|
            0 <= i < 4 && 0 <= j < 4 ==> !is_under(
                #[trigger] session_dirs(test_dir, e1)[i],
                #[trigger] session_dirs(test_dir, e2)[j],
            ),
{
    reveal_strlit("/squirrel-");
    reveal_strlit("pg");
    reveal_strlit("my");
    reveal_strlit("ma");
    let a = session_dir(test_dir, e1);
    let b = session_dir(test_dir, e2);
    let base: int = test_dir.len() as int + 10;
    let k: int = if engine_tag(e1)[0] != engine_tag(e2)[0] { base } else { base + 1 };
    assert(a[k] != b[k]);
    assert forall|i: int, j: int| 0 <= i < 4 && 0 <= j < 4 implies !is_under(
        #[trigger] session_dirs(test_dir, e1)[i],
        #[trigger] session_dirs(test_dir, e2)[j],
    ) by {
        lemma_session_prefix(test_dir, e1, i);
        lemma_session_prefix(test_dir, e2, j);
        lemma_apart(session_dirs(test_dir, e1)[i], session_dirs(test_dir, e2)[j], a, b, k);
    }
}

} // verus!
