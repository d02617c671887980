//! Build plans: what fetches, configures, compiles and installs each target,
//! given what already exists on disk.
use crate::command::{cat, join_words, push_string, push_word, words, ShellCommand};
use crate::layout::Workspace;
use vstd::prelude::*;

verus! {

/// The most compile jobs that a build may run at once.
pub const NPROCS: u8 = 6;

pub const CFLAGS: &'static str = "-fprofile-instr-generate -fcoverage-mapping";

pub const PGSQL_VERSION: &'static str = "15.0";

pub const BOOST_VERSION: &'static str = "1.77.0";

pub const BOOST_VERSION_1: &'static str = "1_77_0";

pub const MYSQL_VERSION: &'static str = "8.0";

pub const MYSQL_TCP_PORT: &'static str = "3307";

pub const MYSQL_UNIX_ADDR: &'static str = "/tmp/another_mysql.sock";

pub const MARIADB_VERSION: &'static str = "10.5";

/// Why a build stopped.
#[derive(Clone, Copy, Debug, PartialEq, Eq, Structural)]
pub enum BuildError {
    /// Fetching the sources failed.
    Fetch,
    /// Configuring the native build failed.
    Configure,
    /// Compiling failed.
    Compile,
    /// Installing failed.
    Install,
    /// A workspace directory could not be made afresh, or the fuzzer's
    /// configuration could not be copied into the workspace.
    Filesystem,
}

/// One step of a build: a build directory to create, which belongs to
/// configuring, or a command that must exit with status 0, else the build
/// stops with the error it carries.
pub enum Step {
    MakeDir(String),
    Run(ShellCommand, BuildError),
}

impl Step {
    /// The error that the build stops with where the step fails.
    pub open spec fn kind(&self) -> BuildError {
        match self {
            Step::MakeDir(_) => BuildError::Configure,
            Step::Run(_, e) => *e,
        }
    }
}

/// A step as plain values: the directory it creates, or the command it runs.
pub enum StepView {
    Dir(Seq<char>),
    Cmd {
        args: Seq<Seq<char>>,
        cwd: Option<Seq<char>>,
        env: Seq<(Seq<char>, Seq<char>)>,
        piped: bool,
        err: BuildError,
    },
}

impl Step {
    pub open spec fn view(&self) -> StepView {
        match self {
            Step::MakeDir(d) => StepView::Dir(d@),
            Step::Run(c, e) => StepView::Cmd {
                args: c.args_view(),
                cwd: c.cwd_view(),
                env: c.env_view(),
                piped: c.piped,
                err: *e,
            },
        }
    }
}

pub open spec fn views(steps: Seq<Step>) -> Seq<StepView> {
    steps.map_values(|s: Step| s.view())
}

/// The shell runs the words `w` in `cwd`, with no overrides and its streams
/// inherited; the build stops with `e` where it fails.
pub open spec fn sh(cwd: Seq<char>, w: Seq<Seq<char>>, e: BuildError) -> StepView {
    StepView::Cmd {
        args: seq!["-c"@, join_words(w)],
        cwd: Some(cwd),
        env: Seq::empty(),
        piped: false,
        err: e,
    }
}

pub open spec fn is_plain(c: ShellCommand) -> bool {
    c.env_view() == Seq::<(Seq<char>, Seq<char>)>::empty() && !c.piped
}

/// What was found on disk before a target's build: its finished output, its
/// sources, and its downloaded archive, where it has one.
#[derive(Clone, Copy, Debug, PartialEq, Eq, Structural)]
pub struct Probe {
    pub installed: bool,
    pub source: bool,
    pub archive: bool,
}

/// The command that clones `url` with its submodules into `location`.
pub fn git_clone(url: &str, location: &String) -> (r: ShellCommand)
    ensures
        r.args_view() == seq![
            "-c"@,
            join_words(seq!["git"@, "clone"@, "--recursive"@, url@, location@]),
        ],
        r.cwd_view() == Some("."@),
        is_plain(r),
{
    let mut cmd: Vec<String> = Vec::new();
    push_word(&mut cmd, "git");
    push_word(&mut cmd, "clone");
    push_word(&mut cmd, "--recursive");
    push_word(&mut cmd, url);
    push_string(&mut cmd, location);
    assert(words(cmd@) =~= seq!["git"@, "clone"@, "--recursive"@, url@, location@]);
    let r = ShellCommand::new().args(&cmd).current_dir(&String::from_str("."));
    assert(r.args_view() =~= seq!["-c"@, join_words(words(cmd@))]);
    r
}

/// The build directory: `bin_dir`, or `build` under the sources.
pub open spec fn bin_dir_of(src_dir: Seq<char>, bin_dir: Option<Seq<char>>) -> Seq<char> {
    match bin_dir {
        Some(b) => b,
        None => src_dir + "/build"@,
    }
}

pub open spec fn opt_view(o: Option<&String>) -> Option<Seq<char>> {
    match o {
        Some(s) => Some(s@),
        None => None,
    }
}

fn bin_dir_or_default(src_dir: &String, bin_dir: Option<&String>) -> (r: String)
    ensures
        r@ == bin_dir_of(src_dir@, opt_view(bin_dir)),
{
    match bin_dir {
        Some(b) => b.clone(),
        None => cat(src_dir, "/build"),
    }
}

/// The words of a release configure of the CMake project `src_dir` into `bin`.
pub open spec fn cmake_config_words(src_dir: Seq<char>, bin: Seq<char>, vars: Seq<Seq<char>>) -> Seq<
    Seq<char>,
> {
    seq![
        "cmake"@,
        "-S"@,
        src_dir,
        "-B"@,
        bin,
        "-DCMAKE_BUILD_TYPE=Release"@,
        "-DCMAKE_C_COMPILER=/usr/bin/clang"@,
        "-DCMAKE_CXX_COMPILER=/usr/bin/clang++"@,
    ] + vars
}

/// The configure steps of a CMake project: create its build directory, then
/// configure a release build with clang and the extra variables `vars`.
pub fn cmake_config(src_dir: &String, bin_dir: Option<&String>, vars: &Vec<String>) -> (r: Vec<
    Step,
>)
    ensures
        views(r@) == seq![
            StepView::Dir(bin_dir_of(src_dir@, opt_view(bin_dir))),
            sh(
                src_dir@,
                cmake_config_words(src_dir@, bin_dir_of(src_dir@, opt_view(bin_dir)), words(vars@)),
                BuildError::Configure,
            ),
        ],
{
    let bin = bin_dir_or_default(src_dir, bin_dir);
    let mut cmd: Vec<String> = Vec::new();
    push_word(&mut cmd, "cmake");
    push_word(&mut cmd, "-S");
    push_string(&mut cmd, src_dir);
    push_word(&mut cmd, "-B");
    push_string(&mut cmd, &bin);
    push_word(&mut cmd, "-DCMAKE_BUILD_TYPE=Release");
    push_word(&mut cmd, "-DCMAKE_C_COMPILER=/usr/bin/clang");
    push_word(&mut cmd, "-DCMAKE_CXX_COMPILER=/usr/bin/clang++");
    let ghost head = words(cmd@);
    let mut i: usize = 0;
    while i < vars.len()
        invariant
            i <= vars@.len(),
            words(cmd@) == head + words(vars@).subrange(0, i as int),
        decreases vars@.len() - i,
    {
        push_string(&mut cmd, &vars[i]);
        i = i + 1;
        assert(words(cmd@) =~= head + words(vars@).subrange(0, i as int));
    }
    assert(words(vars@).subrange(0, i as int) =~= words(vars@));
    assert(head =~= seq![
        "cmake"@,
        "-S"@,
        src_dir@,
        "-B"@,
        bin@,
        "-DCMAKE_BUILD_TYPE=Release"@,
        "-DCMAKE_C_COMPILER=/usr/bin/clang"@,
        "-DCMAKE_CXX_COMPILER=/usr/bin/clang++"@,
    ]);
    let run = ShellCommand::new().args(&cmd).current_dir(src_dir);
    assert(run.args_view() =~= seq!["-c"@, join_words(words(cmd@))]);
    let mut steps: Vec<Step> = Vec::new();
    steps.push(Step::MakeDir(bin));
    steps.push(Step::Run(run, BuildError::Configure));
    assert(views(steps@) =~= seq![
        StepView::Dir(bin_dir_of(src_dir@, opt_view(bin_dir))),
        sh(
            src_dir@,
            cmake_config_words(src_dir@, bin_dir_of(src_dir@, opt_view(bin_dir)), words(vars@)),
            BuildError::Configure,
        ),
    ]);
    steps
}

/// How many compile jobs run at once: what was asked for, capped at `NPROCS`;
/// `NPROCS` where nothing was asked.
pub open spec fn jobs_of(nproc: Option<u8>) -> u8 {
    match nproc {
        Some(n) => if n <= NPROCS {
            n
        } else {
            NPROCS
        },
        None => NPROCS,
    }
}

pub open spec fn digit_text(n: u8) -> Seq<char> {
    seq![(48 + n) as char]
}

fn jobs_text(n: u8) -> (r: String)
    requires
        n <= NPROCS,
    ensures
        r@ == digit_text(n),
{
    proof {
        reveal_strlit("0");
        reveal_strlit("1");
        reveal_strlit("2");
        reveal_strlit("3");
        reveal_strlit("4");
        reveal_strlit("5");
        reveal_strlit("6");
    }
    let s = match n {
        0 => "0",
        1 => "1",
        2 => "2",
        3 => "3",
        4 => "4",
        5 => "5",
        _ => "6",
    };
    let r = String::from_str(s);
    assert(r@ =~= digit_text(n));
    r
}

/// Installing is the target `install`; any other target compiles.
pub open spec fn build_error_of(target: Option<&str>) -> BuildError {
    match target {
        Some(t) => if t@ == "install"@ {
            BuildError::Install
        } else {
            BuildError::Compile
        },
        None => BuildError::Compile,
    }
}

fn build_error_for(target: Option<&str>) -> (r: BuildError)
    ensures
        r == build_error_of(target),
{
    match target {
        Some(t) => if String::from_str(t) == String::from_str("install") {
            BuildError::Install
        } else {
            BuildError::Compile
        },
        None => BuildError::Compile,
    }
}

/// The step that builds `target` (or `all`) of a configured CMake project,
/// with at most `NPROCS` jobs, then the extra arguments `build_args`; it fails
/// the build with `Install` for the target `install`, else with `Compile`.
pub fn cmake_build(
    src_dir: &String,
    bin_dir: Option<&String>,
    build_args: &Vec<String>,
    target: Option<&str>,
    nproc: Option<u8>,
) -> (r: Step)
    ensures
        r.view() == sh(
            src_dir@,
                seq![
                    "cmake"@,
                    "--build"@,
                    bin_dir_of(src_dir@, opt_view(bin_dir)),
                    "--target"@,
                    match target {
                        Some(t) => t@,
                        None => "all"@,
                    },
                    "-j"@,
                    digit_text(jobs_of(nproc)),
                ] + words(build_args@),
            build_error_of(target),
        ),
{
    let bin = bin_dir_or_default(src_dir, bin_dir);
    let jobs: u8 = match nproc {
        Some(n) => if n <= NPROCS {
            n
        } else {
            NPROCS
        },
        None => NPROCS,
    };
    let mut cmd: Vec<String> = Vec::new();
    push_word(&mut cmd, "cmake");
    push_word(&mut cmd, "--build");
    push_string(&mut cmd, &bin);
    push_word(&mut cmd, "--target");
    match target {
        Some(t) => push_word(&mut cmd, t),
        None => push_word(&mut cmd, "all"),
    }
    push_word(&mut cmd, "-j");
    push_string(&mut cmd, &jobs_text(jobs));
    let ghost head = words(cmd@);
    assert(head =~= seq![
        "cmake"@,
        "--build"@,
        bin@,
        "--target"@,
        match target {
            Some(t) => t@,
            None => "all"@,
        },
        "-j"@,
        digit_text(jobs_of(nproc)),
    ]);
    let mut i: usize = 0;
    while i < build_args.len()
        invariant
            i <= build_args@.len(),
            words(cmd@) == head + words(build_args@).subrange(0, i as int),
        decreases build_args@.len() - i,
    {
        push_string(&mut cmd, &build_args[i]);
        i = i + 1;
        assert(words(cmd@) =~= head + words(build_args@).subrange(0, i as int));
    }
    assert(words(build_args@).subrange(0, i as int) =~= words(build_args@));
    run_in(&cmd, src_dir, build_error_for(target))
}

/// A command made of `cmd`, run in `dir`, that fails the build with `e`.
fn run_in(cmd: &Vec<String>, dir: &String, e: BuildError) -> (r: Step)
    ensures
        r.view() == sh(dir@, words(cmd@), e),
{
    let c = ShellCommand::new().args(cmd).current_dir(dir);
    assert(c.args_view() =~= seq!["-c"@, join_words(words(cmd@))]);
    Step::Run(c, e)
}

fn words_of(a: &str, b: &str, c: &String) -> (r: Vec<String>)
    ensures
        words(r@) == seq![a@, b@, c@],
{
    let mut v: Vec<String> = Vec::new();
    push_word(&mut v, a);
    push_word(&mut v, b);
    push_string(&mut v, c);
    assert(words(v@) =~= seq![a@, b@, c@]);
    v
}

/// Appends `step` to `steps`.
fn push_step(steps: &mut Vec<Step>, step: Step)
    ensures
        views(final(steps)@) == views(old(steps)@).push(step.view()),
{
    steps.push(step);
    assert(views(final(steps)@) =~= views(old(steps)@).push(step.view()));
}

/// Appends `more` to `steps`.
fn extend(steps: &mut Vec<Step>, more: Vec<Step>)
    ensures
        views(final(steps)@) == views(old(steps)@) + views(more@),
{
    let mut m = more;
    steps.append(&mut m);
    assert(views(final(steps)@) =~= views(old(steps)@) + views(more@));
}

/// The words of a build of `target` in the CMake build directory `bin`.
pub open spec fn cmake_build_words(bin: Seq<char>, target: Seq<char>) -> Seq<Seq<char>> {
    seq!["cmake"@, "--build"@, bin, "--target"@, target, "-j"@, digit_text(NPROCS)]
}

fn cmake_build_step(src: &String, target: Option<&str>) -> (r: Step)
    ensures
        r.view() == sh(
            src@,
            cmake_build_words(
                src@ + "/build"@,
                match target {
                    Some(t) => t@,
                    None => "all"@,
                },
            ),
            build_error_of(target),
        ),
{
    let none: Vec<String> = Vec::new();
    let r = cmake_build(src, None, &none, target, None);
    let ghost w = cmake_build_words(
        src@ + "/build"@,
        match target {
            Some(t) => t@,
            None => "all"@,
        },
    );
    assert(words(none@) =~= Seq::<Seq<char>>::empty());
    assert(seq![
        "cmake"@,
        "--build"@,
        bin_dir_of(src@, opt_view(None)),
        "--target"@,
        match target {
            Some(t) => t@,
            None => "all"@,
        },
        "-j"@,
        digit_text(jobs_of(None)),
    ] + words(none@) =~= w);
    r
}

/// The steps that fetch an archive: download it unless it is there, extract
/// it, rename what came out.
pub open spec fn archive_fetch_views(
    db: Seq<char>,
    url: Seq<char>,
    file: Seq<char>,
    extracted: Seq<char>,
    name: Seq<char>,
    archive: bool,
) -> Seq<StepView> {
    (if archive {
        Seq::empty()
    } else {
        seq![sh(db, seq!["wget"@, url], BuildError::Fetch)]
    }) + seq![
        sh(db, seq!["tar"@, "xvf"@, db + "/"@ + file], BuildError::Fetch),
        sh(db, seq!["mv"@, extracted, name], BuildError::Fetch),
    ]
}

/// The steps that fetch a versioned archive from `url` into `db_dir` as `file`,
/// extract it and rename the directory `extracted` to `name`.
fn fetch_archive(
    db_dir: &String,
    url: &String,
    file: &String,
    extracted: &String,
    name: &str,
    archive: bool,
) -> (r: Vec<Step>)
    ensures
        views(r@) == archive_fetch_views(db_dir@, url@, file@, extracted@, name@, archive),
{
    let mut steps: Vec<Step> = Vec::new();
    let target = cat(&cat(db_dir, "/"), file.as_str());
    if !archive {
        let mut get: Vec<String> = Vec::new();
        push_word(&mut get, "wget");
        push_string(&mut get, url);
        assert(words(get@) =~= seq!["wget"@, url@]);
        push_step(&mut steps, run_in(&get, db_dir, BuildError::Fetch));
    }
    push_step(&mut steps, run_in(&words_of("tar", "xvf", &target), db_dir, BuildError::Fetch));
    let mut mv: Vec<String> = Vec::new();
    push_word(&mut mv, "mv");
    push_string(&mut mv, extracted);
    push_word(&mut mv, name);
    assert(words(mv@) =~= seq!["mv"@, extracted@, name@]);
    push_step(&mut steps, run_in(&mv, db_dir, BuildError::Fetch));
    assert(views(steps@) =~= archive_fetch_views(
        db_dir@,
        url@,
        file@,
        extracted@,
        name@,
        archive,
    ));
    steps
}

pub open spec fn clone_view(url: Seq<char>, src: Seq<char>) -> StepView {
    sh("."@, seq!["git"@, "clone"@, "--recursive"@, url, src], BuildError::Fetch)
}

pub open spec fn checkout_view(src: Seq<char>, rev: Seq<char>) -> StepView {
    sh(src, seq!["git"@, "checkout"@, rev], BuildError::Fetch)
}

fn clone_step(url: &str, src_dir: &String) -> (r: Step)
    ensures
        r.view() == clone_view(url@, src_dir@),
{
    Step::Run(git_clone(url, src_dir), BuildError::Fetch)
}

/// The steps that clone `url` into `src_dir` and check out `rev`.
fn fetch_git(url: &str, src_dir: &String, rev: &str) -> (r: Vec<Step>)
    ensures
        views(r@) == seq![clone_view(url@, src_dir@), checkout_view(src_dir@, rev@)],
{
    let mut steps: Vec<Step> = Vec::new();
    push_step(&mut steps, clone_step(url, src_dir));
    let mut co: Vec<String> = Vec::new();
    push_word(&mut co, "git");
    push_word(&mut co, "checkout");
    push_word(&mut co, rev);
    assert(words(co@) =~= seq!["git"@, "checkout"@, rev@]);
    push_step(&mut steps, run_in(&co, src_dir, BuildError::Fetch));
    assert(views(steps@) =~= seq![clone_view(url@, src_dir@), checkout_view(src_dir@, rev@)]);
    steps
}

/// The targets that a campaign builds.
#[derive(Clone, Copy, Debug, PartialEq, Eq, Structural)]
pub enum Target {
    /// The fuzzing framework and its harness.
    Squirrel,
    /// The shared library that MySQL builds against.
    Boost,
    Postgresql,
    Mysql,
    Mariadb,
}

pub open spec fn squirrel_vars() -> Seq<Seq<char>> {
    seq!["-Wno-dev"@, "-DALL=ON"@, "-DSQLITE=ON"@, "-DMYSQL=ON"@, "-DPOSTGRESQL=ON"@]
}

pub open spec fn boost_file() -> Seq<char> {
    "boost_"@ + BOOST_VERSION_1@ + ".tar.bz2"@
}

pub open spec fn pgsql_file() -> Seq<char> {
    "postgresql-"@ + PGSQL_VERSION@ + ".tar.bz2"@
}

/// The CMake variables shared by the two MySQL dialects: the instrumented
/// compilers, the install prefix and the coverage flags.
pub open spec fn family_vars(ws: Workspace, name: Seq<char>) -> Seq<Seq<char>> {
    seq![
        "-DCMAKE_C_COMPILER="@ + ws.fuzzers_dir@ + "/squirrel/AFLplusplus/afl-cc"@,
        "-DCMAKE_CXX_COMPILER="@ + ws.fuzzers_dir@ + "/squirrel/AFLplusplus/afl-c++"@,
        "-DCMAKE_INSTALL_PREFIX="@ + ws.install_dir@ + "/"@ + name,
        "-DCMAKE_CXX_FLAGS='"@ + CFLAGS@ + "'"@,
    ]
}

pub open spec fn mysql_vars(ws: Workspace) -> Seq<Seq<char>> {
    family_vars(ws, "mysql"@) + seq![
        "-DMYSQL_TCP_PORT="@ + MYSQL_TCP_PORT@,
        "-DMYSQL_UNIX_ADDR="@ + MYSQL_UNIX_ADDR@,
        "-DWITH_BOOST="@ + ws.db_dir@ + "/boost"@,
        "-DDOWNLOAD_BOOST=1"@,
        "-DWITH_UNIT_TESTS=OFF"@,
    ]
}

pub open spec fn mariadb_vars(ws: Workspace) -> Seq<Seq<char>> {
    family_vars(ws, "mariadb"@) + seq!["-DWITH_UNIT_TESTS=OFF"@]
}

/// Configure, compile and install steps of a CMake engine whose sources are in `src`.
pub open spec fn cmake_engine_views(src: Seq<char>, vars: Seq<Seq<char>>) -> Seq<StepView> {
    let bin = src + "/build"@;
    seq![
        StepView::Dir(bin),
        StepView::Dir(bin),
        sh(src, cmake_config_words(src, bin, vars), BuildError::Configure),
        sh(src, cmake_build_words(bin, "all"@), BuildError::Compile),
        sh(src, cmake_build_words(bin, "install"@), BuildError::Install),
    ]
}

pub open spec fn pgsql_build_views(ws: Workspace) -> Seq<StepView> {
    let bin = ws.db_dir@ + "/postgresql"@ + "/build"@;
    seq![
        StepView::Dir(bin),
        sh(
            bin,
            seq![
                "../configure"@,
                "--prefix="@ + (ws.install_dir@ + "/postgresql"@),
                "--with-CC="@ + ws.fuzzers_dir@ + "/squirrel/AFLplusplus/afl-cc"@,
                "CFLAGS='"@ + CFLAGS@ + "'"@,
            ],
            BuildError::Configure,
        ),
        sh(bin, seq!["make"@, "world-bin"@], BuildError::Compile),
        sh(bin, seq!["make"@, "install-world-bin"@], BuildError::Install),
    ]
}

impl Target {
    pub open spec fn is_engine(self) -> bool {
        match self {
            Target::Postgresql | Target::Mysql | Target::Mariadb => true,
            _ => false,
        }
    }

    /// The path whose existence means the target is built: the install
    /// directory of an engine, the extracted shared library, and the fuzzer
    /// binary that the framework's last step makes.
    pub fn done_marker(self, ws: &Workspace) -> (r: String)
        requires
            ws.wf(),
        ensures
            r@ == self.marker_path(*ws),
    {
        match self {
            Target::Squirrel => cat(&ws.fuzzers_dir, "/squirrel/AFLplusplus/afl-fuzz"),
            Target::Boost => cat(&ws.db_dir, "/boost"),
            Target::Postgresql => cat(&ws.install_dir, "/postgresql"),
            Target::Mysql => cat(&ws.install_dir, "/mysql"),
            Target::Mariadb => cat(&ws.install_dir, "/mariadb"),
        }
    }

    /// The path whose existence means the target is built.
    pub open spec fn marker_path(self, ws: Workspace) -> Seq<char> {
        match self {
            Target::Squirrel => ws.fuzzers_dir@ + "/squirrel/AFLplusplus/afl-fuzz"@,
            Target::Boost => ws.db_dir@ + "/boost"@,
            Target::Postgresql => ws.install_dir@ + "/postgresql"@,
            Target::Mysql => ws.install_dir@ + "/mysql"@,
            Target::Mariadb => ws.install_dir@ + "/mariadb"@,
        }
    }

    /// Where the target's sources are fetched to.
    pub open spec fn source_path(self, ws: Workspace) -> Seq<char> {
        match self {
            Target::Squirrel => ws.fuzzers_dir@ + "/squirrel"@,
            Target::Boost => ws.db_dir@ + "/boost"@,
            Target::Postgresql => ws.db_dir@ + "/postgresql"@,
            Target::Mysql => ws.db_dir@ + "/mysql"@,
            Target::Mariadb => ws.db_dir@ + "/mariadb"@,
        }
    }

    /// Where the target's sources are fetched to.
    pub fn source_dir(self, ws: &Workspace) -> (r: String)
        requires
            ws.wf(),
        ensures
            r@ == self.source_path(*ws),
    {
        match self {
            Target::Squirrel => cat(&ws.fuzzers_dir, "/squirrel"),
            Target::Boost => cat(&ws.db_dir, "/boost"),
            Target::Postgresql => cat(&ws.db_dir, "/postgresql"),
            Target::Mysql => cat(&ws.db_dir, "/mysql"),
            Target::Mariadb => cat(&ws.db_dir, "/mariadb"),
        }
    }

    /// Where the target's downloaded archive lies, for those fetched as one.
    pub fn archive_path(self, ws: &Workspace) -> (r: Option<String>)
        requires
            ws.wf(),
        ensures
            r is Some <==> (self is Boost || self is Postgresql),
            r matches Some(a) ==> a@ == match self {
                Target::Boost => ws.db_dir@ + "/"@ + boost_file(),
                _ => ws.db_dir@ + "/"@ + pgsql_file(),
            },
    {
        match self {
            Target::Boost => Some(cat(&cat(&ws.db_dir, "/"), boost_file_name().as_str())),
            Target::Postgresql => Some(cat(&cat(&ws.db_dir, "/"), pgsql_file_name().as_str())),
            _ => None,
        }
    }

    /// The steps that build the target, given what was found on disk.
    pub open spec fn plan_views(self, ws: Workspace, p: Probe) -> Seq<StepView> {
        if p.installed {
            Seq::empty()
        } else {
            match self {
                Target::Squirrel => {
                    let src = ws.fuzzers_dir@ + "/squirrel"@;
                    let bin = src + "/build"@;
                    (if p.source {
                        Seq::empty()
                    } else {
                        seq![clone_view("https://github.com/s3team/Squirrel.git"@, src)]
                    }) + seq![
                        StepView::Dir(bin),
                        StepView::Dir(bin),
                        sh(src, cmake_config_words(src, bin, squirrel_vars()), BuildError::Configure),
                        sh(src, cmake_build_words(bin, "all"@), BuildError::Compile),
                        sh(src + "/AFLplusplus"@, seq!["make"@, "-j"@], BuildError::Compile),
                    ]
                },
                Target::Boost => archive_fetch_views(
                    ws.db_dir@,
                    "https://boostorg.jfrog.io/artifactory/main/release/"@ + BOOST_VERSION@
                        + "/source/"@ + boost_file(),
                    boost_file(),
                    "boost_"@ + BOOST_VERSION_1@,
                    "boost"@,
                    p.archive,
                ),
                Target::Postgresql => (if p.source {
                    Seq::empty()
                } else {
                    archive_fetch_views(
                        ws.db_dir@,
                        "https://ftp.postgresql.org/pub/source/v"@ + PGSQL_VERSION@ + "/"@
                            + pgsql_file(),
                        pgsql_file(),
                        "postgresql-"@ + PGSQL_VERSION@,
                        "postgresql"@,
                        p.archive,
                    )
                }) + pgsql_build_views(ws),
                Target::Mysql => {
                    let src = ws.db_dir@ + "/mysql"@;
                    (if p.source {
                        Seq::empty()
                    } else {
                        seq![
                            clone_view("https://github.com/mysql/mysql-server.git"@, src),
                            checkout_view(src, MYSQL_VERSION@),
                        ]
                    }) + cmake_engine_views(src, mysql_vars(ws))
                },
                Target::Mariadb => {
                    let src = ws.db_dir@ + "/mariadb"@;
                    (if p.source {
                        Seq::empty()
                    } else {
                        seq![
                            clone_view("https://github.com/MariaDB/server.git"@, src),
                            checkout_view(src, MARIADB_VERSION@),
                        ]
                    }) + cmake_engine_views(src, mariadb_vars(ws))
                },
            }
        }
    }

    /// The steps that build the target, given what was found on disk: none
    /// at all once it is built.
    pub fn plan(self, ws: &Workspace, p: Probe) -> (r: Vec<Step>)
        requires
            ws.wf(),
        ensures
            views(r@) == self.plan_views(*ws, p),
            p.installed ==> r@.len() == 0,
    {
        let r = match self {
            Target::Squirrel => SquirrelBuilder::setup(ws, p),
            Target::Boost => BoostBuilder::setup(ws, p),
            Target::Postgresql => PgsqlBuilder::setup(ws, p),
            Target::Mysql => MysqlBuilder::setup(ws, p),
            Target::Mariadb => MariadbBuilder::setup(ws, p),
        };
        assert(views(r@).len() == r@.len());
        r
    }
}

/// A target that is already built is planned no step at all: building it a
/// second time runs no command and touches no directory.
pub proof fn lemma_built_target_plans_nothing(t: Target, ws: Workspace, p: Probe)
    requires
        p.installed,
    ensures
        t.plan_views(ws, p).len() == 0,
{
}

fn boost_file_name() -> (r: String)
    ensures
        r@ == boost_file(),
{
    cat(&cat(&String::from_str("boost_"), BOOST_VERSION_1), ".tar.bz2")
}

fn pgsql_file_name() -> (r: String)
    ensures
        r@ == pgsql_file(),
{
    cat(&cat(&String::from_str("postgresql-"), PGSQL_VERSION), ".tar.bz2")
}

/// Builds one target.
pub trait Builder {
    fn setup(ws: &Workspace, p: Probe) -> (r: Vec<Step>)
        requires
            ws.wf(),
    ;
}

/// The fuzzing framework.
pub struct SquirrelBuilder;

/// The shared library that MySQL builds against.
pub struct BoostBuilder;

pub struct PgsqlBuilder;

pub struct MysqlBuilder;

pub struct MariadbBuilder;

impl SquirrelBuilder {
    fn download(ws: &Workspace) -> (r: Vec<Step>)
        requires
            ws.wf(),
        ensures
            views(r@) == seq![
                clone_view(
                    "https://github.com/s3team/Squirrel.git"@,
                    ws.fuzzers_dir@ + "/squirrel"@,
                ),
            ],
    {
        let src = cat(&ws.fuzzers_dir, "/squirrel");
        let mut steps: Vec<Step> = Vec::new();
        push_step(&mut steps, clone_step("https://github.com/s3team/Squirrel.git", &src));
        steps
    }

    fn build(ws: &Workspace) -> (r: Vec<Step>)
        requires
            ws.wf(),
        ensures
            views(r@) == Target::Squirrel.plan_views(
                *ws,
                Probe { installed: false, source: true, archive: false },
            ),
    {
        let src = cat(&ws.fuzzers_dir, "/squirrel");
        let mut steps: Vec<Step> = Vec::new();
        push_step(&mut steps, Step::MakeDir(cat(&src, "/build")));
        let mut vars: Vec<String> = Vec::new();
        push_word(&mut vars, "-Wno-dev");
        push_word(&mut vars, "-DALL=ON");
        push_word(&mut vars, "-DSQLITE=ON");
        push_word(&mut vars, "-DMYSQL=ON");
        push_word(&mut vars, "-DPOSTGRESQL=ON");
        assert(words(vars@) =~= squirrel_vars());
        extend(&mut steps, cmake_config(&src, None, &vars));
        push_step(&mut steps, cmake_build_step(&src, None));
        let mut make: Vec<String> = Vec::new();
        push_word(&mut make, "make");
        push_word(&mut make, "-j");
        assert(words(make@) =~= seq!["make"@, "-j"@]);
        push_step(&mut steps, run_in(&make, &cat(&src, "/AFLplusplus"), BuildError::Compile));
        assert(views(steps@) =~= Target::Squirrel.plan_views(
            *ws,
            Probe { installed: false, source: true, archive: false },
        ));
        steps
    }
}

impl Builder for SquirrelBuilder {
    fn setup(ws: &Workspace, p: Probe) -> (r: Vec<Step>)
        ensures
            views(r@) == Target::Squirrel.plan_views(*ws, p),
    {
        let mut steps: Vec<Step> = Vec::new();
        if p.installed {
            assert(views(steps@) =~= Seq::<StepView>::empty());
            return steps;
        }
        if !p.source {
            extend(&mut steps, Self::download(ws));
        }
        extend(&mut steps, Self::build(ws));
        assert(views(steps@) =~= Target::Squirrel.plan_views(*ws, p));
        steps
    }
}

impl BoostBuilder {
    fn download(ws: &Workspace, archive: bool) -> (r: Vec<Step>)
        requires
            ws.wf(),
        ensures
            views(r@) == Target::Boost.plan_views(
                *ws,
                Probe { installed: false, source: false, archive },
            ),
    {
        let file = boost_file_name();
        let url = cat(
            &cat(
                &cat(
                    &String::from_str("https://boostorg.jfrog.io/artifactory/main/release/"),
                    BOOST_VERSION,
                ),
                "/source/",
            ),
            file.as_str(),
        );
        let extracted = cat(&String::from_str("boost_"), BOOST_VERSION_1);
        fetch_archive(&ws.db_dir, &url, &file, &extracted, "boost", archive)
    }
}

impl Builder for BoostBuilder {
    fn setup(ws: &Workspace, p: Probe) -> (r: Vec<Step>)
        ensures
            views(r@) == Target::Boost.plan_views(*ws, p),
    {
        if p.installed {
            let r: Vec<Step> = Vec::new();
            assert(views(r@) =~= Seq::<StepView>::empty());
            r
        } else {
            Self::download(ws, p.archive)
        }
    }
}

impl PgsqlBuilder {
    fn download(ws: &Workspace, archive: bool) -> (r: Vec<Step>)
        requires
            ws.wf(),
        ensures
            views(r@) == archive_fetch_views(
                ws.db_dir@,
                "https://ftp.postgresql.org/pub/source/v"@ + PGSQL_VERSION@ + "/"@ + pgsql_file(),
                pgsql_file(),
                "postgresql-"@ + PGSQL_VERSION@,
                "postgresql"@,
                archive,
            ),
    {
        let file = pgsql_file_name();
        let url = cat(
            &cat(
                &cat(&String::from_str("https://ftp.postgresql.org/pub/source/v"), PGSQL_VERSION),
                "/",
            ),
            file.as_str(),
        );
        let extracted = cat(&String::from_str("postgresql-"), PGSQL_VERSION);
        fetch_archive(&ws.db_dir, &url, &file, &extracted, "postgresql", archive)
    }

    fn build_with_squirrel(ws: &Workspace, p: Probe) -> (r: Vec<Step>)
        requires
            ws.wf(),
        ensures
            views(r@) == Target::Postgresql.plan_views(*ws, p),
    {
        let mut steps: Vec<Step> = Vec::new();
        if p.installed {
            assert(views(steps@) =~= Seq::<StepView>::empty());
            return steps;
        }
        if !p.source {
            extend(&mut steps, Self::download(ws, p.archive));
        }
        let src = cat(&ws.db_dir, "/postgresql");
        let bin = cat(&src, "/build");
        let install = cat(&ws.install_dir, "/postgresql");
        push_step(&mut steps, Step::MakeDir(bin.clone()));
        let mut config: Vec<String> = Vec::new();
        push_word(&mut config, "../configure");
        push_string(&mut config, &cat(&String::from_str("--prefix="), install.as_str()));
        push_string(
            &mut config,
            &cat(
                &cat(&String::from_str("--with-CC="), ws.fuzzers_dir.as_str()),
                "/squirrel/AFLplusplus/afl-cc",
            ),
        );
        push_string(&mut config, &cat(&cat(&String::from_str("CFLAGS='"), CFLAGS), "'"));
        push_step(&mut steps, run_in(&config, &bin, BuildError::Configure));
        let mut make: Vec<String> = Vec::new();
        push_word(&mut make, "make");
        push_word(&mut make, "world-bin");
        push_step(&mut steps, run_in(&make, &bin, BuildError::Compile));
        let mut inst: Vec<String> = Vec::new();
        push_word(&mut inst, "make");
        push_word(&mut inst, "install-world-bin");
        push_step(&mut steps, run_in(&inst, &bin, BuildError::Install));
        assert(words(config@) =~= seq![
            "../configure"@,
            "--prefix="@ + (ws.install_dir@ + "/postgresql"@),
            "--with-CC="@ + ws.fuzzers_dir@ + "/squirrel/AFLplusplus/afl-cc"@,
            "CFLAGS='"@ + CFLAGS@ + "'"@,
        ]);
        assert(words(make@) =~= seq!["make"@, "world-bin"@]);
        assert(words(inst@) =~= seq!["make"@, "install-world-bin"@]);
        assert(views(steps@) =~= Target::Postgresql.plan_views(*ws, p));
        steps
    }
}

impl Builder for PgsqlBuilder {
    fn setup(ws: &Workspace, p: Probe) -> (r: Vec<Step>)
        ensures
            views(r@) == Target::Postgresql.plan_views(*ws, p),
    {
        Self::build_with_squirrel(ws, p)
    }
}

fn family_vars_of(ws: &Workspace, name: &str) -> (r: Vec<String>)
    requires
        ws.wf(),
    ensures
        words(r@) == family_vars(*ws, name@),
{
    let mut vars: Vec<String> = Vec::new();
    push_string(
        &mut vars,
        &cat(
            &cat(&String::from_str("-DCMAKE_C_COMPILER="), ws.fuzzers_dir.as_str()),
            "/squirrel/AFLplusplus/afl-cc",
        ),
    );
    push_string(
        &mut vars,
        &cat(
            &cat(&String::from_str("-DCMAKE_CXX_COMPILER="), ws.fuzzers_dir.as_str()),
            "/squirrel/AFLplusplus/afl-c++",
        ),
    );
    push_string(
        &mut vars,
        &cat(
            &cat(&cat(&String::from_str("-DCMAKE_INSTALL_PREFIX="), ws.install_dir.as_str()), "/"),
            name,
        ),
    );
    push_string(&mut vars, &cat(&cat(&String::from_str("-DCMAKE_CXX_FLAGS='"), CFLAGS), "'"));
    assert(words(vars@) =~= family_vars(*ws, name@));
    vars
}

/// Configure, compile and install steps of a CMake engine whose sources are in `src`.
fn cmake_engine(src: &String, vars: &Vec<String>) -> (r: Vec<Step>)
    ensures
        views(r@) == cmake_engine_views(src@, words(vars@)),
{
    let bin = cat(src, "/build");
    let mut steps: Vec<Step> = Vec::new();
    push_step(&mut steps, Step::MakeDir(bin.clone()));
    extend(&mut steps, cmake_config(src, Some(&bin), vars));
    push_step(&mut steps, cmake_build_step(src, None));
    push_step(&mut steps, cmake_build_step(src, Some("install")));
    assert(views(steps@) =~= cmake_engine_views(src@, words(vars@)));
    steps
}

impl MysqlBuilder {
    fn download(ws: &Workspace) -> (r: Vec<Step>)
        requires
            ws.wf(),
        ensures
            views(r@) == seq![
                clone_view("https://github.com/mysql/mysql-server.git"@, ws.db_dir@ + "/mysql"@),
                checkout_view(ws.db_dir@ + "/mysql"@, MYSQL_VERSION@),
            ],
    {
        fetch_git(
            "https://github.com/mysql/mysql-server.git",
            &cat(&ws.db_dir, "/mysql"),
            MYSQL_VERSION,
        )
    }

    fn build_with_squirrel(ws: &Workspace, p: Probe) -> (r: Vec<Step>)
        requires
            ws.wf(),
        ensures
            views(r@) == Target::Mysql.plan_views(*ws, p),
    {
        let mut steps: Vec<Step> = Vec::new();
        if p.installed {
            assert(views(steps@) =~= Seq::<StepView>::empty());
            return steps;
        }
        if !p.source {
            extend(&mut steps, Self::download(ws));
        }
        let mut vars = family_vars_of(ws, "mysql");
        push_string(&mut vars, &cat(&String::from_str("-DMYSQL_TCP_PORT="), MYSQL_TCP_PORT));
        push_string(&mut vars, &cat(&String::from_str("-DMYSQL_UNIX_ADDR="), MYSQL_UNIX_ADDR));
        push_string(
            &mut vars,
            &cat(&cat(&String::from_str("-DWITH_BOOST="), ws.db_dir.as_str()), "/boost"),
        );
        push_word(&mut vars, "-DDOWNLOAD_BOOST=1");
        push_word(&mut vars, "-DWITH_UNIT_TESTS=OFF");
        assert(words(vars@) =~= mysql_vars(*ws));
        extend(&mut steps, cmake_engine(&cat(&ws.db_dir, "/mysql"), &vars));
        assert(views(steps@) =~= Target::Mysql.plan_views(*ws, p));
        steps
    }
}

impl Builder for MysqlBuilder {
    fn setup(ws: &Workspace, p: Probe) -> (r: Vec<Step>)
        ensures
            views(r@) == Target::Mysql.plan_views(*ws, p),
    {
        Self::build_with_squirrel(ws, p)
    }
}

impl MariadbBuilder {
    fn download(ws: &Workspace) -> (r: Vec<Step>)
        requires
            ws.wf(),
        ensures
            views(r@) == seq![
                clone_view("https://github.com/MariaDB/server.git"@, ws.db_dir@ + "/mariadb"@),
                checkout_view(ws.db_dir@ + "/mariadb"@, MARIADB_VERSION@),
            ],
    {
        fetch_git(
            "https://github.com/MariaDB/server.git",
            &cat(&ws.db_dir, "/mariadb"),
            MARIADB_VERSION,
        )
    }

    fn build_with_squirrel(ws: &Workspace, p: Probe) -> (r: Vec<Step>)
        requires
            ws.wf(),
        ensures
            views(r@) == Target::Mariadb.plan_views(*ws, p),
    {
        let mut steps: Vec<Step> = Vec::new();
        if p.installed {
            assert(views(steps@) =~= Seq::<StepView>::empty());
            return steps;
        }
        if !p.source {
            extend(&mut steps, Self::download(ws));
        }
        let mut vars = family_vars_of(ws, "mariadb");
        push_word(&mut vars, "-DWITH_UNIT_TESTS=OFF");
        assert(words(vars@) =~= mariadb_vars(*ws));
        extend(&mut steps, cmake_engine(&cat(&ws.db_dir, "/mariadb"), &vars));
        assert(views(steps@) =~= Target::Mariadb.plan_views(*ws, p));
        steps
    }
}

impl Builder for MariadbBuilder {
    fn setup(ws: &Workspace, p: Probe) -> (r: Vec<Step>)
        ensures
            views(r@) == Target::Mariadb.plan_views(*ws, p),
    {
        Self::build_with_squirrel(ws, p)
    }
}

impl Step {
    /// What a step's run means for the build: a directory that could not be
    /// made, or a command that did not exit with status 0, stops it.
    pub fn outcome(&self, succeeded: bool) -> (r: Result<(), BuildError>)
        ensures
            succeeded ==> r is Ok,
            !succeeded ==> r == Err::<(), BuildError>(self.kind()),
    {
        if succeeded {
            Ok(())
        } else {
            match self {
                Step::MakeDir(_) => Err(BuildError::Configure),
                Step::Run(_, e) => Err(*e),
            }
        }
    }
}

/// Index of the first `false` in `ok` from `i` on, or its length.
pub open spec fn first_failed(ok: Seq<bool>, i: int) -> int
    decreases ok.len() - i,
{
    if i >= ok.len() || !ok[i] {
        i
    } else {
        first_failed(ok, i + 1)
    }
}

/// What to do next while running a build's steps in order.
#[derive(Debug, PartialEq, Eq)]
pub enum StepProgress {
    /// Run the step at this index.
    Next(usize),
    /// The build is over: every step succeeded, or the first failure stopped it.
    Finished(Result<(), BuildError>),
}

/// The decision after the steps before `ok@.len()` ran, `ok` telling which
/// succeeded: the first failure ends the build with that step's error, and
/// nothing after it runs; else the next step runs, until none is left.
pub fn next_step(steps: &Vec<Step>, ok: &Vec<bool>) -> (r: StepProgress)
    requires
        ok@.len() <= steps@.len(),
    ensures
        first_failed(ok@, 0) < ok@.len() ==> r == StepProgress::Finished(
            Err(steps@[first_failed(ok@, 0)].kind()),
        ),
        first_failed(ok@, 0) == ok@.len() && ok@.len() < steps@.len() ==> r == StepProgress::Next(
            ok@.len() as usize,
        ),
        first_failed(ok@, 0) == ok@.len() && ok@.len() == steps@.len() ==> r
            == StepProgress::Finished(Ok(())),
{
    let mut i: usize = 0;
    while i < ok.len()
        invariant
            i <= ok@.len() <= steps@.len(),
            first_failed(ok@, 0) == first_failed(ok@, i as int),
        decreases ok@.len() - i,
    {
        if !ok[i] {
            return StepProgress::Finished(steps[i].outcome(false));
        }
        i = i + 1;
    }
    if i < steps.len() {
        StepProgress::Next(i)
    } else {
        StepProgress::Finished(Ok(()))
    }
}

/// The order in which targets are built: the framework, the shared library,
/// then the engines.
pub open spec fn build_order() -> Seq<Target> {
    seq![Target::Squirrel, Target::Boost, Target::Postgresql, Target::Mysql, Target::Mariadb]
}

/// How far the setup of all targets has come: the targets built so far, in
/// order, and the error that stopped it, if one did.
pub struct SetupProgress {
    pub built: Vec<Target>,
    pub failed: Option<BuildError>,
}

impl SetupProgress {
    pub open spec fn wf(&self) -> bool {
        &&& self.built@.len() <= 5
        &&& self.built@ == build_order().take(self.built@.len() as int)
    }

    /// The target to build next; none once all are built or one failed.
    pub open spec fn next_spec(&self) -> Option<Target> {
        if self.failed is Some || self.built@.len() >= 5 {
            None
        } else {
            Some(build_order()[self.built@.len() as int])
        }
    }

    /// Nothing built, nothing failed.
    pub fn new() -> (r: Self)
        ensures
            r.wf(),
            r.built@.len() == 0,
            r.failed is None,
    {
        let r = SetupProgress { built: Vec::new(), failed: None };
        assert(r.built@ =~= build_order().take(0));
        r
    }

    pub fn next_target(&self) -> (r: Option<Target>)
        requires
            self.wf(),
        ensures
            r == self.next_spec(),
    {
        if self.failed.is_some() {
            return None;
        }
        match self.built.len() {
            0 => Some(Target::Squirrel),
            1 => Some(Target::Boost),
            2 => Some(Target::Postgresql),
            3 => Some(Target::Mysql),
            4 => Some(Target::Mariadb),
            _ => None,
        }
    }

    /// Records how the build of the next target ended: the first failure stops
    /// the setup, and nothing built before it is undone.
    pub fn record(&mut self, result: Result<(), BuildError>)
        requires
            old(self).wf(),
            old(self).next_spec() is Some,
        ensures
            final(self).wf(),
            result is Ok ==> final(self).built@ == old(self).built@.push(
                old(self).next_spec()->0,
            ) && final(self).failed is None,
            result matches Err(e) ==> final(self).built@ == old(self).built@
                && final(self).failed == Some(e),
    {
        match result {
            Ok(()) => {
                let t = match self.next_target() {
                    Some(t) => t,
                    None => return,
                };
                self.built.push(t);
                assert(self.built@ =~= build_order().take(self.built@.len() as int));
            },
            Err(e) => {
                self.failed = Some(e);
            },
        }
    }

    /// `None` while targets remain; then `Ok` once all are built, or the error
    /// that stopped the setup.
    pub fn outcome(&self) -> (r: Option<Result<(), BuildError>>)
        requires
            self.wf(),
        ensures
            r is None <==> self.next_spec() is Some,
            r == Some(Ok::<(), BuildError>(())) <==> (self.failed is None && self.built@.len() == 5),
            self.failed matches Some(e) ==> r == Some(Err::<(), BuildError>(e)),
    {
        match self.failed {
            Some(e) => Some(Err(e)),
            None => if self.built.len() >= 5 {
                Some(Ok(()))
            } else {
                None
            },
        }
    }
}

/// No engine is built before both the framework and the shared library have
/// been built successfully.
pub proof fn lemma_engines_after_shared(p: SetupProgress)
    requires
        p.wf(),
    ensures
        p.next_spec() matches Some(t) && t.is_engine() ==> p.built@.contains(Target::Squirrel)
            && p.built@.contains(Target::Boost),
{
    if p.next_spec() matches Some(t) && t.is_engine() {
        let n = p.built@.len() as int;
        assert(n >= 2);
        assert(p.built@[0] == Target::Squirrel);
        assert(p.built@[1] == Target::Boost);
    }
}

/// The command that copies the fuzzer's configuration into the workspace.
pub fn post_setup(ws: &Workspace) -> (r: ShellCommand)
    requires
        ws.wf(),
    ensures
        r.cwd_view() == Some(ws.root@),
        r.args_view() == seq![
            "-c"@,
            join_words(seq!["cp"@, "-r"@, ws.root@ + "/squirrel/"@, ws.config_dir@]),
        ],
{
    let mut cmd: Vec<String> = Vec::new();
    push_word(&mut cmd, "cp");
    push_word(&mut cmd, "-r");
    push_string(&mut cmd, &cat(&ws.root, "/squirrel/"));
    push_string(&mut cmd, &ws.config_dir);
    assert(words(cmd@) =~= seq!["cp"@, "-r"@, ws.root@ + "/squirrel/"@, ws.config_dir@]);
    let r = ShellCommand::new().args(&cmd).current_dir(&ws.root);
    assert(r.args_view() =~= seq!["-c"@, join_words(words(cmd@))]);
    r
}

/// Starts the setup of all targets: nothing built yet.
pub fn setup() -> (r: SetupProgress)
    ensures
        r.wf(),
        r.built@.len() == 0,
        r.failed is None,
        r.next_spec() == Some(Target::Squirrel),
{
    SetupProgress::new()
}

} // verus!
