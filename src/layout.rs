//! Where everything lives: every directory of the campaign is derived from one
//! workspace root.
use crate::command::cat;
use vstd::prelude::*;

verus! {

/// The campaign's directories, each derived from `root`.
pub struct Workspace {
    pub root: String,
    /// Temporary files of every kind.
    pub tmp_dir: String,
    /// Database sources.
    pub db_dir: String,
    /// Fuzzer sources.
    pub fuzzers_dir: String,
    /// Installed binaries.
    pub install_dir: String,
    /// Configuration read by the fuzzer.
    pub config_dir: String,
    /// Session directories.
    pub test_dir: String,
    /// Metrics logs.
    pub output_dir: String,
}

/// A change to the file system.
pub enum DirOp {
    /// Create the directory and its parents; one that exists is no error.
    Create(String),
    /// Remove the directory and all it holds.
    Remove(String),
}

impl DirOp {
    pub open spec fn is_create_of(&self, p: Seq<char>) -> bool {
        match self {
            DirOp::Create(d) => d@ == p,
            DirOp::Remove(_) => false,
        }
    }

    pub open spec fn is_remove_of(&self, p: Seq<char>) -> bool {
        match self {
            DirOp::Remove(d) => d@ == p,
            DirOp::Create(_) => false,
        }
    }
}

impl Workspace {
    pub open spec fn wf(&self) -> bool {
        &&& self.tmp_dir@ == self.root@ + "/tmp"@
        &&& self.db_dir@ == self.tmp_dir@ + "/db"@
        &&& self.fuzzers_dir@ == self.tmp_dir@ + "/fuzzers"@
        &&& self.install_dir@ == self.tmp_dir@ + "/install"@
        &&& self.config_dir@ == self.tmp_dir@ + "/config"@
        &&& self.test_dir@ == self.tmp_dir@ + "/test"@
        &&& self.output_dir@ == self.tmp_dir@ + "/output"@
    }

    /// The directories of a campaign rooted at `root`.
    pub fn new(root: &String) -> (r: Self)
        ensures
            r.wf(),
            r.root@ == root@,
    {
        let tmp_dir = cat(root, "/tmp");
        Workspace {
            root: root.clone(),
            db_dir: cat(&tmp_dir, "/db"),
            fuzzers_dir: cat(&tmp_dir, "/fuzzers"),
            install_dir: cat(&tmp_dir, "/install"),
            config_dir: cat(&tmp_dir, "/config"),
            test_dir: cat(&tmp_dir, "/test"),
            output_dir: cat(&tmp_dir, "/output"),
            tmp_dir,
        }
    }

    /// What prepares the workspace: the long-lived directories are created,
    /// the session and metrics directories are made afresh.
    pub fn pre_setup(&self, test_exists: bool, output_exists: bool) -> (r: Vec<DirOp>)
        ensures
            r@.len() == 5 + (if test_exists { 2int } else { 1 }) + (if output_exists {
                2int
            } else {
                1
            }),
            r@[0].is_create_of(self.tmp_dir@),
            r@[1].is_create_of(self.db_dir@),
            r@[2].is_create_of(self.fuzzers_dir@),
            r@[3].is_create_of(self.install_dir@),
            r@[4].is_create_of(self.config_dir@),
            test_exists ==> r@[5].is_remove_of(self.test_dir@) && r@[6].is_create_of(
                self.test_dir@,
            ),
            !test_exists ==> r@[5].is_create_of(self.test_dir@),
            r@.last().is_create_of(self.output_dir@),
            output_exists ==> r@[r@.len() - 2].is_remove_of(self.output_dir@),
    {
        let mut ops: Vec<DirOp> = Vec::new();
        ops.push(DirOp::Create(self.tmp_dir.clone()));
        ops.push(DirOp::Create(self.db_dir.clone()));
        ops.push(DirOp::Create(self.fuzzers_dir.clone()));
        ops.push(DirOp::Create(self.install_dir.clone()));
        ops.push(DirOp::Create(self.config_dir.clone()));
        let mut test_ops = create_new_dir(&self.test_dir, test_exists);
        ops.append(&mut test_ops);
        let mut output_ops = create_new_dir(&self.output_dir, output_exists);
        ops.append(&mut output_ops);
        ops
    }
}

/// What makes `path` a new, empty directory, given whether it exists now.
pub fn create_new_dir(path: &String, exists: bool) -> (r: Vec<DirOp>)
    ensures
        exists ==> r@.len() == 2 && r@[0].is_remove_of(path@) && r@[1].is_create_of(path@),
        !exists ==> r@.len() == 1 && r@[0].is_create_of(path@),
{
    let mut ops: Vec<DirOp> = Vec::new();
    if exists {
        ops.push(DirOp::Remove(path.clone()));
    }
    ops.push(DirOp::Create(path.clone()));
    ops
}

} // verus!
