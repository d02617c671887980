//! A shell command described as data: the shell, its script, a working
//! directory, environment overrides, and whether its streams are captured.
use vstd::prelude::*;
use vstd::string::StringExecFns;

verus! {

/// The text of each string, in order.
pub open spec fn words(v: Seq<String>) -> Seq<Seq<char>> {
    v.map_values(|s: String| s@)
}

/// The words joined by single spaces.
pub open spec fn join_words(w: Seq<Seq<char>>) -> Seq<char>
    decreases w.len(),
{
    if w.len() == 0 {
        Seq::empty()
    } else if w.len() == 1 {
        w[0]
    } else {
        join_words(w.drop_last()) + " "@ + w.last()
    }
}

/// The text of each pair of strings, in order.
pub open spec fn pairs(v: Seq<(String, String)>) -> Seq<(Seq<char>, Seq<char>)> {
    v.map_values(|p: (String, String)| (p.0@, p.1@))
}

/// `a` followed by `b`, as a new string.
pub fn cat(a: &String, b: &str) -> (r: String)
    ensures
        r@ == a@ + b@,
{
    let mut r = a.clone();
    r.append(b);
    r
}

/// Appends the text `s` to a list of words.
pub fn push_word(v: &mut Vec<String>, s: &str)
    ensures
        words(final(v)@) == words(old(v)@).push(s@),
{
    v.push(String::from_str(s));
    assert(words(final(v)@) =~= words(old(v)@).push(s@));
}

/// Appends a copy of `s` to a list of words.
pub fn push_string(v: &mut Vec<String>, s: &String)
    ensures
        words(final(v)@) == words(old(v)@).push(s@),
{
    v.push(s.clone());
    assert(words(final(v)@) =~= words(old(v)@).push(s@));
}

/// The words of `args` joined by single spaces.
pub fn join_args(args: &Vec<String>) -> (r: String)
    ensures
        r@ == join_words(words(args@)),
{
    let mut r = String::new();
    let mut i: usize = 0;
    while i < args.len()
        invariant
            i <= args@.len(),
            r@ == join_words(words(args@).subrange(0, i as int)),
        decreases args@.len() - i,
    {
        let ghost w = words(args@).subrange(0, i + 1);
        assert(w.drop_last() =~= words(args@).subrange(0, i as int));
        if i > 0 {
            r.append(" ");
        } else {
            assert(r@ =~= Seq::<char>::empty());
        }
        r.append(args[i].as_str());
        i = i + 1;
        assert(r@ =~= join_words(w));
    }
    assert(words(args@).subrange(0, i as int) =~= words(args@));
    r
}

/// A command for `/bin/sh`: it runs `script()`, joined from the words given to `args`.
pub struct ShellCommand {
    pub shell_args: Vec<String>,
    pub cwd: Option<String>,
    pub envs: Vec<(String, String)>,
    pub piped: bool,
}

impl ShellCommand {
    pub open spec fn args_view(&self) -> Seq<Seq<char>> {
        words(self.shell_args@)
    }

    pub open spec fn env_view(&self) -> Seq<(Seq<char>, Seq<char>)> {
        pairs(self.envs@)
    }

    pub open spec fn cwd_view(&self) -> Option<Seq<char>> {
        match self.cwd {
            Some(c) => Some(c@),
            None => None,
        }
    }

    /// The shell with no arguments, no directory, no overrides, streams inherited.
    pub fn new() -> (r: Self)
        ensures
            r.args_view() == Seq::<Seq<char>>::empty(),
            r.cwd is None,
            r.env_view() == Seq::<(Seq<char>, Seq<char>)>::empty(),
            !r.piped,
    {
        let r = ShellCommand { shell_args: Vec::new(), cwd: None, envs: Vec::new(), piped: false };
        assert(r.args_view() =~= Seq::<Seq<char>>::empty());
        assert(r.env_view() =~= Seq::<(Seq<char>, Seq<char>)>::empty());
        r
    }

    /// Adds `-c` and a script made of `args` joined by single spaces.
    pub fn args(self, args: &Vec<String>) -> (r: Self)
        ensures
            r.args_view() == self.args_view().push("-c"@).push(join_words(words(args@))),
            r.cwd == self.cwd,
            r.envs == self.envs,
            r.piped == self.piped,
    {
        let mut s = self;
        push_word(&mut s.shell_args, "-c");
        let script = join_args(args);
        push_string(&mut s.shell_args, &script);
        s
    }

    /// Runs the command in `dir`.
    pub fn current_dir(self, dir: &String) -> (r: Self)
        ensures
            r.cwd_view() == Some(dir@),
            r.shell_args == self.shell_args,
            r.envs == self.envs,
            r.piped == self.piped,
    {
        let mut s = self;
        s.cwd = Some(dir.clone());
        s
    }

    /// Adds the environment overrides `vars`, after those already set.
    pub fn envs(self, vars: &Vec<(String, String)>) -> (r: Self)
        ensures
            r.env_view() == self.env_view() + pairs(vars@),
            r.shell_args == self.shell_args,
            r.cwd == self.cwd,
            r.piped == self.piped,
    {
        let mut s = self;
        let mut i: usize = 0;
        while i < vars.len()
            invariant
                i <= vars@.len(),
                s.shell_args == self.shell_args,
                s.cwd == self.cwd,
                s.piped == self.piped,
                pairs(s.envs@) == pairs(self.envs@) + pairs(vars@).subrange(0, i as int),
            decreases vars@.len() - i,
        {
            let ghost before = s.envs@;
            let k = vars[i].0.clone();
            let v = vars[i].1.clone();
            s.envs.push((k, v));
            assert(s.envs@ == before.push(vars@[i as int]));
            assert(pairs(s.envs@) =~= pairs(before).push(pairs(vars@)[i as int]));
            i = i + 1;
            assert(pairs(s.envs@) =~= pairs(self.envs@) + pairs(vars@).subrange(0, i as int));
        }
        assert(pairs(vars@).subrange(0, i as int) =~= pairs(vars@));
        s
    }

    /// Captures the standard streams.
    pub fn pipe_stdio(self) -> (r: Self)
        ensures
            r.piped,
            r.shell_args == self.shell_args,
            r.cwd == self.cwd,
            r.envs == self.envs,
    {
        let mut s = self;
        s.piped = true;
        s
    }
}

} // verus!
