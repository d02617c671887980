//! The coverage tool's report: its last line holds the totals, four groups of
//! `total missed percent%` for regions, functions, lines and branches.
use crate::command::{cat, join_args, join_words, push_string, push_word, words, ShellCommand};
use crate::number::{i32_of, Decimal};
use crate::status::{parse_percent, percent_of};
use crate::text::{skip_blank, skip_blank_at, word_end, word_end_at};
use vstd::prelude::*;
use vstd::string::StringSliceAdditionalSpecFns;

verus! {

/// How many words of the totals line are read: a label, then four groups of three.
pub const REPORT_WORDS: usize = 13;

/// Start of the last line of `s[..j]`: just after its last newline, or 0.
pub open spec fn line_start(s: Seq<u8>, j: int) -> int
    decreases j,
{
    if j <= 0 || s[j - 1] == 10u8 {
        j
    } else {
        line_start(s, j - 1)
    }
}

/// End of the text's last line: a final newline ends a line and begins none.
pub open spec fn last_line_end(s: Seq<u8>) -> int {
    if s.len() > 0 && s.last() == 10u8 {
        s.len() - 1
    } else {
        s.len() as int
    }
}

/// The first `n` words of `s[pos..hi]`, or `None` where it holds fewer.
pub open spec fn take_words(s: Seq<u8>, pos: int, hi: int, n: nat) -> Option<Seq<Seq<u8>>>
    decreases n,
{
    if n == 0 {
        Some(Seq::empty())
    } else {
        let a = skip_blank(s, pos, hi);
        if a >= hi {
            None
        } else {
            let b = word_end(s, a, hi);
            match take_words(s, b, hi, (n - 1) as nat) {
                Some(rest) => Some(seq![s.subrange(a, b)] + rest),
                None => None,
            }
        }
    }
}

pub open spec fn prefixed(got: Seq<Seq<u8>>, rest: Option<Seq<Seq<u8>>>) -> Option<Seq<Seq<u8>>> {
    match rest {
        Some(r) => Some(got + r),
        None => None,
    }
}

/// One kind of coverage: how many there are, how many were missed, and the share covered.
#[derive(Clone, Copy, Debug, PartialEq, Eq, Structural)]
pub struct LLVMCoverageItem {
    pub missed: i32,
    pub total: i32,
    pub percent: Decimal,
}

/// Region, function, line and branch coverage of one report.
#[derive(Clone, Copy, Debug, PartialEq, Eq, Structural)]
pub struct LLVMCoverageResult {
    pub region_cov: LLVMCoverageItem,
    pub func_cov: LLVMCoverageItem,
    pub line_cov: LLVMCoverageItem,
    pub branch_cov: LLVMCoverageItem,
}

/// A report whose totals line does not read as four groups of coverage.
#[derive(Clone, Copy, Debug, PartialEq, Eq, Structural)]
pub struct MonitorParseError;

/// The group of three words of `w` that starts at `k`.
pub open spec fn item_of(w: Seq<Seq<u8>>, k: int) -> Option<LLVMCoverageItem> {
    match (i32_of(w[k]), i32_of(w[k + 1]), percent_of(w[k + 2])) {
        (Some(total), Some(missed), Some(percent)) => Some(
            LLVMCoverageItem { missed: missed as i32, total: total as i32, percent },
        ),
        _ => None,
    }
}

/// The four groups of the words that follow the label.
pub open spec fn coverage_of_words(w: Seq<Seq<u8>>) -> Option<LLVMCoverageResult> {
    match (item_of(w, 1), item_of(w, 4), item_of(w, 7), item_of(w, 10)) {
        (Some(region_cov), Some(func_cov), Some(line_cov), Some(branch_cov)) => Some(
            LLVMCoverageResult { region_cov, func_cov, line_cov, branch_cov },
        ),
        _ => None,
    }
}

/// The coverage that a report's text states on its last line.
pub open spec fn report_of(s: Seq<u8>) -> Option<LLVMCoverageResult> {
    let hi = last_line_end(s);
    match take_words(s, line_start(s, hi), hi, REPORT_WORDS as nat) {
        Some(w) => coverage_of_words(w),
        None => None,
    }
}

/// Reads the coverage of one session's binary from its profile data.
pub struct LLVMCoverageMonitor {
    pub exec_path: String,
    pub profile_dir: String,
}

fn line_start_at(s: &[u8], j: usize) -> (r: usize)
    requires
        j <= s@.len(),
    ensures
        r as int == line_start(s@, j as int),
        r <= j,
{
    let mut k: usize = j;
    while k > 0 && s[k - 1] != 10u8
        invariant
            k <= j <= s@.len(),
            line_start(s@, j as int) == line_start(s@, k as int),
        decreases k,
    {
        k = k - 1;
    }
    k
}

/// Spans of the first `REPORT_WORDS` words of `s[lo..hi]`.
fn report_words(s: &[u8], lo: usize, hi: usize) -> (r: Option<Vec<(usize, usize)>>)
    requires
        lo <= hi <= s@.len(),
    ensures
        r is None ==> take_words(s@, lo as int, hi as int, REPORT_WORDS as nat) is None,
        r matches Some(v) ==> {
            &&& v@.len() == REPORT_WORDS
            &&& forall|k: int| 0 <= k < v@.len() ==> (#[trigger] v@[k]).0 <= v@[k].1 <= hi
            &&& take_words(s@, lo as int, hi as int, REPORT_WORDS as nat) == Some(
                Seq::new(REPORT_WORDS as nat, |k: int| s@.subrange(v@[k].0 as int, v@[k].1 as int)),
            )
        },
{
    let mut spans: Vec<(usize, usize)> = Vec::new();
    let ghost mut got: Seq<Seq<u8>> = Seq::empty();
    let mut pos: usize = lo;
    let mut k: usize = 0;
    while k < REPORT_WORDS
        invariant
            lo <= pos <= hi <= s@.len(),
            k <= REPORT_WORDS,
            spans@.len() == k,
            got.len() == k,
            forall|j: int| 0 <= j < k ==> (#[trigger] spans@[j]).0 <= spans@[j].1 <= hi,
            forall|j: int|
                0 <= j < k ==> #[trigger] got[j] == s@.subrange(
                    spans@[j].0 as int,
                    spans@[j].1 as int,
                ),
            take_words(s@, lo as int, hi as int, REPORT_WORDS as nat) == prefixed(
                got,
                take_words(s@, pos as int, hi as int, (REPORT_WORDS - k) as nat),
            ),
        decreases REPORT_WORDS - k,
    {
        let a = skip_blank_at(s, pos, hi);
        if a >= hi {
            return None;
        }
        let b = word_end_at(s, a, hi);
        proof {
            let w = s@.subrange(a as int, b as int);
            let rest = take_words(s@, b as int, hi as int, (REPORT_WORDS - k - 1) as nat);
            assert(take_words(s@, pos as int, hi as int, (REPORT_WORDS - k) as nat) == prefixed(
                seq![w],
                rest,
            ));
            if let Some(r) = rest {
                assert(got + (seq![w] + r) =~= got.push(w) + r);
            }
            got = got.push(w);
        }
        spans.push((a, b));
        pos = b;
        k = k + 1;
    }
    proof {
        assert(take_words(s@, pos as int, hi as int, 0) == Some(Seq::<Seq<u8>>::empty()));
        assert(got + Seq::<Seq<u8>>::empty() =~= got);
        assert(got =~= Seq::new(
            REPORT_WORDS as nat,
            |j: int| s@.subrange(spans@[j].0 as int, spans@[j].1 as int),
        ));
    }
    Some(spans)
}

impl LLVMCoverageMonitor {
    pub fn new(exec_path: String, profile_dir: String) -> (r: Self)
        ensures
            r.exec_path@ == exec_path@,
            r.profile_dir@ == profile_dir@,
    {
        Self { exec_path, profile_dir }
    }

    /// The group of three words that starts at word `k` of the totals line.
    fn item(text: &[u8], spans: &Vec<(usize, usize)>, k: usize) -> (r: Option<LLVMCoverageItem>)
        requires
            k + 2 < spans@.len(),
            spans@.len() == REPORT_WORDS,
            forall|j: int| 0 <= j < spans@.len() ==> (#[trigger] spans@[j]).0 <= spans@[j].1
                <= text@.len(),
        ensures
            r == item_of(
                Seq::new(
                    spans@.len(),
                    |j: int| text@.subrange(spans@[j].0 as int, spans@[j].1 as int),
                ),
                k as int,
            ),
    {
        let ghost w = Seq::new(
            spans@.len(),
            |j: int| text@.subrange(spans@[j].0 as int, spans@[j].1 as int),
        );
        let (a0, b0) = spans[k];
        let (a1, b1) = spans[k + 1];
        let (a2, b2) = spans[k + 2];
        assert(w[k as int] == text@.subrange(a0 as int, b0 as int));
        assert(w[k + 1] == text@.subrange(a1 as int, b1 as int));
        assert(w[k + 2] == text@.subrange(a2 as int, b2 as int));
        let total = crate::number::parse_i32(text, a0, b0);
        let missed = crate::number::parse_i32(text, a1, b1);
        let percent = parse_percent(text, a2, b2);
        match (total, missed, percent) {
            (Some(total), Some(missed), Some(percent)) => Some(
                LLVMCoverageItem { missed, total, percent },
            ),
            _ => None,
        }
    }

    /// The coverage that the report's text `report` states on its last line:
    /// after a label, the region, function, line and branch groups, in that order.
    pub fn get_result(&self, report: &[u8]) -> (r: Result<LLVMCoverageResult, MonitorParseError>)
        ensures
            r matches Ok(c) ==> report_of(report@) == Some(c),
            r is Err ==> report_of(report@) is None,
    {
        Self::parse_report(report)
    }

    /// The coverage that the text of a report states on its last line.
    pub fn parse_report(text: &[u8]) -> (r: Result<LLVMCoverageResult, MonitorParseError>)
        ensures
            r matches Ok(c) ==> report_of(text@) == Some(c),
            r is Err ==> report_of(text@) is None,
    {
        let n = text.len();
        let hi: usize = if n > 0 && text[n - 1] == 10u8 { n - 1 } else { n };
        let lo = line_start_at(text, hi);
        let spans = match report_words(text, lo, hi) {
            Some(v) => v,
            None => return Err(MonitorParseError),
        };
        let region = Self::item(text, &spans, 1);
        let func = Self::item(text, &spans, 4);
        let line = Self::item(text, &spans, 7);
        let branch = Self::item(text, &spans, 10);
        match (region, func, line, branch) {
            (Some(region_cov), Some(func_cov), Some(line_cov), Some(branch_cov)) => Ok(
                LLVMCoverageResult { region_cov, func_cov, line_cov, branch_cov },
            ),
            _ => Err(MonitorParseError),
        }
    }
}

/// A profile fragment, as the instrumented binary names it: `*.profraw`.
pub open spec fn is_fragment(name: Seq<u8>) -> bool {
    ".profraw".spec_bytes().is_suffix_of(name)
}

/// The names among `names` that are profile fragments, in order.
pub open spec fn fragments(names: Seq<String>) -> Seq<Seq<char>>
    decreases names.len(),
{
    if names.len() == 0 {
        Seq::empty()
    } else {
        fragments(names.drop_last()) + if is_fragment(vstd::utf8::encode_utf8(names.last()@)) {
            seq![names.last()@]
        } else {
            Seq::empty()
        }
    }
}

fn ends_with(s: &[u8], suffix: &[u8]) -> (r: bool)
    ensures
        r == suffix@.is_suffix_of(s@),
{
    if suffix.len() > s.len() {
        return false;
    }
    let off = s.len() - suffix.len();
    let mut k: usize = 0;
    while k < suffix.len()
        invariant
            off + suffix@.len() == s@.len(),
            s@.len() <= usize::MAX,
            k <= suffix@.len(),
            s@.subrange(off as int, off + k) =~= suffix@.subrange(0, k as int),
        decreases suffix@.len() - k,
    {
        if s[off + k] != suffix[k] {
            assert(s@.subrange(off as int, s@.len() as int)[k as int] != suffix@[k as int]);
            return false;
        }
        k = k + 1;
        assert(s@.subrange(off as int, off + k) =~= suffix@.subrange(0, k as int));
    }
    assert(s@.subrange(off as int, s@.len() as int) =~= suffix@);
    true
}

impl LLVMCoverageMonitor {
    /// The profile fragments among the names of the profile directory's files.
    pub fn profile_fragments(names: &Vec<String>) -> (r: Vec<String>)
        ensures
            words(r@) == fragments(names@),
    {
        let mut out: Vec<String> = Vec::new();
        let mut i: usize = 0;
        while i < names.len()
            invariant
                i <= names@.len(),
                words(out@) == fragments(names@.subrange(0, i as int)),
            decreases names@.len() - i,
        {
            let ghost prefix = names@.subrange(0, i + 1);
            assert(prefix.drop_last() =~= names@.subrange(0, i as int));
            if ends_with(names[i].as_str().as_bytes(), ".profraw".as_bytes()) {
                push_string(&mut out, &names[i]);
            }
            i = i + 1;
            assert(words(out@) =~= fragments(prefix));
        }
        assert(names@.subrange(0, i as int) =~= names@);
        out
    }

    /// The command that merges the profile fragments among `names` into
    /// `tmp.profdata`, run in the profile directory.
    pub fn merge(&self, names: &Vec<String>) -> (r: ShellCommand)
        ensures
            r.cwd_view() == Some(self.profile_dir@),
            r.args_view() == seq![
                "-c"@,
                join_words(
                    seq![
                        "llvm-profdata"@,
                        "merge"@,
                        join_words(fragments(names@)),
                        "-o"@,
                        "tmp.profdata"@,
                    ],
                ),
            ],
    {
        let frags = Self::profile_fragments(names);
        let mut cmd: Vec<String> = Vec::new();
        push_word(&mut cmd, "llvm-profdata");
        push_word(&mut cmd, "merge");
        push_string(&mut cmd, &join_args(&frags));
        push_word(&mut cmd, "-o");
        push_word(&mut cmd, "tmp.profdata");
        assert(words(cmd@) =~= seq![
            "llvm-profdata"@,
            "merge"@,
            join_words(fragments(names@)),
            "-o"@,
            "tmp.profdata"@,
        ]);
        let r = ShellCommand::new().args(&cmd).current_dir(&self.profile_dir);
        assert(r.args_view() =~= seq!["-c"@, join_words(words(cmd@))]);
        r
    }

    /// The command that prints the coverage report of the binary from the
    /// merged profile, with its output captured.
    pub fn report(&self) -> (r: ShellCommand)
        ensures
            r.cwd_view() == Some(self.profile_dir@),
            r.piped,
            r.args_view() == seq![
                "-c"@,
                join_words(
                    seq![
                        "llvm-cov"@,
                        "report"@,
                        "--instr-profile"@,
                        self.profile_dir@ + "/tmp.profdata"@,
                        self.exec_path@,
                    ],
                ),
            ],
    {
        let mut cmd: Vec<String> = Vec::new();
        push_word(&mut cmd, "llvm-cov");
        push_word(&mut cmd, "report");
        push_word(&mut cmd, "--instr-profile");
        push_string(&mut cmd, &cat(&self.profile_dir, "/tmp.profdata"));
        push_string(&mut cmd, &self.exec_path);
        assert(words(cmd@) =~= seq![
            "llvm-cov"@,
            "report"@,
            "--instr-profile"@,
            self.profile_dir@ + "/tmp.profdata"@,
            self.exec_path@,
        ]);
        let r = ShellCommand::new().args(&cmd).current_dir(&self.profile_dir).pipe_stdio();
        assert(r.args_view() =~= seq!["-c"@, join_words(words(cmd@))]);
        r
    }
}

proof fn lemma_skip_blank_shift(s: Seq<u8>, t: Seq<u8>, off: int, i: int)
    requires
        0 <= off,
        off + t.len() <= s.len(),
        s.subrange(off, off + t.len()) == t,
        0 <= i <= t.len(),
    ensures
        skip_blank(s, off + i, off + t.len()) == off + skip_blank(t, i, t.len() as int),
        i <= skip_blank(t, i, t.len() as int) <= t.len(),
    decreases t.len() - i,
{
    if i < t.len() {
        assert(s[off + i] == t[i]);
        if crate::text::is_blank(t[i]) {
            lemma_skip_blank_shift(s, t, off, i + 1);
        }
    }
}

proof fn lemma_word_end_shift(s: Seq<u8>, t: Seq<u8>, off: int, i: int)
    requires
        0 <= off,
        off + t.len() <= s.len(),
        s.subrange(off, off + t.len()) == t,
        0 <= i <= t.len(),
    ensures
        word_end(s, off + i, off + t.len()) == off + word_end(t, i, t.len() as int),
        i <= word_end(t, i, t.len() as int) <= t.len(),
    decreases t.len() - i,
{
    if i < t.len() {
        assert(s[off + i] == t[i]);
        if !crate::text::is_blank(t[i]) {
            lemma_word_end_shift(s, t, off, i + 1);
        }
    }
}

/// Reading words from a window of `s` is reading them from that window alone.
proof fn lemma_take_words_shift(s: Seq<u8>, t: Seq<u8>, off: int, i: int, n: nat)
    requires
        0 <= off,
        off + t.len() <= s.len(),
        s.subrange(off, off + t.len()) == t,
        0 <= i <= t.len(),
    ensures
        take_words(s, off + i, off + t.len(), n) == take_words(t, i, t.len() as int, n),
    decreases n,
{
    if n > 0 {
        lemma_skip_blank_shift(s, t, off, i);
        let a = skip_blank(t, i, t.len() as int);
        if a < t.len() {
            lemma_word_end_shift(s, t, off, a);
            let b = word_end(t, a, t.len() as int);
            assert(s.subrange(off + a, off + b) =~= t.subrange(a, b));
            lemma_take_words_shift(s, t, off, b, (n - 1) as nat);
        }
    }
}

proof fn lemma_line_start_after(s: Seq<u8>, lo: int, j: int)
    requires
        0 <= lo <= j <= s.len(),
        lo == 0 || s[lo - 1] == 10u8,
        forall|k: int| lo <= k < j ==> s[k] != 10u8,
    ensures
        line_start(s, j) == lo,
    decreases j,
{
    if j > lo {
        lemma_line_start_after(s, lo, j - 1);
    }
}

/// Only the last line of a report counts: two reports that end in the same
/// line `line` (with or without a final newline `tail`) give the same
/// coverage, whatever lines come before it.
pub proof fn lemma_report_reads_last_line(p1: Seq<u8>, p2: Seq<u8>, line: Seq<u8>, tail: Seq<u8>)
    requires
        p1.len() == 0 || p1.last() == 10u8,
        p2.len() == 0 || p2.last() == 10u8,
        line.len() > 0,
        forall|k: int| 0 <= k < line.len() ==> line[k] != 10u8,
        tail == Seq::<u8>::empty() || tail == seq![10u8],
    ensures
        report_of(p1 + line + tail) == report_of(p2 + line + tail),
        report_of(p1 + line + tail) == report_of(line),
{
    lemma_last_line(p1, line, tail);
    lemma_last_line(p2, line, tail);
    lemma_last_line(Seq::empty(), line, Seq::empty());
    assert(Seq::<u8>::empty() + line + Seq::<u8>::empty() =~= line);
}

proof fn lemma_last_line(p: Seq<u8>, line: Seq<u8>, tail: Seq<u8>)
    requires
        p.len() == 0 || p.last() == 10u8,
        line.len() > 0,
        forall|k: int| 0 <= k < line.len() ==> line[k] != 10u8,
        tail == Seq::<u8>::empty() || tail == seq![10u8],
    ensures
        report_of(p + line + tail) == match take_words(line, 0, line.len() as int, REPORT_WORDS as nat) {
            Some(w) => coverage_of_words(w),
            None => None,
        },
{
    let s = p + line + tail;
    let off = p.len() as int;
    let hi = off + line.len();
    assert(last_line_end(s) == hi) by {
        if tail.len() == 0 {
            assert(s.last() == line.last());
        } else {
            assert(s.last() == 10u8);
        }
    }
    assert(s.subrange(off, hi) =~= line);
    assert forall|k: int| off <= k < hi implies s[k] != 10u8 by {
        assert(s[k] == line[k - off]);
    }
    if off > 0 {
        assert(s[off - 1] == p.last());
    }
    lemma_line_start_after(s, off, hi);
    lemma_take_words_shift(s, line, off, 0, REPORT_WORDS as nat);
}

} // verus!
