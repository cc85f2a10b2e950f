use vstd::prelude::*;

use crate::report::copy_string;
use crate::text::{chars_of, string_from_chars};
use crate::words::{split_spaces, split_words, lemma_split_nonempty};

verus! {

#[verifier::external_type_specification]
#[verifier::external_body]
pub struct ExFromUtf8Error(std::string::FromUtf8Error);

/// Joins pieces with `sep` between neighbours (`[..].join(sep)`).
pub open spec fn join_with(parts: Seq<Seq<char>>, sep: char) -> Seq<char>
    decreases parts.len(),
{
    if parts.len() == 0 {
        Seq::<char>::empty()
    } else if parts.len() == 1 {
        parts[0]
    } else {
        join_with(parts.drop_last(), sep) + seq![sep] + parts.last()
    }
}

/// Joins texts with `sep` between neighbours.
pub fn join_strings(parts: &[String], sep: char) -> (r: String)
    ensures
        r@ == join_with(parts@.map_values(|s: String| s@), sep),
{
    let ghost ps = parts@.map_values(|s: String| s@);
    let mut out: Vec<char> = Vec::new();
    let mut i: usize = 0;
    while i < parts.len()
        invariant
            i <= parts@.len(),
            ps == parts@.map_values(|s: String| s@),
            out@ == join_with(ps.take(i as int), sep),
        decreases parts@.len() - i,
    {
        if i > 0 {
            out.push(sep);
        }
        let w = chars_of(parts[i].as_str());
        let ghost start = out@;
        let mut j: usize = 0;
        while j < w.len()
            invariant
                j <= w.len(),
                out@ == start + w@.take(j as int),
            decreases w.len() - j,
        {
            out.push(w[j]);
            assert(w@.take(j as int + 1) =~= w@.take(j as int).push(w@[j as int]));
            j = j + 1;
        }
        assert(w@.take(w.len() as int) =~= w@);
        assert(ps.take(i as int + 1).drop_last() =~= ps.take(i as int));
        if i == 0 {
            assert(ps.take(1) =~= seq![ps[0]]);
        }
        assert(out@ =~= join_with(ps.take(i as int + 1), sep));
        i = i + 1;
    }
    assert(ps.take(parts@.len() as int) =~= ps);
    string_from_chars(&out)
}

/// Where the output of a command goes while it runs.
#[derive(Debug, Clone, PartialEq)]
pub enum OutputDestination {
    StandardOut,
    StandardOutWithPrefix(String),
    Logging,
    Null,
}

/// Why a command could not be run or captured.
#[derive(Debug)]
pub enum CaptureError {
    IoError { error: std::io::Error },
    MissingShExec { name: String },
    FromUtf8Error { error: std::string::FromUtf8Error },
}

/// Runs commands with the system's process machinery (the work itself is done by the caller
/// of this library).
#[derive(Debug, Default)]
pub struct DefaultExecutionProvider {}

/// How to run one command.
pub struct CaptureOpts<'a> {
    pub working_dir: &'a str,
    pub env_vars: Vec<(String, String)>,
    pub path: &'a str,
    pub args: &'a [String],
    pub output_dest: OutputDestination,
}

impl<'a> CaptureOpts<'a> {
    /// The command line: the arguments joined with spaces.
    pub fn command(&self) -> (r: String)
        ensures
            r@ == join_with(self.args@.map_values(|s: String| s@), ' '),
    {
        join_strings(self.args, ' ')
    }
}

/// The arguments a command line runs with: its words split on single spaces.
pub fn split_command_args(command: &str) -> (r: Vec<String>)
    ensures
        r@.map_values(|s: String| s@) == split_spaces(command@),
{
    let cs = chars_of(command);
    let words = split_words(&cs);
    let mut out: Vec<String> = Vec::new();
    let mut i: usize = 0;
    while i < words.len()
        invariant
            i <= words@.len(),
            words@.map_values(|w: Vec<char>| w@) == split_spaces(command@),
            out@.len() == i,
            forall|k: int| 0 <= k < i ==> (#[trigger] out@[k])@ == words@[k]@,
        decreases words@.len() - i,
    {
        out.push(string_from_chars(&words[i]));
        i = i + 1;
    }
    assert(out@.map_values(|s: String| s@) =~= words@.map_values(|w: Vec<char>| w@));
    out
}

/// The program a command line runs: its first word.
pub fn first_word(command: &str) -> (r: String)
    ensures
        r@ == split_spaces(command@)[0],
{
    let cs = chars_of(command);
    let words = split_words(&cs);
    proof {
        lemma_split_nonempty(command@);
    }
    string_from_chars(&words[0])
}

/// Whether a command can run, from what was found on the `PATH`: `found` is the resolved
/// program (none when it was not found), `present` whether it exists, `mode` its permission
/// bits. The program must be found, exist, and have a bit of the mask `0x700` set.
pub fn check_pre_exec(command: &str, found: Option<&str>, present: bool, mode: u32) -> (r: Result<(), CaptureError>)
    ensures
        match found {
            None => r matches Err(CaptureError::MissingShExec { name }) && name@ == command@,
            Some(p) => if !present || mode & 0x700u32 == 0 {
                r matches Err(CaptureError::MissingShExec { name }) && name@ == p@
            } else {
                r is Ok
            },
        },
{
    match found {
        None => Err(CaptureError::MissingShExec { name: command.to_owned() }),
        Some(p) => {
            if !present || mode & 0x700u32 == 0 {
                Err(CaptureError::MissingShExec { name: p.to_owned() })
            } else {
                Ok(())
            }
        },
    }
}

/// Stably inserts `x` into `s` (assumed ordered by time): after every line not later than it.
pub open spec fn insert_by_time(s: Seq<(i64, Seq<char>)>, x: (i64, Seq<char>)) -> Seq<(i64, Seq<char>)>
    decreases s.len(),
{
    if s.len() == 0 || s.last().0 <= x.0 {
        s.push(x)
    } else {
        insert_by_time(s.drop_last(), x).push(s.last())
    }
}

/// `s` stably ordered by time: lines with equal times keep their order.
pub open spec fn sort_by_time(s: Seq<(i64, Seq<char>)>) -> Seq<(i64, Seq<char>)>
    decreases s.len(),
{
    if s.len() == 0 {
        s
    } else {
        insert_by_time(sort_by_time(s.drop_last()), s.last())
    }
}

/// The times of `s` never decrease.
pub open spec fn time_ordered(s: Seq<(i64, Seq<char>)>) -> bool {
    forall|i: int, j: int| 0 <= i <= j < s.len() ==> (#[trigger] s[i]).0 <= (#[trigger] s[j]).0
}

/// The texts of timed lines.
pub open spec fn line_texts(s: Seq<(i64, Seq<char>)>) -> Seq<Seq<char>> {
    s.map_values(|p: (i64, Seq<char>)| p.1)
}

/// The position at which `insert_by_time` puts `x`: after the last line not later than it.
pub open spec fn insert_pos(s: Seq<(i64, Seq<char>)>, x: (i64, Seq<char>)) -> int
    decreases s.len(),
{
    if s.len() == 0 || s.last().0 <= x.0 {
        s.len() as int
    } else {
        insert_pos(s.drop_last(), x)
    }
}

proof fn lemma_insert_pos(s: Seq<(i64, Seq<char>)>, x: (i64, Seq<char>))
    ensures
        0 <= insert_pos(s, x) <= s.len(),
        insert_by_time(s, x) == s.take(insert_pos(s, x)).push(x) + s.skip(insert_pos(s, x)),
        forall|k: int| insert_pos(s, x) <= k < s.len() ==> (#[trigger] s[k]).0 > x.0,
        insert_pos(s, x) > 0 ==> s[insert_pos(s, x) - 1].0 <= x.0,
    decreases s.len(),
{
    if s.len() == 0 || s.last().0 <= x.0 {
        assert(s.take(s.len() as int) =~= s);
        assert(s.skip(s.len() as int) =~= Seq::<(i64, Seq<char>)>::empty());
        assert(s.take(s.len() as int).push(x) + s.skip(s.len() as int) =~= s.push(x));
    } else {
        let t = s.drop_last();
        lemma_insert_pos(t, x);
        let p = insert_pos(t, x);
        assert(s.take(p) =~= t.take(p));
        assert(s.skip(p) =~= t.skip(p).push(s.last()));
        assert(t.take(p).push(x) + t.skip(p).push(s.last()) =~= (t.take(p).push(x) + t.skip(p)).push(s.last()));
        assert forall|k: int| p <= k < s.len() implies (#[trigger] s[k]).0 > x.0 by {
            if k < t.len() {
                assert(s[k] == t[k]);
            }
        }
        if p > 0 {
            assert(s[p - 1] == t[p - 1]);
        }
    }
}

proof fn lemma_insert_keeps_lines(s: Seq<(i64, Seq<char>)>, x: (i64, Seq<char>))
    ensures
        insert_by_time(s, x).to_multiset() == s.to_multiset().insert(x),
    decreases s.len(),
{
    broadcast use vstd::seq_lib::group_to_multiset_ensures;
    if s.len() == 0 || s.last().0 <= x.0 {
    } else {
        let t = s.drop_last();
        lemma_insert_keeps_lines(t, x);
        assert(s == t.push(s.last()));
        assert(insert_by_time(s, x).to_multiset() =~= s.to_multiset().insert(x));
    }
}

/// Interleaving by time loses no line and adds none: the result holds exactly the lines it
/// was given.
pub proof fn lemma_sort_keeps_lines(s: Seq<(i64, Seq<char>)>)
    ensures
        sort_by_time(s).to_multiset() == s.to_multiset(),
    decreases s.len(),
{
    broadcast use vstd::seq_lib::group_to_multiset_ensures;
    if s.len() > 0 {
        let t = s.drop_last();
        lemma_sort_keeps_lines(t);
        lemma_insert_keeps_lines(sort_by_time(t), s.last());
        assert(s == t.push(s.last()));
        assert(sort_by_time(s).to_multiset() =~= s.to_multiset());
    }
}

/// Lines already ordered by time come out of the stable ordering unchanged.
pub proof fn lemma_sort_ordered_identity(s: Seq<(i64, Seq<char>)>)
    requires
        time_ordered(s),
    ensures
        sort_by_time(s) == s,
    decreases s.len(),
{
    if s.len() > 0 {
        let t = s.drop_last();
        assert(time_ordered(t));
        lemma_sort_ordered_identity(t);
        assert(s.drop_last().push(s.last()) =~= s);
        if t.len() > 0 {
            assert(t.last() == s[s.len() - 2]);
        }
    }
}

/// Lines captured from a command, with the times they arrived (microseconds since the epoch).
#[derive(Debug, Clone)]
pub struct OutputCapture {
    pub working_dir: String,
    pub stdout: Vec<(i64, String)>,
    pub stderr: Vec<(i64, String)>,
    pub exit_code: Option<i32>,
    pub start_time: i64,
    pub end_time: i64,
    pub command: String,
}

/// Timed lines as timed texts.
pub open spec fn timed_view(v: Seq<(i64, String)>) -> Seq<(i64, Seq<char>)> {
    v.map_values(|p: (i64, String)| (p.0, p.1@))
}

fn timed_texts(v: &Vec<(i64, String)>) -> (r: Vec<String>)
    ensures
        r@.map_values(|s: String| s@) == line_texts(timed_view(v@)),
{
    let mut out: Vec<String> = Vec::new();
    let mut i: usize = 0;
    while i < v.len()
        invariant
            i <= v@.len(),
            out@.len() == i,
            forall|k: int| 0 <= k < i ==> (#[trigger] out@[k])@ == v@[k].1@,
        decreases v@.len() - i,
    {
        out.push(copy_string(&v[i].1));
        i = i + 1;
    }
    assert(out@.map_values(|s: String| s@) =~= line_texts(timed_view(v@)));
    out
}

impl OutputCapture {
    /// The standard output lines, with times.
    pub open spec fn stdout_lines(&self) -> Seq<(i64, Seq<char>)> {
        timed_view(self.stdout@)
    }

    /// The standard error lines, with times.
    pub open spec fn stderr_lines(&self) -> Seq<(i64, Seq<char>)> {
        timed_view(self.stderr@)
    }

    /// A capture of `command` run in `working_dir`.
    pub fn new(
        working_dir: String,
        command: String,
        stdout: Vec<(i64, String)>,
        stderr: Vec<(i64, String)>,
        exit_code: Option<i32>,
        start_time: i64,
        end_time: i64,
    ) -> (r: OutputCapture)
        ensures
            r.working_dir == working_dir,
            r.command == command,
            r.stdout_lines() == timed_view(stdout@),
            r.stderr_lines() == timed_view(stderr@),
            r.exit_code == exit_code,
            r.start_time == start_time,
            r.end_time == end_time,
    {
        OutputCapture { working_dir, stdout, stderr, exit_code, start_time, end_time, command }
    }

    /// The standard output lines, joined with newlines.
    pub fn get_stdout(&self) -> (r: String)
        ensures
            r@ == join_with(line_texts(self.stdout_lines()), '\n'),
    {
        let v = timed_texts(&self.stdout);
        join_strings(v.as_slice(), '\n')
    }

    /// The standard error lines, joined with newlines.
    pub fn get_stderr(&self) -> (r: String)
        ensures
            r@ == join_with(line_texts(self.stderr_lines()), '\n'),
    {
        let v = timed_texts(&self.stderr);
        join_strings(v.as_slice(), '\n')
    }

    /// Standard output and standard error interleaved by time (stably: standard output
    /// first among lines of equal time, each stream in its own order), joined with newlines.
    pub fn generate_user_output(&self) -> (r: String)
        ensures
            r@ == join_with(line_texts(sort_by_time(self.stdout_lines() + self.stderr_lines())), '\n'),
    {
        let ghost out_lines = self.stdout_lines();
        let ghost err_lines = self.stderr_lines();
        let mut sorted: Vec<(i64, String)> = Vec::new();
        let mut i: usize = 0;
        while i < self.stdout.len()
            invariant
                i <= self.stdout@.len(),
                out_lines == self.stdout_lines(),
                timed_view(sorted@) == sort_by_time(out_lines.take(i as int)),
            decreases self.stdout@.len() - i,
        {
            assert(out_lines.take(i as int + 1).drop_last() =~= out_lines.take(i as int));
            insert_line(&mut sorted, self.stdout[i].0, copy_string(&self.stdout[i].1));
            i = i + 1;
        }
        assert(out_lines.take(i as int) =~= out_lines);
        let mut j: usize = 0;
        while j < self.stderr.len()
            invariant
                j <= self.stderr@.len(),
                out_lines == self.stdout_lines(),
                err_lines == self.stderr_lines(),
                timed_view(sorted@) == sort_by_time(out_lines + err_lines.take(j as int)),
            decreases self.stderr@.len() - j,
        {
            assert((out_lines + err_lines.take(j as int + 1)).drop_last() =~= out_lines + err_lines.take(j as int));
            insert_line(&mut sorted, self.stderr[j].0, copy_string(&self.stderr[j].1));
            j = j + 1;
        }
        assert(err_lines.take(j as int) =~= err_lines);
        let texts = timed_texts(&sorted);
        join_strings(texts.as_slice(), '\n')
    }
}

/// Inserts a line into lines ordered by time, after every line not later than it.
fn insert_line(sorted: &mut Vec<(i64, String)>, t: i64, line: String)
    ensures
        timed_view(final(sorted)@) == insert_by_time(timed_view(old(sorted)@), (t, line@)),
{
    let ghost x = (t, line@);
    let ghost before = timed_view(sorted@);
    proof {
        lemma_insert_pos(before, x);
    }
    let mut j: usize = sorted.len();
    while j > 0 && sorted[j - 1].0 > t
        invariant
            j <= sorted@.len(),
            before == timed_view(sorted@),
            x.0 == t,
            forall|k: int| j <= k < sorted@.len() ==> (#[trigger] sorted@[k]).0 > t,
            insert_pos(before, x) <= j,
            insert_pos(before, x) > 0 ==> before[insert_pos(before, x) - 1].0 <= x.0,
            forall|k: int| insert_pos(before, x) <= k < before.len() ==> (#[trigger] before[k]).0 > x.0,
        decreases j,
    {
        j = j - 1;
    }
    proof {
        if j > insert_pos(before, x) {
            assert(before[j - 1].0 > t);
            assert(sorted@[j - 1].0 <= t);
        }
    }
    assert(j == insert_pos(before, x));
    sorted.insert(j, (t, line));
    assert(timed_view(sorted@) =~= before.take(j as int).push(x) + before.skip(j as int));
}

/// When standard error is empty, the interleaved output is the standard output.
pub proof fn lemma_user_output_single_stream(out: Seq<(i64, Seq<char>)>)
    requires
        time_ordered(out),
    ensures
        sort_by_time(out + Seq::<(i64, Seq<char>)>::empty()) == out,
{
    assert(out + Seq::<(i64, Seq<char>)>::empty() =~= out);
    lemma_sort_ordered_identity(out);
}

} // verus!
