use vstd::prelude::*;

use crate::analyze::ReportLevel;
use crate::check::{spec_is_failure, ActionRunStatus};
use crate::models::{decimal, decimal_text, DoctorGroup};
use crate::report::{copy_string, copy_tasks, ActionReport, ActionTaskReport};
use crate::text::{chars_of, string_from_chars};
use crate::v1alpha::{opt_text, SkipSpec};

verus! {

/// How the skip setting of a group is decided: it is fixed, or a command decides.
#[derive(Debug, Clone, PartialEq)]
pub enum SkipDecision {
    /// The group is skipped exactly when this is true.
    Decided(bool),
    /// Run `command` with `PATH` set to `path`; the group is skipped when it exits with 0.
    Run { command: String, path: String },
}

/// How to decide whether `group` is skipped; a skip command runs with the group's directory
/// in front of its own `PATH`.
pub fn skip_plan(group: &DoctorGroup) -> (r: SkipDecision)
    ensures
        match group.skip {
            SkipSpec::Skip(b) => r == SkipDecision::Decided(b),
            SkipSpec::Command { command } => r matches SkipDecision::Run { command: c, path } && c@ == command@
                && path@ == opt_text(group.metadata.annotations.file_dir) + seq![':'] + opt_text(
                group.metadata.annotations.bin_path,
            ),
        },
{
    match &group.skip {
        SkipSpec::Skip(b) => SkipDecision::Decided(*b),
        SkipSpec::Command { command } => {
            let mut p = chars_of(group.metadata.containing_dir().as_str());
            p.push(':');
            let e = chars_of(group.metadata.exec_path().as_str());
            let ghost base = p@;
            let mut i: usize = 0;
            while i < e.len()
                invariant
                    i <= e@.len(),
                    p@ == base + e@.take(i as int),
                decreases e@.len() - i,
            {
                p.push(e[i]);
                assert(e@.take(i as int + 1) =~= e@.take(i as int).push(e@[i as int]));
                i = i + 1;
            }
            assert(e@.take(i as int) =~= e@);
            SkipDecision::Run { command: copy_string(command), path: string_from_chars(&p) }
        },
    }
}

/// A skip command decides to skip the group when it exits with 0.
pub fn skip_from_exit(exit_code: Option<i32>) -> (r: bool)
    ensures
        r == (exit_code == Some(0i32)),
{
    match exit_code {
        Some(c) => c == 0,
        None => false,
    }
}

/// The result of one action: its status and the commands of each phase.
#[derive(Debug)]
pub struct ActionRunResult {
    pub action_name: String,
    pub status: ActionRunStatus,
    pub action_report: ActionReport,
}

/// The tasks of a phase, none when the phase did not run.
pub open spec fn phase_tasks(o: Option<Vec<ActionTaskReport>>) -> Seq<ActionTaskReport> {
    match o {
        Some(v) => v@,
        None => Seq::empty(),
    }
}

impl ActionRunResult {
    /// The result of action `name`, with the tasks of the phases that ran.
    pub fn new(
        name: &str,
        status: ActionRunStatus,
        check_output: Option<Vec<ActionTaskReport>>,
        fix_output: Option<Vec<ActionTaskReport>>,
        validate_output: Option<Vec<ActionTaskReport>>,
    ) -> (r: Self)
        ensures
            r.action_name@ == name@,
            r.status == status,
            r.action_report.action_name@ == name@,
            r.action_report.check@ == phase_tasks(check_output),
            r.action_report.fix@ == phase_tasks(fix_output),
            r.action_report.validate@ == phase_tasks(validate_output),
    {
        let check = match check_output {
            Some(v) => v,
            None => Vec::new(),
        };
        let fix = match fix_output {
            Some(v) => v,
            None => Vec::new(),
        };
        let validate = match validate_output {
            Some(v) => v,
            None => Vec::new(),
        };
        ActionRunResult {
            action_name: name.to_owned(),
            status,
            action_report: ActionReport { action_name: name.to_owned(), check, fix, validate },
        }
    }
}

/// How an action's end is told to the user: level, text, and whether the output of its
/// commands is shown.
pub open spec fn outcome_message(s: ActionRunStatus) -> (ReportLevel, Seq<char>, bool) {
    match s {
        ActionRunStatus::CheckSucceeded => (ReportLevel::Info, "Check was successful"@, false),
        ActionRunStatus::NoCheckFixSucceeded => (ReportLevel::Info, "Fix ran successfully"@, false),
        ActionRunStatus::CheckFailedFixSucceedVerifySucceed => (
            ReportLevel::Info,
            "Check initially failed, fix was successful"@,
            false,
        ),
        ActionRunStatus::CheckFailedFixFailed => (ReportLevel::Error, "Check failed, fix ran and failed"@, true),
        ActionRunStatus::CheckFailedFixSucceedVerifyFailed => (
            ReportLevel::Error,
            "Check initially failed, fix ran, verification failed"@,
            true,
        ),
        ActionRunStatus::CheckFailedNoRunFix => (ReportLevel::Info, "Check failed, fix was not run"@, false),
        ActionRunStatus::CheckFailedNoFixProvided => (ReportLevel::Error, "Check failed, no fix provided"@, true),
        ActionRunStatus::CheckFailedFixFailedStop => (
            ReportLevel::Error,
            "Check failed, fix ran and failed and aborted"@,
            true,
        ),
        ActionRunStatus::CheckFailedFixUserDenied => (
            ReportLevel::Warn,
            "Checked failed, user opted not to run fix"@,
            true,
        ),
    }
}

/// What the user is told when an action ends: level, text, whether its command output is
/// shown, and whether its help is shown (only for failures).
pub fn report_action_output(status: ActionRunStatus) -> (r: (ReportLevel, String, bool, bool))
    ensures
        r.0 == outcome_message(status).0,
        r.1@ == outcome_message(status).1,
        r.2 == outcome_message(status).2,
        r.3 == spec_is_failure(status),
{
    let (level, text, details): (ReportLevel, &str, bool) = match status {
        ActionRunStatus::CheckSucceeded => (ReportLevel::Info, "Check was successful", false),
        ActionRunStatus::NoCheckFixSucceeded => (ReportLevel::Info, "Fix ran successfully", false),
        ActionRunStatus::CheckFailedFixSucceedVerifySucceed => (
            ReportLevel::Info,
            "Check initially failed, fix was successful",
            false,
        ),
        ActionRunStatus::CheckFailedFixFailed => (ReportLevel::Error, "Check failed, fix ran and failed", true),
        ActionRunStatus::CheckFailedFixSucceedVerifyFailed => (
            ReportLevel::Error,
            "Check initially failed, fix ran, verification failed",
            true,
        ),
        ActionRunStatus::CheckFailedNoRunFix => (ReportLevel::Info, "Check failed, fix was not run", false),
        ActionRunStatus::CheckFailedNoFixProvided => (ReportLevel::Error, "Check failed, no fix provided", true),
        ActionRunStatus::CheckFailedFixFailedStop => (
            ReportLevel::Error,
            "Check failed, fix ran and failed and aborted",
            true,
        ),
        ActionRunStatus::CheckFailedFixUserDenied => (
            ReportLevel::Warn,
            "Checked failed, user opted not to run fix",
            true,
        ),
    };
    (level, text.to_owned(), details, status.is_failure())
}

/// The lines of a text as `str::lines` gives them: split at each `\n`, without a final
/// empty line after a trailing `\n`, each without a trailing `\r`.
pub open spec fn text_lines(s: Seq<char>) -> Seq<Seq<char>>
    decreases s.len(),
{
    if s.len() == 0 {
        Seq::empty()
    } else {
        let raw = raw_lines(s);
        let kept = if s.last() == '\n' { raw.drop_last() } else { raw };
        kept.map_values(|l: Seq<char>| strip_cr(l))
    }
}

/// `s` split at each `\n` (a text with `k` newlines gives `k + 1` pieces).
pub open spec fn raw_lines(s: Seq<char>) -> Seq<Seq<char>>
    decreases s.len(),
{
    if s.len() == 0 {
        seq![Seq::<char>::empty()]
    } else {
        let rest = raw_lines(s.drop_last());
        if s.last() == '\n' {
            rest.push(Seq::empty())
        } else {
            rest.update(rest.len() - 1, rest.last().push(s.last()))
        }
    }
}

/// A line without its trailing carriage return.
pub open spec fn strip_cr(l: Seq<char>) -> Seq<char> {
    if l.len() > 0 && l.last() == '\r' {
        l.drop_last()
    } else {
        l
    }
}

proof fn lemma_raw_lines_nonempty(s: Seq<char>)
    ensures
        raw_lines(s).len() >= 1,
    decreases s.len(),
{
    if s.len() > 0 {
        lemma_raw_lines_nonempty(s.drop_last());
    }
}

fn split_raw_lines(cs: &Vec<char>) -> (r: Vec<Vec<char>>)
    ensures
        r@.map_values(|l: Vec<char>| l@) == raw_lines(cs@),
{
    let mut done: Vec<Vec<char>> = Vec::new();
    let mut cur: Vec<char> = Vec::new();
    let mut i: usize = 0;
    while i < cs.len()
        invariant
            i <= cs@.len(),
            done@.map_values(|l: Vec<char>| l@).push(cur@) == raw_lines(cs@.take(i as int)),
        decreases cs@.len() - i,
    {
        let ghost before = done@.map_values(|l: Vec<char>| l@);
        assert(cs@.take(i as int + 1).drop_last() =~= cs@.take(i as int));
        proof {
            lemma_raw_lines_nonempty(cs@.take(i as int));
        }
        if cs[i] == '\n' {
            let finished = cur;
            cur = Vec::new();
            done.push(finished);
            assert(done@.map_values(|l: Vec<char>| l@).push(cur@) =~= raw_lines(cs@.take(i as int + 1)));
        } else {
            cur.push(cs[i]);
            assert(done@.map_values(|l: Vec<char>| l@).push(cur@) =~= raw_lines(cs@.take(i as int + 1)));
        }
        i = i + 1;
    }
    assert(cs@.take(i as int) =~= cs@);
    let ghost before = done@.map_values(|l: Vec<char>| l@);
    done.push(cur);
    assert(done@.map_values(|l: Vec<char>| l@) =~= before.push(cur@));
    done
}

/// The lines shown for the output of a failed action's commands: each line of the output,
/// after `group/action:  `.
pub open spec fn prefixed_lines(group: Seq<char>, action: Seq<char>, output: Seq<char>) -> Seq<Seq<char>> {
    text_lines(output).map_values(|l: Seq<char>| group + seq!['/'] + action + seq![':', ' ', ' '] + l)
}

/// Prefixes each line of a command's output with `group/action:  `.
pub fn print_pretty_lines(group: &str, action: &str, output: &str) -> (r: Vec<String>)
    ensures
        r@.map_values(|s: String| s@) == prefixed_lines(group@, action@, output@),
{
    let cs = chars_of(output);
    if cs.len() == 0 {
        let r: Vec<String> = Vec::new();
        assert(r@.map_values(|s: String| s@) =~= prefixed_lines(group@, action@, output@));
        return r;
    }
    let raw = split_raw_lines(&cs);
    proof {
        lemma_raw_lines_nonempty(output@);
    }
    let n = if cs[cs.len() - 1] == '\n' { raw.len() - 1 } else { raw.len() };
    let mut prefix = chars_of(group);
    prefix.push('/');
    let a = chars_of(action);
    let ghost pbase = prefix@;
    let mut k: usize = 0;
    while k < a.len()
        invariant
            k <= a@.len(),
            prefix@ == pbase + a@.take(k as int),
        decreases a@.len() - k,
    {
        prefix.push(a[k]);
        assert(a@.take(k as int + 1) =~= a@.take(k as int).push(a@[k as int]));
        k = k + 1;
    }
    assert(a@.take(k as int) =~= a@);
    prefix.push(':');
    prefix.push(' ');
    prefix.push(' ');
    assert(prefix@ =~= group@ + seq!['/'] + action@ + seq![':', ' ', ' ']);
    let ghost kept = if output@.last() == '\n' { raw_lines(output@).drop_last() } else { raw_lines(output@) };
    let mut out: Vec<String> = Vec::new();
    let mut i: usize = 0;
    while i < n
        invariant
            n <= raw@.len(),
            raw@.map_values(|l: Vec<char>| l@) == raw_lines(output@),
            kept.len() == n,
            forall|j: int| 0 <= j < n ==> kept[j] == raw@[j]@,
            i <= n,
            out@.len() == i,
            prefix@ == group@ + seq!['/'] + action@ + seq![':', ' ', ' '],
            forall|j: int| 0 <= j < i ==> (#[trigger] out@[j])@ == prefix@ + strip_cr(kept[j]),
        decreases n - i,
    {
        let line = &raw[i];
        let mut len = line.len();
        if len > 0 && line[len - 1] == '\r' {
            len = len - 1;
        }
        let mut s = prefix.clone();
        let ghost sb = s@;
        let mut j: usize = 0;
        while j < len
            invariant
                j <= len <= line@.len(),
                s@ == sb + line@.take(j as int),
            decreases len - j,
        {
            s.push(line[j]);
            assert(line@.take(j as int + 1) =~= line@.take(j as int).push(line@[j as int]));
            j = j + 1;
        }
        assert(line@.take(len as int) =~= strip_cr(line@));
        out.push(string_from_chars(&s));
        i = i + 1;
    }
    assert(out@.map_values(|s: String| s@) =~= prefixed_lines(group@, action@, output@));
    out
}

/// `<n> groups <word>`.
pub open spec fn summary_part(n: nat, word: Seq<char>) -> Seq<char> {
    decimal(n) + " groups "@ + word
}

/// The summary of a run: how many groups succeeded, then how many failed and how many were
/// skipped when there are any, separated by `, `.
pub open spec fn summary_text(succeeded: nat, failed: nat, skipped: nat) -> Seq<char> {
    let first = summary_part(succeeded, "succeeded"@);
    let with_failed = if failed > 0 { first + ", "@ + summary_part(failed, "failed"@) } else { first };
    if skipped > 0 { with_failed + ", "@ + summary_part(skipped, "skipped"@) } else { with_failed }
}

fn push_text(out: &mut Vec<char>, s: &str)
    ensures
        final(out)@ == old(out)@ + s@,
{
    let cs = chars_of(s);
    let ghost base = out@;
    let mut i: usize = 0;
    while i < cs.len()
        invariant
            i <= cs@.len(),
            cs@ == s@,
            out@ == base + cs@.take(i as int),
        decreases cs@.len() - i,
    {
        out.push(cs[i]);
        assert(cs@.take(i as int + 1) =~= cs@.take(i as int).push(cs@[i as int]));
        i = i + 1;
    }
    assert(cs@.take(i as int) =~= cs@);
}

/// The summary line of a run (see `summary_text`).
pub fn run_summary(succeeded: usize, failed: usize, skipped: usize) -> (r: String)
    ensures
        r@ == summary_text(succeeded as nat, failed as nat, skipped as nat),
{
    let mut out: Vec<char> = Vec::new();
    push_text(&mut out, decimal_text(succeeded).as_str());
    push_text(&mut out, " groups succeeded");
    assert(out@ =~= summary_part(succeeded as nat, "succeeded"@)) by {
        reveal_strlit(" groups succeeded");
        reveal_strlit(" groups ");
        reveal_strlit("succeeded");
    }
    if failed > 0 {
        let ghost before = out@;
        push_text(&mut out, ", ");
        push_text(&mut out, decimal_text(failed).as_str());
        push_text(&mut out, " groups failed");
        assert(out@ =~= before + ", "@ + summary_part(failed as nat, "failed"@)) by {
            reveal_strlit(" groups failed");
            reveal_strlit(" groups ");
            reveal_strlit("failed");
        }
    }
    if skipped > 0 {
        let ghost before = out@;
        push_text(&mut out, ", ");
        push_text(&mut out, decimal_text(skipped).as_str());
        push_text(&mut out, " groups skipped");
        assert(out@ =~= before + ", "@ + summary_part(skipped as nat, "skipped"@)) by {
            reveal_strlit(" groups skipped");
            reveal_strlit(" groups ");
            reveal_strlit("skipped");
        }
    }
    string_from_chars(&out)
}

} // verus!
