use vstd::prelude::*;

use crate::models::{pattern_is_valid, pattern_matches, DoctorFix, KnownError};
use crate::report::copy_string;
use crate::text::str_eq;

verus! {

/// How looking for known errors in some output ended.
#[derive(Debug, Clone, Copy, PartialEq, Eq, Structural)]
pub enum AnalyzeStatus {
    NoKnownErrorsFound,
    KnownErrorFoundNoFixFound,
    KnownErrorFoundUserDenied,
    KnownErrorFoundFixFailed,
    KnownErrorFoundFixSucceeded,
}

/// The process exit code for a status: 0 when a fix succeeded, else the status's position
/// among the statuses (from 0).
pub open spec fn exit_code_of(s: AnalyzeStatus) -> i32 {
    match s {
        AnalyzeStatus::NoKnownErrorsFound => 0,
        AnalyzeStatus::KnownErrorFoundNoFixFound => 1,
        AnalyzeStatus::KnownErrorFoundUserDenied => 2,
        AnalyzeStatus::KnownErrorFoundFixFailed => 3,
        AnalyzeStatus::KnownErrorFoundFixSucceeded => 0,
    }
}

impl AnalyzeStatus {
    /// The process exit code for this status.
    pub fn to_exit_code(self) -> (r: i32)
        ensures
            r == exit_code_of(self),
    {
        match self {
            AnalyzeStatus::KnownErrorFoundFixSucceeded => 0,
            AnalyzeStatus::NoKnownErrorsFound => 0,
            AnalyzeStatus::KnownErrorFoundNoFixFound => 1,
            AnalyzeStatus::KnownErrorFoundUserDenied => 2,
            AnalyzeStatus::KnownErrorFoundFixFailed => 3,
        }
    }
}

/// How loudly a status is reported.
#[derive(Debug, Clone, Copy, PartialEq, Eq, Structural)]
pub enum ReportLevel {
    Info,
    Warn,
    Error,
}

/// The level and text a status is reported with.
pub open spec fn result_message(s: AnalyzeStatus) -> (ReportLevel, Seq<char>) {
    match s {
        AnalyzeStatus::NoKnownErrorsFound => (ReportLevel::Info, "No known errors found"@),
        AnalyzeStatus::KnownErrorFoundNoFixFound => (ReportLevel::Info, "No automatic fix available"@),
        AnalyzeStatus::KnownErrorFoundUserDenied => (ReportLevel::Warn, "User denied fix"@),
        AnalyzeStatus::KnownErrorFoundFixFailed => (ReportLevel::Error, "Fix failed"@),
        AnalyzeStatus::KnownErrorFoundFixSucceeded => (ReportLevel::Info, "Fix succeeded"@),
    }
}

/// The level and text the user is told for `status`.
pub fn report_result(status: &AnalyzeStatus) -> (r: (ReportLevel, String))
    ensures
        r.0 == result_message(*status).0,
        r.1@ == result_message(*status).1,
{
    match status {
        AnalyzeStatus::NoKnownErrorsFound => (ReportLevel::Info, "No known errors found".to_owned()),
        AnalyzeStatus::KnownErrorFoundNoFixFound => (ReportLevel::Info, "No automatic fix available".to_owned()),
        AnalyzeStatus::KnownErrorFoundUserDenied => (ReportLevel::Warn, "User denied fix".to_owned()),
        AnalyzeStatus::KnownErrorFoundFixFailed => (ReportLevel::Error, "Fix failed".to_owned()),
        AnalyzeStatus::KnownErrorFoundFixSucceeded => (ReportLevel::Info, "Fix succeeded".to_owned()),
    }
}

/// Why output could not be analyzed.
#[derive(Debug)]
pub enum AnalyzeError {
    FileNotFound { file_name: String },
    IoError(std::io::Error),
}

/// Where log lines are read from.
#[derive(Debug, Clone, PartialEq)]
pub enum LogSource {
    Stdin,
    File(String),
}

/// `-` means standard input; anything else is a file name.
pub fn log_source(location: &str) -> (r: LogSource)
    ensures
        location@ == "-"@ ==> r == LogSource::Stdin,
        location@ != "-"@ ==> (r matches LogSource::File(f) && f@ == location@),
{
    if str_eq(location, "-") {
        LogSource::Stdin
    } else {
        LogSource::File(location.to_owned())
    }
}

/// The outcome of offering a fix: denied, or run with these exit codes (the run stops
/// after the first failing command). It succeeded when the largest exit code is 0.
pub open spec fn fix_status(accepted: bool, codes: Seq<i32>) -> AnalyzeStatus {
    if !accepted {
        AnalyzeStatus::KnownErrorFoundUserDenied
    } else if max_code(codes) == 0 {
        AnalyzeStatus::KnownErrorFoundFixSucceeded
    } else {
        AnalyzeStatus::KnownErrorFoundFixFailed
    }
}

/// The largest of a non-empty list of exit codes.
pub open spec fn max_code(codes: Seq<i32>) -> int
    decreases codes.len(),
{
    if codes.len() <= 1 {
        if codes.len() == 1 { codes[0] as int } else { 0 }
    } else {
        let m = max_code(codes.drop_last());
        if codes.last() > m { codes.last() as int } else { m }
    }
}

/// Decides the status of an offered fix from the user's answer and the exit codes of the
/// fix commands that ran (a missing exit code counts as -1).
pub fn fix_outcome(accepted: bool, exit_codes: &Vec<Option<i32>>) -> (r: AnalyzeStatus)
    requires
        accepted ==> exit_codes@.len() > 0,
    ensures
        r == fix_status(accepted, exit_codes@.map_values(|c: Option<i32>| match c {
            Some(v) => v,
            None => -1i32,
        })),
{
    let ghost codes = exit_codes@.map_values(|c: Option<i32>| match c {
        Some(v) => v,
        None => -1i32,
    });
    if !accepted {
        return AnalyzeStatus::KnownErrorFoundUserDenied;
    }
    let mut m: i32 = match exit_codes[0] {
        Some(v) => v,
        None => -1,
    };
    let mut i: usize = 1;
    assert(codes.take(1).drop_last() =~= Seq::<i32>::empty());
    while i < exit_codes.len()
        invariant
            1 <= i <= exit_codes@.len(),
            codes == exit_codes@.map_values(|c: Option<i32>| match c {
                Some(v) => v,
                None => -1i32,
            }),
            m as int == max_code(codes.take(i as int)),
        decreases exit_codes@.len() - i,
    {
        let c: i32 = match exit_codes[i] {
            Some(v) => v,
            None => -1,
        };
        assert(codes.take(i as int + 1).drop_last() =~= codes.take(i as int));
        if c > m {
            m = c;
        }
        i = i + 1;
    }
    assert(codes.take(i as int) =~= codes);
    if m == 0 {
        AnalyzeStatus::KnownErrorFoundFixSucceeded
    } else {
        AnalyzeStatus::KnownErrorFoundFixFailed
    }
}

/// The exit codes of the fix commands as `fix_status` reads them: a missing code is -1.
pub open spec fn fix_codes(codes: Seq<Option<i32>>) -> Seq<i32> {
    codes.map_values(|c: Option<i32>| match c {
        Some(v) => v,
        None => -1i32,
    })
}

/// The fix commands of a known error run one after another while each succeeds: the run
/// goes on after a command only when it exited with 0.
pub fn fix_continues(code: Option<i32>) -> (r: bool)
    ensures
        r == (code == Some(0i32)),
{
    match code {
        Some(c) => c == 0,
        None => false,
    }
}

/// The status of a known error found in the input: without a fix it is
/// `KnownErrorFoundNoFixFound`; with one, it is what the user's answer and the fix
/// commands' exit codes give.
pub open spec fn found_error_status(has_fix: bool, accepted: bool, codes: Seq<Option<i32>>) -> AnalyzeStatus {
    if !has_fix {
        AnalyzeStatus::KnownErrorFoundNoFixFound
    } else {
        fix_status(accepted, fix_codes(codes))
    }
}

/// Decides the status of known error `error`, found in the input, from the user's answer
/// to its fix prompt and the exit codes of the fix commands that ran (both ignored when
/// the error has no fix).
pub fn found_error_outcome(error: &KnownError, accepted: bool, exit_codes: &Vec<Option<i32>>) -> (r: AnalyzeStatus)
    requires
        error.fix is Some && accepted ==> exit_codes@.len() > 0,
    ensures
        r == found_error_status(error.fix is Some, accepted, exit_codes@),
{
    match &error.fix {
        None => AnalyzeStatus::KnownErrorFoundNoFixFound,
        Some(_) => fix_outcome(accepted, exit_codes),
    }
}

/// The question asked before a known error's fix runs.
pub fn fix_prompt_text(fix: &DoctorFix) -> (r: String)
    ensures
        r@ == (match fix.prompt {
            Some(p) => p.text@,
            None => "Would you like to run it?"@,
        }),
{
    match &fix.prompt {
        Some(p) => copy_string(&p.text),
        None => "Would you like to run it?".to_owned(),
    }
}

/// Whether known error `e` shows up in `line`.
pub open spec fn error_in_line(e: KnownError, line: Seq<char>) -> bool {
    pattern_is_valid(e.pattern@) && pattern_matches(e.pattern@, line)
}

/// The entries of `pending` (indices into `errors`) whose error shows up in `line`, in order.
pub open spec fn matching(pending: Seq<usize>, errors: Seq<KnownError>, line: Seq<char>) -> Seq<usize>
    decreases pending.len(),
{
    if pending.len() == 0 {
        Seq::empty()
    } else {
        let rest = matching(pending.drop_last(), errors, line);
        if error_in_line(errors[pending.last() as int], line) {
            rest.push(pending.last())
        } else {
            rest
        }
    }
}

/// The known errors reported on a line are exactly the pending ones that show up in it:
/// every pending error whose pattern matches the line is among them, whatever comes before
/// it, and each one reported is pending and matches the line; they keep the pending order.
pub proof fn lemma_matching_is_exact(pending: Seq<usize>, errors: Seq<KnownError>, line: Seq<char>)
    ensures
        forall|k: int|
            0 <= k < pending.len() && error_in_line(errors[pending[k] as int], line) ==> #[trigger] matching(
                pending,
                errors,
                line,
            ).contains(pending[k]),
        forall|x: usize| #[trigger] matching(pending, errors, line).contains(x) ==> pending.contains(x)
            && error_in_line(errors[x as int], line),
        matching(pending, errors, line).len() <= pending.len(),
    decreases pending.len(),
{
    if pending.len() > 0 {
        let pre = pending.drop_last();
        let last = pending.last();
        let rest = matching(pre, errors, line);
        lemma_matching_is_exact(pre, errors, line);
        let m = matching(pending, errors, line);
        assert forall|k: int|
            0 <= k < pending.len() && error_in_line(errors[pending[k] as int], line) implies #[trigger] m.contains(
            pending[k],
        ) by {
            if k < pending.len() - 1 {
                assert(pre[k] == pending[k]);
                assert(rest.contains(pre[k]));
                let t = choose|t: int| 0 <= t < rest.len() && rest[t] == pre[k];
                if error_in_line(errors[last as int], line) {
                    assert(m[t] == rest[t]);
                }
            } else {
                assert(m[m.len() - 1] == last);
            }
        }
        assert forall|x: usize| #[trigger] m.contains(x) implies pending.contains(x) && error_in_line(errors[x as int], line) by {
            let t = choose|t: int| 0 <= t < m.len() && m[t] == x;
            if t < rest.len() {
                assert(m[t] == rest[t]);
                assert(rest.contains(x));
                let u = choose|u: int| 0 <= u < pre.len() && pre[u] == x;
                assert(pending[u] == x);
            } else {
                assert(x == last);
                assert(pending[pending.len() - 1] == x);
            }
        }
    }
}

/// The entries of `pending` that are not in `gone`, in order.
pub open spec fn without(pending: Seq<usize>, gone: Seq<usize>) -> Seq<usize>
    decreases pending.len(),
{
    if pending.len() == 0 {
        Seq::empty()
    } else {
        let rest = without(pending.drop_last(), gone);
        if gone.contains(pending.last()) {
            rest
        } else {
            rest.push(pending.last())
        }
    }
}

/// A known error found on a line is no longer looked for afterwards: once the line is
/// finished, nothing it matched is pending.
pub proof fn lemma_found_errors_not_pending(pending: Seq<usize>, matched: Seq<usize>, x: usize)
    requires
        matched.contains(x),
    ensures
        !without(pending, matched).contains(x),
    decreases pending.len(),
{
    if pending.len() > 0 {
        lemma_found_errors_not_pending(pending.drop_last(), matched, x);
        let rest = without(pending.drop_last(), matched);
        if !matched.contains(pending.last()) {
            assert(pending.last() != x);
            assert forall|i: int| 0 <= i < rest.push(pending.last()).len() implies rest.push(pending.last())[i] != x by {
                if i < rest.len() {
                    assert(rest.push(pending.last())[i] == rest[i]);
                }
            }
        }
    }
}

/// Only known errors still looked for are reported on a line.
pub proof fn lemma_matches_are_pending(pending: Seq<usize>, errors: Seq<KnownError>, line: Seq<char>, x: usize)
    requires
        matching(pending, errors, line).contains(x),
    ensures
        pending.contains(x),
    decreases pending.len(),
{
    if pending.len() > 0 {
        let rest = matching(pending.drop_last(), errors, line);
        if rest.contains(x) {
            lemma_matches_are_pending(pending.drop_last(), errors, line, x);
            let i = choose|i: int| 0 <= i < pending.drop_last().len() && pending.drop_last()[i] == x;
            assert(pending[i] == x);
        } else {
            let m = matching(pending, errors, line);
            let i = choose|i: int| 0 <= i < m.len() && m[i] == x;
            if error_in_line(errors[pending.last() as int], line) {
                assert(m == rest.push(pending.last()));
                if i < rest.len() {
                    assert(m[i] == rest[i]);
                    assert(rest.contains(x));
                }
                assert(pending[pending.len() - 1] == x);
            } else {
                assert(m == rest);
            }
        }
    }
}

/// Looks for known errors in output, line by line. Each error is reported at most once: once
/// it shows up it is no longer looked for, and when none is left the rest of the output is
/// ignored. The status is the outcome of the last error found.
pub struct KnownErrorScan {
    pending: Vec<usize>,
    result: AnalyzeStatus,
    line_number: u64,
    total: usize,
}

impl KnownErrorScan {
    /// Indices of the known errors still looked for, in order.
    pub closed spec fn pending(&self) -> Seq<usize> {
        self.pending@
    }

    /// The status so far.
    pub closed spec fn status(&self) -> AnalyzeStatus {
        self.result
    }

    /// Lines seen so far.
    pub closed spec fn lines_seen(&self) -> nat {
        self.line_number as nat
    }

    /// Number of known errors the scan was made for.
    pub closed spec fn count(&self) -> nat {
        self.total as nat
    }

    /// Every pending index is below the count, and they increase.
    pub closed spec fn wf(&self) -> bool {
        &&& forall|i: int| 0 <= i < self.pending@.len() ==> (#[trigger] self.pending@[i]) < self.total
        &&& forall|i: int, j: int| 0 <= i < j < self.pending@.len() ==> (#[trigger] self.pending@[i]) < (#[trigger] self.pending@[j])
    }

    /// A scan for `count` known errors: all pending, nothing found yet.
    pub fn new(count: usize) -> (r: KnownErrorScan)
        ensures
            r.wf(),
            r.count() == count,
            r.pending() == Seq::new(count as nat, |i: int| i as usize),
            r.status() == AnalyzeStatus::NoKnownErrorsFound,
            r.lines_seen() == 0,
    {
        let mut pending: Vec<usize> = Vec::new();
        let mut i: usize = 0;
        while i < count
            invariant
                i <= count,
                pending@ == Seq::new(i as nat, |k: int| k as usize),
            decreases count - i,
        {
            pending.push(i);
            assert(pending@ =~= Seq::new((i + 1) as nat, |k: int| k as usize));
            i = i + 1;
        }
        KnownErrorScan { pending, result: AnalyzeStatus::NoKnownErrorsFound, line_number: 0, total: count }
    }

    /// Whether there is nothing left to look for.
    pub fn is_done(&self) -> (r: bool)
        ensures
            r == (self.pending().len() == 0),
    {
        self.pending.len() == 0
    }

    /// The status so far.
    pub fn result(&self) -> (r: AnalyzeStatus)
        ensures
            r == self.status(),
    {
        self.result
    }

    /// The pending known errors that show up in `line`, in order.
    pub fn matches_on_line(&self, errors: &Vec<KnownError>, line: &str) -> (r: Vec<usize>)
        requires
            self.wf(),
            errors@.len() == self.count(),
        ensures
            r@ == matching(self.pending(), errors@, line@),
    {
        let mut out: Vec<usize> = Vec::new();
        let mut i: usize = 0;
        while i < self.pending.len()
            invariant
                i <= self.pending@.len(),
                self.wf(),
                errors@.len() == self.count(),
                out@ == matching(self.pending@.take(i as int), errors@, line@),
            decreases self.pending@.len() - i,
        {
            let idx = self.pending[i];
            assert(self.pending@.take(i as int + 1).drop_last() =~= self.pending@.take(i as int));
            if errors[idx].matches(line) {
                out.push(idx);
            }
            i = i + 1;
        }
        assert(self.pending@.take(i as int) =~= self.pending@);
        out
    }

    /// Records one line: the errors `matched` on it (as `matches_on_line` gave them) had the
    /// outcomes `outcomes`, in order. They are no longer looked for; the status becomes the
    /// last outcome, if there is one. Returns whether anything is left to look for.
    pub fn finish_line(&mut self, matched: &Vec<usize>, outcomes: &Vec<AnalyzeStatus>) -> (more: bool)
        requires
            old(self).wf(),
            outcomes@.len() == matched@.len(),
            old(self).lines_seen() < u64::MAX,
        ensures
            final(self).wf(),
            final(self).count() == old(self).count(),
            final(self).pending() == without(old(self).pending(), matched@),
            final(self).status() == (if outcomes@.len() == 0 {
                old(self).status()
            } else {
                outcomes@.last()
            }),
            final(self).lines_seen() == old(self).lines_seen() + 1,
            more == (final(self).pending().len() > 0),
    {
        let mut kept: Vec<usize> = Vec::new();
        let mut i: usize = 0;
        while i < self.pending.len()
            invariant
                i <= self.pending@.len(),
                self.wf(),
                kept@ == without(self.pending@.take(i as int), matched@),
                forall|k: int| 0 <= k < kept@.len() ==> exists|j: int| 0 <= j < i && (#[trigger] kept@[k]) == self.pending@[j],
                forall|a: int, b: int| 0 <= a < b < kept@.len() ==> (#[trigger] kept@[a]) < (#[trigger] kept@[b]),
                forall|k: int| 0 <= k < kept@.len() ==> (#[trigger] kept@[k]) < self.total,
                i > 0 && kept@.len() > 0 ==> kept@.last() <= self.pending@[i - 1],
            decreases self.pending@.len() - i,
        {
            let idx = self.pending[i];
            assert(self.pending@.take(i as int + 1).drop_last() =~= self.pending@.take(i as int));
            let mut found = false;
            let mut j: usize = 0;
            while j < matched.len()
                invariant
                    j <= matched@.len(),
                    found == (exists|k: int| 0 <= k < j && matched@[k] == idx),
                decreases matched@.len() - j,
            {
                if matched[j] == idx {
                    found = true;
                }
                j = j + 1;
            }
            assert(found == matched@.contains(idx));
            if !found {
                proof {
                    if kept@.len() > 0 {
                        assert(self.pending@[i - 1] < self.pending@[i as int]);
                    }
                }
                kept.push(idx);
            }
            i = i + 1;
        }
        assert(self.pending@.take(i as int) =~= self.pending@);
        self.pending = kept;
        if outcomes.len() > 0 {
            self.result = outcomes[outcomes.len() - 1];
        }
        self.line_number = self.line_number + 1;
        self.pending.len() > 0
    }
}

/// The exit code of an intercepted command (-1 when it has none) and whether it counts as
/// success: 0 always does, and so does each code listed as successful.
pub fn accepted_exit(exit_code: Option<i32>, successful_exit: &Vec<i32>) -> (r: (i32, bool))
    ensures
        r.0 == (match exit_code {
            Some(c) => c,
            None => -1i32,
        }),
        r.1 == (r.0 == 0 || successful_exit@.contains(r.0)),
{
    let code: i32 = match exit_code {
        Some(c) => c,
        None => -1,
    };
    if code == 0 {
        return (code, true);
    }
    let mut i: usize = 0;
    while i < successful_exit.len()
        invariant
            i <= successful_exit@.len(),
            code == (match exit_code {
                Some(c) => c,
                None => -1i32,
            }),
            forall|k: int| 0 <= k < i ==> successful_exit@[k] != code,
        decreases successful_exit@.len() - i,
    {
        if successful_exit[i] == code {
            assert(successful_exit@[i as int] == code);
            return (code, true);
        }
        i = i + 1;
    }
    (code, false)
}

/// The known errors (by index) that show up anywhere in `text`, in order.
pub fn errors_matching(errors: &Vec<KnownError>, text: &str) -> (r: Vec<usize>)
    ensures
        forall|k: int| 0 <= k < r@.len() ==> (#[trigger] r@[k]) < errors@.len() && error_in_line(errors@[r@[k] as int], text@),
        forall|i: int| 0 <= i < errors@.len() && error_in_line(errors@[i], text@) ==> r@.contains(i as usize),
        forall|a: int, b: int| 0 <= a < b < r@.len() ==> (#[trigger] r@[a]) < (#[trigger] r@[b]),
{
    let mut out: Vec<usize> = Vec::new();
    let mut i: usize = 0;
    while i < errors.len()
        invariant
            i <= errors@.len(),
            forall|k: int| 0 <= k < out@.len() ==> (#[trigger] out@[k]) < i && error_in_line(errors@[out@[k] as int], text@),
            forall|j: int| 0 <= j < i && error_in_line(errors@[j], text@) ==> out@.contains(j as usize),
            forall|a: int, b: int| 0 <= a < b < out@.len() ==> (#[trigger] out@[a]) < (#[trigger] out@[b]),
        decreases errors@.len() - i,
    {
        if errors[i].matches(text) {
            let ghost before = out@;
            out.push(i);
            assert forall|j: int| 0 <= j < i + 1 && error_in_line(errors@[j], text@) implies out@.contains(j as usize) by {
                if j < i {
                    let k = choose|k: int| 0 <= k < before.len() && before[k] == j as usize;
                    assert(out@[k] == j as usize);
                } else {
                    assert(out@[out@.len() - 1] == i);
                }
            }
        }
        i = i + 1;
    }
    out
}

} // verus!
