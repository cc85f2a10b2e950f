use vstd::prelude::*;

verus! {

/// Result of evaluating the checks of an action.
#[derive(Debug, Clone, Copy, PartialEq, Eq, Structural)]
pub enum CacheStatus {
    FixNotRequired,
    FixRequired,
    StopExecution,
    CacheNotDefined,
}

/// The position of a status in the order `FixNotRequired < FixRequired < StopExecution <
/// CacheNotDefined`; the worse of two statuses is the one with the higher rank.
pub open spec fn rank(s: CacheStatus) -> int {
    match s {
        CacheStatus::FixNotRequired => 1,
        CacheStatus::FixRequired => 2,
        CacheStatus::StopExecution => 3,
        CacheStatus::CacheNotDefined => 4,
    }
}

pub open spec fn spec_is_success(s: CacheStatus) -> bool {
    s == CacheStatus::FixNotRequired || s == CacheStatus::CacheNotDefined
}

impl CacheStatus {
    /// No fix is needed: the checks passed, or there was nothing to check.
    pub fn is_success(&self) -> (r: bool)
        ensures
            r == spec_is_success(*self),
    {
        *self == CacheStatus::FixNotRequired || *self == CacheStatus::CacheNotDefined
    }

    /// The status of higher rank.
    pub fn max(self, other: CacheStatus) -> (r: CacheStatus)
        ensures
            r == spec_max(self, other),
    {
        if rank_of(self) >= rank_of(other) {
            self
        } else {
            other
        }
    }
}

fn rank_of(s: CacheStatus) -> (r: u8)
    ensures
        r == rank(s),
{
    match s {
        CacheStatus::FixNotRequired => 1,
        CacheStatus::FixRequired => 2,
        CacheStatus::StopExecution => 3,
        CacheStatus::CacheNotDefined => 4,
    }
}

pub open spec fn spec_max(a: CacheStatus, b: CacheStatus) -> CacheStatus {
    if rank(a) >= rank(b) {
        a
    } else {
        b
    }
}

/// How an action ended.
#[derive(Debug, Clone, Copy, PartialEq, Eq, Structural)]
pub enum ActionRunStatus {
    CheckSucceeded,
    CheckFailedFixSucceedVerifySucceed,
    CheckFailedFixFailed,
    CheckFailedFixSucceedVerifyFailed,
    CheckFailedNoRunFix,
    CheckFailedNoFixProvided,
    CheckFailedFixFailedStop,
    CheckFailedFixUserDenied,
    NoCheckFixSucceeded,
}

pub open spec fn spec_is_failure(s: ActionRunStatus) -> bool {
    match s {
        ActionRunStatus::CheckSucceeded => false,
        ActionRunStatus::CheckFailedFixSucceedVerifySucceed => false,
        ActionRunStatus::CheckFailedFixFailed => true,
        ActionRunStatus::CheckFailedFixSucceedVerifyFailed => true,
        ActionRunStatus::CheckFailedNoRunFix => true,
        ActionRunStatus::CheckFailedNoFixProvided => true,
        ActionRunStatus::CheckFailedFixFailedStop => true,
        ActionRunStatus::CheckFailedFixUserDenied => false,
        ActionRunStatus::NoCheckFixSucceeded => false,
    }
}

impl ActionRunStatus {
    /// Whether the action counts as failed.
    pub fn is_failure(&self) -> (r: bool)
        ensures
            r == spec_is_failure(*self),
    {
        match self {
            ActionRunStatus::CheckSucceeded => false,
            ActionRunStatus::CheckFailedFixSucceedVerifySucceed => false,
            ActionRunStatus::CheckFailedFixFailed => true,
            ActionRunStatus::CheckFailedFixSucceedVerifyFailed => true,
            ActionRunStatus::CheckFailedNoRunFix => true,
            ActionRunStatus::CheckFailedNoFixProvided => true,
            ActionRunStatus::CheckFailedFixFailedStop => true,
            ActionRunStatus::CheckFailedFixUserDenied => false,
            ActionRunStatus::NoCheckFixSucceeded => false,
        }
    }
}

/// The exit code recorded for a fix when there is no fix command.
pub const NO_COMMANDS_EXIT_CODE: i32 = -1;

/// The exit code recorded for a fix when the user declined to run it.
pub const USER_DENIED_EXIT_CODE: i32 = -2;

/// What one check command's exit code says: success, stop everything (100 and above), or
/// fix required (any other code, or no code at all).
pub open spec fn exit_status(code: Option<i32>) -> CacheStatus {
    match code {
        Some(c) => if c == 0 {
            CacheStatus::FixNotRequired
        } else if c >= 100 {
            CacheStatus::StopExecution
        } else {
            CacheStatus::FixRequired
        },
        None => CacheStatus::FixRequired,
    }
}

/// The worst status among the exit codes of the check commands that ran; `FixRequired`
/// when none ran.
pub open spec fn check_result(codes: Seq<Option<i32>>) -> CacheStatus
    decreases codes.len(),
{
    if codes.len() == 0 {
        CacheStatus::FixRequired
    } else if codes.len() == 1 {
        exit_status(codes[0])
    } else {
        spec_max(check_result(codes.drop_last()), exit_status(codes.last()))
    }
}

/// The check commands that ran are exactly the ones the run asks for: all `n` of them,
/// unless one of them says to stop, in which case none after it.
pub open spec fn check_run_complete(n: nat, codes: Seq<Option<i32>>) -> bool {
    &&& codes.len() <= n
    &&& (codes.len() == n || check_result(codes) == CacheStatus::StopExecution)
    &&& forall|k: int| 0 < k < codes.len() ==> check_result(#[trigger] codes.take(k)) != CacheStatus::StopExecution
}

/// The highest exit code among the fix commands that ran, a missing code counting as -1;
/// -1 when none ran.
pub open spec fn fix_result(codes: Seq<Option<i32>>) -> int
    decreases codes.len(),
{
    if codes.len() == 0 {
        -1
    } else {
        let prev = fix_result(codes.drop_last());
        let c: int = match codes.last() {
            Some(c) => c as int,
            None => -1,
        };
        if prev >= c {
            prev
        } else {
            c
        }
    }
}

/// The fix commands that ran are exactly the ones the run asks for: all `n`, unless the
/// highest exit code reached 100, in which case none after that.
pub open spec fn fix_run_complete(n: nat, codes: Seq<Option<i32>>) -> bool {
    &&& codes.len() <= n
    &&& (codes.len() == n || fix_result(codes) >= 100)
    &&& forall|k: int| 0 <= k < codes.len() ==> fix_result(#[trigger] codes.take(k)) < 100
}

/// The shape of one action: what it checks and how it fixes.
#[derive(Debug, Clone, Copy)]
pub struct ActionPlan {
    /// The action checks files for changes.
    pub has_paths: bool,
    /// The action has a list of check commands (possibly empty).
    pub has_check_commands: bool,
    /// Number of check commands.
    pub check_commands: usize,
    /// Number of fix commands, if the action has a fix command list.
    pub fix_commands: Option<usize>,
    /// The user must agree before the fix runs.
    pub prompt: bool,
    /// Fixes may run at all.
    pub run_fix: bool,
}

/// What the outside world reported while the action ran.
pub struct ActionHistory {
    pub paths_unchanged: Option<bool>,
    pub check_codes: Seq<Option<i32>>,
    pub user_agreed: Option<bool>,
    pub fix_codes: Seq<Option<i32>>,
    pub validate_codes: Seq<Option<i32>>,
    /// The caches were updated after a successful fix.
    pub caches_updated: bool,
}

/// The result of the initial checks: a changed path set requires a fix; otherwise a failing
/// command check decides; otherwise the action is fine, or has nothing to check.
pub open spec fn initial_check_status(plan: ActionPlan, h: ActionHistory) -> CacheStatus {
    if plan.has_paths && h.paths_unchanged != Some(true) {
        CacheStatus::FixRequired
    } else if plan.has_check_commands && !spec_is_success(check_result(h.check_codes)) {
        check_result(h.check_codes)
    } else if plan.has_paths || plan.has_check_commands {
        CacheStatus::FixNotRequired
    } else {
        CacheStatus::CacheNotDefined
    }
}

/// The code the fix phase ends with: -1 without fix commands, -2 when the user declined,
/// otherwise the highest exit code of the fix commands.
pub open spec fn fix_phase_code(plan: ActionPlan, h: ActionHistory) -> int {
    match plan.fix_commands {
        None => NO_COMMANDS_EXIT_CODE as int,
        Some(_) => if plan.prompt && h.user_agreed != Some(true) {
            USER_DENIED_EXIT_CODE as int
        } else {
            fix_result(h.fix_codes)
        },
    }
}

/// How an action ends, given what the outside world reported.
pub open spec fn action_outcome(plan: ActionPlan, h: ActionHistory) -> ActionRunStatus {
    let cs = initial_check_status(plan, h);
    let code = fix_phase_code(plan, h);
    if cs == CacheStatus::FixNotRequired {
        ActionRunStatus::CheckSucceeded
    } else if !plan.run_fix {
        ActionRunStatus::CheckFailedNoRunFix
    } else if code <= -3 || code == -1 {
        ActionRunStatus::CheckFailedNoFixProvided
    } else if code == -2 {
        ActionRunStatus::CheckFailedFixUserDenied
    } else if 1 <= code <= 100 {
        ActionRunStatus::CheckFailedFixFailed
    } else if code > 100 {
        ActionRunStatus::CheckFailedFixFailedStop
    } else if cs == CacheStatus::CacheNotDefined {
        ActionRunStatus::NoCheckFixSucceeded
    } else if plan.has_check_commands && check_result(h.validate_codes) != CacheStatus::FixNotRequired {
        ActionRunStatus::CheckFailedFixSucceedVerifyFailed
    } else {
        ActionRunStatus::CheckFailedFixSucceedVerifySucceed
    }
}

/// The check commands run: the action has some, and its paths (if any) are unchanged.
pub open spec fn checks_run(p: ActionPlan, h: ActionHistory) -> bool {
    p.has_check_commands && (!p.has_paths || h.paths_unchanged == Some(true))
}

/// A fix is called for and offered: the checks asked for one, fixes may run, and the
/// action has fix commands.
pub open spec fn fix_asked(p: ActionPlan, h: ActionHistory) -> bool {
    initial_check_status(p, h) != CacheStatus::FixNotRequired && p.run_fix && p.fix_commands is Some
}

/// The fix ran and every fix command succeeded.
pub open spec fn fix_succeeded(p: ActionPlan, h: ActionHistory) -> bool {
    fix_asked(p, h) && fix_phase_code(p, h) == 0
}

/// After a successful fix, the check commands run again to verify it.
pub open spec fn validation_runs(p: ActionPlan, h: ActionHistory) -> bool {
    fix_succeeded(p, h) && initial_check_status(p, h) != CacheStatus::CacheNotDefined && p.has_check_commands
}

/// An outcome after which the caches are updated: the fix succeeded (and was verified).
pub open spec fn caches_due(s: ActionRunStatus) -> bool {
    s == ActionRunStatus::NoCheckFixSucceeded || s == ActionRunStatus::CheckFailedFixSucceedVerifySucceed
}

/// The step an action takes next, given its plan and what was reported so far: check the
/// paths, then run the check commands, then (when a fix is called for) ask the user and run
/// the fix commands, then run the check commands again to verify a successful fix, then
/// update the caches after a verified fix, and then end with `action_outcome`.
pub open spec fn next_step(p: ActionPlan, h: ActionHistory) -> ActionStep {
    if p.has_paths && h.paths_unchanged is None {
        ActionStep::CheckPaths
    } else if checks_run(p, h) && !check_run_complete(p.check_commands as nat, h.check_codes) {
        ActionStep::RunCheckCommand(h.check_codes.len() as usize)
    } else if fix_asked(p, h) && p.prompt && h.user_agreed is None {
        ActionStep::PromptUser
    } else if fix_asked(p, h) && (!p.prompt || h.user_agreed == Some(true)) && !fix_run_complete(
        p.fix_commands->Some_0 as nat,
        h.fix_codes,
    ) {
        ActionStep::RunFixCommand(h.fix_codes.len() as usize)
    } else if validation_runs(p, h) && !check_run_complete(p.check_commands as nat, h.validate_codes) {
        ActionStep::RunValidateCommand(h.validate_codes.len() as usize)
    } else if caches_due(action_outcome(p, h)) && !h.caches_updated {
        ActionStep::UpdateCaches
    } else {
        ActionStep::Done(action_outcome(p, h))
    }
}

/// An exit code that asks to stop everything: 100 or above.
pub open spec fn stop_code(code: Option<i32>) -> bool {
    code matches Some(c) && c >= 100
}

/// The statuses are ordered from best to worst: no fix needed, fix needed, stop, nothing
/// to check; the worse of two statuses is the one further along, whichever comes first.
pub proof fn lemma_status_order()
    ensures
        rank(CacheStatus::FixNotRequired) < rank(CacheStatus::FixRequired),
        rank(CacheStatus::FixRequired) < rank(CacheStatus::StopExecution),
        rank(CacheStatus::StopExecution) < rank(CacheStatus::CacheNotDefined),
        spec_max(CacheStatus::FixNotRequired, CacheStatus::FixRequired) == CacheStatus::FixRequired,
        spec_max(CacheStatus::FixRequired, CacheStatus::FixNotRequired) == CacheStatus::FixRequired,
        spec_max(CacheStatus::FixRequired, CacheStatus::StopExecution) == CacheStatus::StopExecution,
        spec_max(CacheStatus::StopExecution, CacheStatus::FixRequired) == CacheStatus::StopExecution,
        forall|a: CacheStatus, b: CacheStatus| #[trigger] spec_max(a, b) == spec_max(b, a),
{
}

/// The status of several check commands is decided by their exit codes whatever their
/// order: any code of 100 or more stops; otherwise any command that did not exit with 0
/// (another code, or none) asks for a fix; only when every command exited with 0 is no fix
/// needed.
pub proof fn lemma_check_result_is_worst(codes: Seq<Option<i32>>)
    requires
        codes.len() > 0,
    ensures
        (exists|i: int| 0 <= i < codes.len() && stop_code(#[trigger] codes[i])) ==> check_result(codes)
            == CacheStatus::StopExecution,
        (forall|i: int| 0 <= i < codes.len() ==> !stop_code(#[trigger] codes[i])) && (exists|i: int|
            0 <= i < codes.len() && #[trigger] codes[i] != Some(0i32)) ==> check_result(codes) == CacheStatus::FixRequired,
        (forall|i: int| 0 <= i < codes.len() ==> #[trigger] codes[i] == Some(0i32)) ==> check_result(codes)
            == CacheStatus::FixNotRequired,
    decreases codes.len(),
{
    let n = codes.len() as int;
    if n == 1 {
        assert(codes[0] == codes[n - 1]);
    } else {
        let pre = codes.drop_last();
        lemma_check_result_is_worst(pre);
        assert forall|i: int| 0 <= i < pre.len() implies pre[i] == codes[i] by {}
        if exists|i: int| 0 <= i < codes.len() && stop_code(#[trigger] codes[i]) {
            let i = choose|i: int| 0 <= i < codes.len() && stop_code(#[trigger] codes[i]);
            if i < n - 1 {
                assert(stop_code(pre[i]));
            }
        }
        if (forall|i: int| 0 <= i < codes.len() ==> !stop_code(#[trigger] codes[i])) && (exists|i: int|
            0 <= i < codes.len() && #[trigger] codes[i] != Some(0i32)) {
            assert forall|i: int| 0 <= i < pre.len() implies !stop_code(#[trigger] pre[i]) by {
                assert(!stop_code(codes[i]));
            }
            assert(!stop_code(codes[n - 1]));
            let i = choose|i: int| 0 <= i < codes.len() && #[trigger] codes[i] != Some(0i32);
            if i < n - 1 {
                assert(pre[i] != Some(0i32));
            }
        }
        if forall|i: int| 0 <= i < codes.len() ==> #[trigger] codes[i] == Some(0i32) {
            assert forall|i: int| 0 <= i < pre.len() implies #[trigger] pre[i] == Some(0i32) by {
                assert(codes[i] == Some(0i32));
            }
            assert(codes[n - 1] == Some(0i32));
        }
    }
}

/// When the check commands of an action (without watched paths) have all run and one of
/// them failed without asking to stop, the action asks for its fix (when fixes may run and it
/// has one) and does not end as a success.
pub proof fn lemma_failed_check_asks_for_fix(p: ActionPlan, h: ActionHistory)
    requires
        !p.has_paths,
        p.has_check_commands,
        p.run_fix,
        p.fix_commands is Some,
        h.check_codes.len() > 0,
        forall|i: int| 0 <= i < h.check_codes.len() ==> !stop_code(#[trigger] h.check_codes[i]),
        exists|i: int| 0 <= i < h.check_codes.len() && #[trigger] h.check_codes[i] != Some(0i32),
    ensures
        initial_check_status(p, h) == CacheStatus::FixRequired,
        fix_asked(p, h),
        action_outcome(p, h) != ActionRunStatus::CheckSucceeded,
{
    lemma_check_result_is_worst(h.check_codes);
}

/// The value an exit code of a fix command counts with: a missing code counts as -1.
pub open spec fn fix_code_value(code: Option<i32>) -> int {
    match code {
        Some(c) => c as int,
        None => -1,
    }
}

/// The code of a fix run is the highest of its commands' codes, and -1 when none is higher:
/// no code is above it, and unless it is -1 one of them equals it.
pub proof fn lemma_fix_result_is_highest(codes: Seq<Option<i32>>)
    ensures
        forall|i: int| 0 <= i < codes.len() ==> fix_code_value(#[trigger] codes[i]) <= fix_result(codes),
        fix_result(codes) != -1 ==> exists|i: int| 0 <= i < codes.len() && fix_code_value(#[trigger] codes[i]) == fix_result(codes),
        fix_result(codes) >= -1,
    decreases codes.len(),
{
    if codes.len() > 0 {
        let pre = codes.drop_last();
        lemma_fix_result_is_highest(pre);
        assert forall|i: int| 0 <= i < codes.len() implies fix_code_value(#[trigger] codes[i]) <= fix_result(codes) by {
            if i < pre.len() {
                assert(pre[i] == codes[i]);
            }
        }
        if fix_result(codes) != -1 {
            if fix_result(pre) >= fix_code_value(codes.last()) {
                let i = choose|i: int| 0 <= i < pre.len() && fix_code_value(#[trigger] pre[i]) == fix_result(pre);
                assert(codes[i] == pre[i]);
            } else {
                assert(fix_code_value(codes[codes.len() - 1]) == fix_result(codes));
            }
        }
    }
}

/// How the checks of an action come out before any fix: watched paths that changed (or
/// could not be checked) ask for a fix; with unchanged paths and no check commands the
/// action succeeds; with neither paths nor check commands there is nothing to check.
pub proof fn lemma_initial_status(p: ActionPlan, h: ActionHistory)
    ensures
        p.has_paths && h.paths_unchanged != Some(true) ==> initial_check_status(p, h) == CacheStatus::FixRequired,
        p.has_paths && h.paths_unchanged == Some(true) && !p.has_check_commands ==> action_outcome(p, h)
            == ActionRunStatus::CheckSucceeded,
        !p.has_paths && !p.has_check_commands ==> initial_check_status(p, h) == CacheStatus::CacheNotDefined,
        initial_check_status(p, h) == CacheStatus::FixNotRequired ==> action_outcome(p, h) == ActionRunStatus::CheckSucceeded,
        initial_check_status(p, h) != CacheStatus::FixNotRequired && !p.run_fix ==> action_outcome(p, h)
            == ActionRunStatus::CheckFailedNoRunFix,
{
}

/// A fix that ran (asked for, offered, not declined) and in which some command exited with a
/// code from 1 to 100, and none above 100, makes the action fail with `CheckFailedFixFailed`;
/// a code above 100 makes it `CheckFailedFixFailedStop`.
pub proof fn lemma_failed_fix_fails(p: ActionPlan, h: ActionHistory)
    requires
        fix_asked(p, h),
        !p.prompt || h.user_agreed == Some(true),
        exists|i: int| 0 <= i < h.fix_codes.len() && fix_code_value(#[trigger] h.fix_codes[i]) >= 1,
    ensures
        (forall|i: int| 0 <= i < h.fix_codes.len() ==> fix_code_value(#[trigger] h.fix_codes[i]) <= 100) ==> action_outcome(p, h)
            == ActionRunStatus::CheckFailedFixFailed,
        (exists|i: int| 0 <= i < h.fix_codes.len() && fix_code_value(#[trigger] h.fix_codes[i]) > 100) ==> action_outcome(p, h)
            == ActionRunStatus::CheckFailedFixFailedStop,
{
    lemma_fix_result_is_highest(h.fix_codes);
    let i = choose|i: int| 0 <= i < h.fix_codes.len() && fix_code_value(#[trigger] h.fix_codes[i]) >= 1;
    assert(fix_code_value(h.fix_codes[i]) <= fix_result(h.fix_codes));
}

/// A finished action has done all the work its plan calls for: every check command that
/// should run has run, the fix commands ran to completion when the fix went ahead, a
/// successful fix was verified by running the check commands again, and the caches were
/// updated before a successful outcome.
pub proof fn lemma_finished_run_is_complete(p: ActionPlan, h: ActionHistory)
    requires
        next_step(p, h) is Done,
    ensures
        next_step(p, h) == ActionStep::Done(action_outcome(p, h)),
        p.has_paths ==> h.paths_unchanged is Some,
        checks_run(p, h) ==> check_run_complete(p.check_commands as nat, h.check_codes),
        fix_asked(p, h) && p.prompt ==> h.user_agreed is Some,
        fix_asked(p, h) && (!p.prompt || h.user_agreed == Some(true)) ==> fix_run_complete(
            p.fix_commands->Some_0 as nat,
            h.fix_codes,
        ),
        validation_runs(p, h) ==> check_run_complete(p.check_commands as nat, h.validate_codes),
        caches_due(action_outcome(p, h)) ==> h.caches_updated,
{
}

/// Work the caller performs for the action, or the action's end.
#[derive(Debug, Clone, Copy, PartialEq, Eq, Structural)]
pub enum ActionStep {
    /// Ask whether the watched files are unchanged; answer with `PathsChecked`.
    CheckPaths,
    /// Run check command `i`; answer with `CommandExited`.
    RunCheckCommand(usize),
    /// Ask the user whether the fix may run; answer with `UserAnswered`.
    PromptUser,
    /// Run fix command `i`; answer with `CommandExited`.
    RunFixCommand(usize),
    /// Run check command `i` again to verify the fix; answer with `CommandExited`.
    RunValidateCommand(usize),
    /// Record the watched files in the cache (failures are ignored); answer with `CachesUpdated`.
    UpdateCaches,
    /// The action is over.
    Done(ActionRunStatus),
}

/// What the caller reports back after performing a step.
#[derive(Debug, Clone, Copy, PartialEq, Eq, Structural)]
pub enum ActionEvent {
    Start,
    PathsChecked(bool),
    CommandExited(Option<i32>),
    UserAnswered(bool),
    CachesUpdated,
}

#[derive(Debug, Clone, Copy, PartialEq, Eq, Structural)]
enum Phase {
    Start,
    Paths,
    Check,
    Prompt,
    Fix,
    Validate,
    Caches,
    Finished,
}

/// The decisions of one doctor action, driven step by step by the caller, which performs
/// the outside work (files, commands, prompts) and reports what happened.
pub struct ActionRun {
    plan: ActionPlan,
    phase: Phase,
    count: usize,
    acc: CacheStatus,
    check_status: CacheStatus,
    highest: i32,
    pending: ActionRunStatus,
    hist_paths: Ghost<Option<bool>>,
    hist_check: Ghost<Seq<Option<i32>>>,
    hist_answer: Ghost<Option<bool>>,
    hist_fix: Ghost<Seq<Option<i32>>>,
    hist_validate: Ghost<Seq<Option<i32>>>,
    hist_caches: Ghost<bool>,
}

/// The step the caller was last asked to perform accepts this report.
pub open spec fn answers(step: ActionStep, e: ActionEvent) -> bool {
    match step {
        ActionStep::CheckPaths => e is PathsChecked,
        ActionStep::RunCheckCommand(_) => e is CommandExited,
        ActionStep::PromptUser => e is UserAnswered,
        ActionStep::RunFixCommand(_) => e is CommandExited,
        ActionStep::RunValidateCommand(_) => e is CommandExited,
        ActionStep::UpdateCaches => e is CachesUpdated,
        ActionStep::Done(_) => false,
    }
}

proof fn lemma_check_result_step(codes: Seq<Option<i32>>, c: Option<i32>)
    ensures
        check_result(codes.push(c)) == if codes.len() == 0 { exit_status(c) } else { spec_max(check_result(codes), exit_status(c)) },
{
    assert(codes.push(c).drop_last() =~= codes);
}

proof fn lemma_fix_result_step(codes: Seq<Option<i32>>, c: Option<i32>)
    ensures
        fix_result(codes.push(c)) == {
            let v: int = match c { Some(x) => x as int, None => -1 };
            if fix_result(codes) >= v { fix_result(codes) } else { v }
        },
{
    assert(codes.push(c).drop_last() =~= codes);
}

proof fn lemma_fix_result_bounds(codes: Seq<Option<i32>>)
    ensures
        -1 <= fix_result(codes) <= i32::MAX,
    decreases codes.len(),
{
    if codes.len() > 0 {
        lemma_fix_result_bounds(codes.drop_last());
    }
}

proof fn lemma_take_push<A>(s: Seq<A>, x: A, k: int)
    requires
        0 <= k <= s.len(),
    ensures
        s.push(x).take(k) == s.take(k),
{
    assert(s.push(x).take(k) =~= s.take(k));
}

impl ActionRun {
    /// The plan the action follows.
    pub closed spec fn plan(&self) -> ActionPlan {
        self.plan
    }

    /// What has been reported so far.
    pub closed spec fn history(&self) -> ActionHistory {
        ActionHistory {
            paths_unchanged: self.hist_paths@,
            check_codes: self.hist_check@,
            user_agreed: self.hist_answer@,
            fix_codes: self.hist_fix@,
            validate_codes: self.hist_validate@,
            caches_updated: self.hist_caches@,
        }
    }

    /// The step the caller must perform now (`Done` once the action is over).
    pub closed spec fn current(&self) -> ActionStep {
        match self.phase {
            Phase::Start => ActionStep::Done(ActionRunStatus::CheckSucceeded),
            Phase::Paths => ActionStep::CheckPaths,
            Phase::Check => ActionStep::RunCheckCommand(self.count),
            Phase::Prompt => ActionStep::PromptUser,
            Phase::Fix => ActionStep::RunFixCommand(self.count),
            Phase::Validate => ActionStep::RunValidateCommand(self.count),
            Phase::Caches => ActionStep::UpdateCaches,
            Phase::Finished => ActionStep::Done(self.pending),
        }
    }

    /// The run has not been started yet.
    pub closed spec fn is_fresh(&self) -> bool {
        self.phase == Phase::Start
    }

    /// The run is waiting for the report of the step it asked for.
    pub closed spec fn waiting(&self) -> bool {
        self.phase != Phase::Start && self.phase != Phase::Finished
    }

    /// The internal state agrees with the history and the plan.
    pub closed spec fn wf(&self) -> bool {
        let h = self.history();
        let p = self.plan;
        &&& self.phase == Phase::Start ==> h.paths_unchanged is None && h.check_codes.len() == 0
            && h.user_agreed is None && h.fix_codes.len() == 0 && h.validate_codes.len() == 0
        &&& self.phase == Phase::Paths ==> p.has_paths && h.paths_unchanged is None
            && h.check_codes.len() == 0 && h.user_agreed is None && h.fix_codes.len() == 0
            && h.validate_codes.len() == 0
        &&& self.phase == Phase::Check ==> {
            &&& p.has_check_commands
            &&& (p.has_paths ==> h.paths_unchanged == Some(true))
            &&& (!p.has_paths ==> h.paths_unchanged is None)
            &&& self.count == h.check_codes.len() < p.check_commands
            &&& (h.check_codes.len() > 0 ==> self.acc == check_result(h.check_codes))
            &&& forall|k: int| 0 < k <= h.check_codes.len() ==> check_result(#[trigger] h.check_codes.take(k)) != CacheStatus::StopExecution
            &&& h.user_agreed is None && h.fix_codes.len() == 0 && h.validate_codes.len() == 0
        }
        &&& (self.phase == Phase::Prompt || self.phase == Phase::Fix || self.phase == Phase::Validate
            || self.phase == Phase::Caches || self.phase == Phase::Finished) ==> {
            &&& (p.has_paths ==> h.paths_unchanged is Some)
            &&& (!p.has_paths ==> h.paths_unchanged is None)
            &&& ((p.has_check_commands && (!p.has_paths || h.paths_unchanged == Some(true)))
                ==> check_run_complete(p.check_commands as nat, h.check_codes))
            &&& (!(p.has_check_commands && (!p.has_paths || h.paths_unchanged == Some(true)))
                ==> h.check_codes.len() == 0)
            &&& self.check_status == initial_check_status(p, h)
        }
        &&& self.phase == Phase::Prompt ==> {
            &&& self.check_status != CacheStatus::FixNotRequired && p.run_fix
            &&& p.fix_commands is Some && p.prompt
            &&& h.user_agreed is None && h.fix_codes.len() == 0 && h.validate_codes.len() == 0
        }
        &&& self.phase == Phase::Fix ==> {
            &&& self.check_status != CacheStatus::FixNotRequired && p.run_fix
            &&& p.fix_commands is Some
            &&& (p.prompt ==> h.user_agreed == Some(true))
            &&& (!p.prompt ==> h.user_agreed is None)
            &&& self.count == h.fix_codes.len() < p.fix_commands->Some_0
            &&& self.highest == fix_result(h.fix_codes)
            &&& forall|k: int| 0 <= k <= h.fix_codes.len() ==> fix_result(#[trigger] h.fix_codes.take(k)) < 100
            &&& h.validate_codes.len() == 0
        }
        &&& (self.phase == Phase::Validate || self.phase == Phase::Caches || self.phase == Phase::Finished) ==> {
            &&& (p.fix_commands is Some && p.run_fix && self.check_status != CacheStatus::FixNotRequired
                && (!p.prompt || h.user_agreed == Some(true))) ==> fix_run_complete(p.fix_commands->Some_0 as nat, h.fix_codes)
            &&& (p.fix_commands is None || !p.run_fix || self.check_status == CacheStatus::FixNotRequired)
                ==> h.fix_codes.len() == 0 && h.user_agreed is None
            &&& (p.fix_commands is Some && p.run_fix && self.check_status != CacheStatus::FixNotRequired && p.prompt)
                ==> h.user_agreed is Some
            &&& (p.fix_commands is Some && !p.prompt) ==> h.user_agreed is None
            &&& (p.prompt && h.user_agreed == Some(false)) ==> h.fix_codes.len() == 0
        }
        &&& self.phase == Phase::Validate ==> {
            &&& self.check_status != CacheStatus::FixNotRequired
            &&& self.check_status != CacheStatus::CacheNotDefined
            &&& p.run_fix && fix_phase_code(p, h) == 0
            &&& p.has_check_commands
            &&& self.count == h.validate_codes.len() < p.check_commands
            &&& (h.validate_codes.len() > 0 ==> self.acc == check_result(h.validate_codes))
            &&& forall|k: int| 0 < k <= h.validate_codes.len() ==> check_result(#[trigger] h.validate_codes.take(k)) != CacheStatus::StopExecution
        }
        &&& self.phase == Phase::Caches ==> {
            &&& self.pending == action_outcome(p, h)
            &&& self.pending == ActionRunStatus::NoCheckFixSucceeded || self.pending == ActionRunStatus::CheckFailedFixSucceedVerifySucceed
            &&& (p.has_check_commands && self.check_status != CacheStatus::CacheNotDefined)
                ==> check_run_complete(p.check_commands as nat, h.validate_codes)
            &&& !(p.has_check_commands && self.check_status != CacheStatus::CacheNotDefined) ==> h.validate_codes.len() == 0
        }
        &&& self.phase == Phase::Finished ==> self.pending == action_outcome(p, h)
        &&& self.phase != Phase::Finished ==> !h.caches_updated
        &&& self.phase != Phase::Start ==> self.current() == next_step(p, h)
    }

    /// A run of an action with the given shape, not started yet.
    pub fn new(plan: ActionPlan) -> (r: ActionRun)
        ensures
            r.wf(),
            r.is_fresh(),
            r.plan() == plan,
            r.history().paths_unchanged is None,
            r.history().check_codes.len() == 0,
            r.history().user_agreed is None,
            r.history().fix_codes.len() == 0,
            r.history().validate_codes.len() == 0,
            !r.history().caches_updated,
    {
        ActionRun {
            plan,
            phase: Phase::Start,
            count: 0,
            acc: CacheStatus::FixRequired,
            check_status: CacheStatus::FixRequired,
            highest: -1,
            pending: ActionRunStatus::CheckSucceeded,
            hist_paths: Ghost(None),
            hist_check: Ghost(Seq::empty()),
            hist_answer: Ghost(None),
            hist_fix: Ghost(Seq::empty()),
            hist_validate: Ghost(Seq::empty()),
            hist_caches: Ghost(false),
        }
    }

    /// Start the fix phase (or end the action) once the initial checks are known.
    fn after_checks(&mut self) -> (step: ActionStep)
        requires
            !old(self).hist_caches@,
            old(self).phase == Phase::Prompt,
            ({
                let p = old(self).plan;
                let h = old(self).history();
                &&& (p.has_paths ==> h.paths_unchanged is Some)
                &&& (!p.has_paths ==> h.paths_unchanged is None)
                &&& ((p.has_check_commands && (!p.has_paths || h.paths_unchanged == Some(true)))
                    ==> check_run_complete(p.check_commands as nat, h.check_codes))
                &&& (!(p.has_check_commands && (!p.has_paths || h.paths_unchanged == Some(true)))
                    ==> h.check_codes.len() == 0)
                &&& old(self).check_status == initial_check_status(p, h)
                &&& h.user_agreed is None && h.fix_codes.len() == 0 && h.validate_codes.len() == 0
            }),
        ensures
            final(self).wf(),
            final(self).plan == old(self).plan,
            final(self).history() == old(self).history(),
            step == final(self).current(),
            final(self).phase != Phase::Start,
    {
        if self.check_status == CacheStatus::FixNotRequired || !self.plan.run_fix {
            self.pending = if self.check_status == CacheStatus::FixNotRequired {
                ActionRunStatus::CheckSucceeded
            } else {
                ActionRunStatus::CheckFailedNoRunFix
            };
            self.phase = Phase::Finished;
            return ActionStep::Done(self.pending);
        }
        match self.plan.fix_commands {
            None => {
                self.pending = ActionRunStatus::CheckFailedNoFixProvided;
                self.phase = Phase::Finished;
                ActionStep::Done(self.pending)
            },
            Some(n) => {
                if self.plan.prompt {
                    self.phase = Phase::Prompt;
                    ActionStep::PromptUser
                } else {
                    self.start_fix()
                }
            },
        }
    }

    /// Begin running fix commands (or conclude when there are none).
    fn start_fix(&mut self) -> (step: ActionStep)
        requires
            !old(self).hist_caches@,
            old(self).check_status != CacheStatus::FixNotRequired,
            old(self).plan.run_fix,
            old(self).plan.fix_commands is Some,
            ({
                let p = old(self).plan;
                let h = old(self).history();
                &&& (p.has_paths ==> h.paths_unchanged is Some)
                &&& (!p.has_paths ==> h.paths_unchanged is None)
                &&& ((p.has_check_commands && (!p.has_paths || h.paths_unchanged == Some(true)))
                    ==> check_run_complete(p.check_commands as nat, h.check_codes))
                &&& (!(p.has_check_commands && (!p.has_paths || h.paths_unchanged == Some(true)))
                    ==> h.check_codes.len() == 0)
                &&& old(self).check_status == initial_check_status(p, h)
                &&& (p.prompt ==> h.user_agreed == Some(true))
                &&& (!p.prompt ==> h.user_agreed is None)
                &&& h.fix_codes.len() == 0 && h.validate_codes.len() == 0
            }),
        ensures
            final(self).wf(),
            final(self).plan == old(self).plan,
            final(self).history() == old(self).history(),
            step == final(self).current(),
            final(self).phase != Phase::Start,
    {
        self.count = 0;
        self.highest = NO_COMMANDS_EXIT_CODE;
        let n = match self.plan.fix_commands { Some(n) => n, None => 0 };
        if n == 0 {
            self.conclude_fix()
        } else {
            self.phase = Phase::Fix;
            proof {
                assert forall|k: int| 0 <= k <= self.hist_fix@.len() implies fix_result(#[trigger] self.hist_fix@.take(k)) < 100 by {
                    assert(self.hist_fix@.take(k) =~= Seq::<Option<i32>>::empty());
                }
            }
            ActionStep::RunFixCommand(0)
        }
    }

    /// Decide what the fix phase's code means.
    fn conclude_fix(&mut self) -> (step: ActionStep)
        requires
            !old(self).hist_caches@,
            old(self).check_status != CacheStatus::FixNotRequired,
            old(self).plan.run_fix,
            old(self).plan.fix_commands is Some,
            old(self).highest == fix_phase_code(old(self).plan, old(self).history()),
            ({
                let p = old(self).plan;
                let h = old(self).history();
                &&& (p.has_paths ==> h.paths_unchanged is Some)
                &&& (!p.has_paths ==> h.paths_unchanged is None)
                &&& ((p.has_check_commands && (!p.has_paths || h.paths_unchanged == Some(true)))
                    ==> check_run_complete(p.check_commands as nat, h.check_codes))
                &&& (!(p.has_check_commands && (!p.has_paths || h.paths_unchanged == Some(true)))
                    ==> h.check_codes.len() == 0)
                &&& old(self).check_status == initial_check_status(p, h)
                &&& (p.prompt ==> h.user_agreed is Some)
                &&& (!p.prompt ==> h.user_agreed is None)
                &&& ((!p.prompt || h.user_agreed == Some(true)) ==> fix_run_complete(p.fix_commands->Some_0 as nat, h.fix_codes))
                &&& (p.prompt && h.user_agreed == Some(false)) ==> h.fix_codes.len() == 0
                &&& h.validate_codes.len() == 0
            }),
        ensures
            final(self).wf(),
            final(self).plan == old(self).plan,
            final(self).history() == old(self).history(),
            step == final(self).current(),
            final(self).phase != Phase::Start,
    {
        let code = self.highest;
        if code <= -3 || code == NO_COMMANDS_EXIT_CODE {
            self.pending = ActionRunStatus::CheckFailedNoFixProvided;
            self.phase = Phase::Finished;
            return ActionStep::Done(self.pending);
        }
        if code == USER_DENIED_EXIT_CODE {
            self.pending = ActionRunStatus::CheckFailedFixUserDenied;
            self.phase = Phase::Finished;
            return ActionStep::Done(self.pending);
        }
        if 1 <= code && code <= 100 {
            self.pending = ActionRunStatus::CheckFailedFixFailed;
            self.phase = Phase::Finished;
            return ActionStep::Done(self.pending);
        }
        if code > 100 {
            self.pending = ActionRunStatus::CheckFailedFixFailedStop;
            self.phase = Phase::Finished;
            return ActionStep::Done(self.pending);
        }
        if self.check_status == CacheStatus::CacheNotDefined {
            self.pending = ActionRunStatus::NoCheckFixSucceeded;
            self.phase = Phase::Caches;
            return ActionStep::UpdateCaches;
        }
        if self.plan.has_check_commands && self.plan.check_commands > 0 {
            self.count = 0;
            self.acc = CacheStatus::FixRequired;
            self.phase = Phase::Validate;
            return ActionStep::RunValidateCommand(0);
        }
        self.pending = if self.plan.has_check_commands {
            ActionRunStatus::CheckFailedFixSucceedVerifyFailed
        } else {
            ActionRunStatus::CheckFailedFixSucceedVerifySucceed
        };
        proof {
            if self.plan.has_check_commands {
                assert(self.hist_validate@.take(0) =~= self.hist_validate@);
            }
        }
        if self.plan.has_check_commands {
            self.phase = Phase::Finished;
            ActionStep::Done(self.pending)
        } else {
            self.phase = Phase::Caches;
            ActionStep::UpdateCaches
        }
    }

    /// The state after a transition is consistent and `step` is what it asks for.
    pub closed spec fn settled(&self, step: ActionStep) -> bool {
        &&& self.wf()
        &&& step == self.current()
        &&& !self.is_fresh()
        &&& step is Done ==> step->Done_0 == action_outcome(self.plan, self.history())
        &&& !(step is Done) ==> self.waiting()
    }

    /// Feeds the report of the last step (or `Start` for a fresh run) and returns the
    /// next step.
    pub fn next(&mut self, event: ActionEvent) -> (step: ActionStep)
        requires
            old(self).wf(),
            old(self).is_fresh() ==> event == ActionEvent::Start,
            !old(self).is_fresh() ==> old(self).waiting() && answers(old(self).current(), event),
        ensures
            final(self).wf(),
            final(self).plan() == old(self).plan(),
            step == final(self).current(),
            !final(self).is_fresh(),
            step is Done ==> step->Done_0 == action_outcome(final(self).plan(), final(self).history()),
            !(step is Done) ==> final(self).waiting(),
            // the work asked for fits the plan and the history
            step is CheckPaths ==> final(self).plan().has_paths,
            step is RunCheckCommand ==> final(self).plan().has_check_commands
                && step->RunCheckCommand_0 == final(self).history().check_codes.len()
                && step->RunCheckCommand_0 < final(self).plan().check_commands,
            // the step is the one the plan and the history call for
            step == next_step(final(self).plan(), final(self).history()),
            // a finished action has verified a successful fix and updated the caches after it
            step is Done && validation_runs(final(self).plan(), final(self).history()) ==> check_run_complete(
                final(self).plan().check_commands as nat,
                final(self).history().validate_codes,
            ),
            step is Done && caches_due(step->Done_0) ==> final(self).history().caches_updated,
            // paths are checked before commands, and a changed path means no check command runs
            step is RunCheckCommand && final(self).plan().has_paths ==> final(self).history().paths_unchanged
                == Some(true),
            step is PromptUser ==> final(self).plan().prompt && final(self).plan().fix_commands is Some,
            step is RunFixCommand ==> final(self).plan().fix_commands is Some
                && step->RunFixCommand_0 == final(self).history().fix_codes.len()
                && step->RunFixCommand_0 < final(self).plan().fix_commands->Some_0,
            step is RunValidateCommand ==> final(self).plan().has_check_commands
                && step->RunValidateCommand_0 == final(self).history().validate_codes.len()
                && step->RunValidateCommand_0 < final(self).plan().check_commands,
            // what the report adds to the history
            ({
                let h0 = old(self).history();
                let h1 = final(self).history();
                match (old(self).current(), event) {
                    (ActionStep::CheckPaths, ActionEvent::PathsChecked(b)) => h1 == ActionHistory { paths_unchanged: Some(b), ..h0 },
                    (ActionStep::RunCheckCommand(_), ActionEvent::CommandExited(c)) => h1 == ActionHistory { check_codes: h0.check_codes.push(c), ..h0 },
                    (ActionStep::PromptUser, ActionEvent::UserAnswered(b)) => h1 == ActionHistory { user_agreed: Some(b), ..h0 },
                    (ActionStep::RunFixCommand(_), ActionEvent::CommandExited(c)) => h1 == ActionHistory { fix_codes: h0.fix_codes.push(c), ..h0 },
                    (ActionStep::RunValidateCommand(_), ActionEvent::CommandExited(c)) => h1 == ActionHistory { validate_codes: h0.validate_codes.push(c), ..h0 },
                    (ActionStep::UpdateCaches, ActionEvent::CachesUpdated) => h1 == ActionHistory { caches_updated: true, ..h0 },
                    _ => h1 == h0,
                }
            }),
    {
        let ghost h0 = self.history();
        let step = match self.phase {
            Phase::Start => self.on_start(),
            Phase::Paths => {
                let ok = match event { ActionEvent::PathsChecked(b) => b, _ => false };
                self.on_paths(ok)
            },
            Phase::Check => {
                let code = match event { ActionEvent::CommandExited(c) => c, _ => None };
                self.on_check(code)
            },
            Phase::Prompt => {
                let yes = match event { ActionEvent::UserAnswered(b) => b, _ => false };
                self.on_answer(yes)
            },
            Phase::Fix => {
                let code = match event { ActionEvent::CommandExited(c) => c, _ => None };
                self.on_fix(code)
            },
            Phase::Validate => {
                let code = match event { ActionEvent::CommandExited(c) => c, _ => None };
                self.on_validate(code)
            },
            Phase::Caches => {
                self.hist_caches = Ghost(true);
                self.phase = Phase::Finished;
                ActionStep::Done(self.pending)
            },
            Phase::Finished => ActionStep::Done(self.pending),
        };
        step
    }

    fn on_start(&mut self) -> (step: ActionStep)
        requires
            old(self).wf(),
            old(self).phase == Phase::Start,
        ensures
            final(self).settled(step),
            final(self).plan == old(self).plan,
            final(self).history() == old(self).history(),
    {
        if self.plan.has_paths {
            self.phase = Phase::Paths;
            ActionStep::CheckPaths
        } else {
            self.begin_checks()
        }
    }

    fn on_paths(&mut self, ok: bool) -> (step: ActionStep)
        requires
            old(self).wf(),
            old(self).phase == Phase::Paths,
        ensures
            final(self).settled(step),
            final(self).plan == old(self).plan,
            final(self).history() == (ActionHistory { paths_unchanged: Some(ok), ..old(self).history() }),
    {
        self.hist_paths = Ghost(Some(ok));
        if !ok {
            self.check_status = CacheStatus::FixRequired;
            self.phase = Phase::Prompt;
            self.after_checks()
        } else {
            self.begin_checks()
        }
    }

    fn on_check(&mut self, code: Option<i32>) -> (step: ActionStep)
        requires
            old(self).wf(),
            old(self).phase == Phase::Check,
        ensures
            final(self).settled(step),
            final(self).plan == old(self).plan,
            final(self).history() == (ActionHistory { check_codes: old(self).history().check_codes.push(code), ..old(self).history() }),
    {
        let ghost before = self.hist_check@;
        proof { lemma_check_result_step(before, code); }
        let st = exit_status_of(code);
        let acc = if self.count == 0 { st } else { self.acc.max(st) };
        self.acc = acc;
        self.hist_check = Ghost(self.hist_check@.push(code));
        self.count = self.count + 1;
        proof {
            assert forall|k: int| 0 < k < self.hist_check@.len() implies check_result(#[trigger] self.hist_check@.take(k)) != CacheStatus::StopExecution by {
                lemma_take_push(before, code, k);
            }
            assert(self.hist_check@.take(self.hist_check@.len() as int) =~= self.hist_check@);
        }
        if acc == CacheStatus::StopExecution || self.count == self.plan.check_commands {
            self.check_status = if acc.is_success() { CacheStatus::FixNotRequired } else { acc };
            self.phase = Phase::Prompt;
            self.after_checks()
        } else {
            ActionStep::RunCheckCommand(self.count)
        }
    }

    fn on_answer(&mut self, yes: bool) -> (step: ActionStep)
        requires
            old(self).wf(),
            old(self).phase == Phase::Prompt,
        ensures
            final(self).settled(step),
            final(self).plan == old(self).plan,
            final(self).history() == (ActionHistory { user_agreed: Some(yes), ..old(self).history() }),
    {
        self.hist_answer = Ghost(Some(yes));
        if yes {
            self.start_fix()
        } else {
            self.highest = USER_DENIED_EXIT_CODE;
            self.conclude_fix()
        }
    }

    fn on_fix(&mut self, code: Option<i32>) -> (step: ActionStep)
        requires
            old(self).wf(),
            old(self).phase == Phase::Fix,
        ensures
            final(self).settled(step),
            final(self).plan == old(self).plan,
            final(self).history() == (ActionHistory { fix_codes: old(self).history().fix_codes.push(code), ..old(self).history() }),
    {
        let ghost before = self.hist_fix@;
        proof {
            lemma_fix_result_step(before, code);
            lemma_fix_result_bounds(before);
        }
        let v: i32 = match code { Some(c) => c, None => NO_COMMANDS_EXIT_CODE };
        if v > self.highest {
            self.highest = v;
        }
        self.hist_fix = Ghost(self.hist_fix@.push(code));
        self.count = self.count + 1;
        let n = match self.plan.fix_commands { Some(n) => n, None => 0 };
        proof {
            assert forall|k: int| 0 <= k < self.hist_fix@.len() implies fix_result(#[trigger] self.hist_fix@.take(k)) < 100 by {
                lemma_take_push(before, code, k);
            }
            assert(self.hist_fix@.take(self.hist_fix@.len() as int) =~= self.hist_fix@);
        }
        if self.highest >= 100 || self.count == n {
            self.conclude_fix()
        } else {
            ActionStep::RunFixCommand(self.count)
        }
    }

    fn on_validate(&mut self, code: Option<i32>) -> (step: ActionStep)
        requires
            old(self).wf(),
            old(self).phase == Phase::Validate,
        ensures
            final(self).settled(step),
            final(self).plan == old(self).plan,
            final(self).history() == (ActionHistory { validate_codes: old(self).history().validate_codes.push(code), ..old(self).history() }),
    {
        let ghost before = self.hist_validate@;
        proof { lemma_check_result_step(before, code); }
        let st = exit_status_of(code);
        let acc = if self.count == 0 { st } else { self.acc.max(st) };
        self.acc = acc;
        self.hist_validate = Ghost(self.hist_validate@.push(code));
        self.count = self.count + 1;
        proof {
            assert forall|k: int| 0 < k < self.hist_validate@.len() implies check_result(#[trigger] self.hist_validate@.take(k)) != CacheStatus::StopExecution by {
                lemma_take_push(before, code, k);
            }
            assert(self.hist_validate@.take(self.hist_validate@.len() as int) =~= self.hist_validate@);
        }
        if acc == CacheStatus::StopExecution || self.count == self.plan.check_commands {
            if acc != CacheStatus::FixNotRequired {
                self.pending = ActionRunStatus::CheckFailedFixSucceedVerifyFailed;
                self.phase = Phase::Finished;
                ActionStep::Done(self.pending)
            } else {
                self.pending = ActionRunStatus::CheckFailedFixSucceedVerifySucceed;
                self.phase = Phase::Caches;
                ActionStep::UpdateCaches
            }
        } else {
            ActionStep::RunValidateCommand(self.count)
        }
    }

    /// Start the command checks (or conclude the checks when there are none).
    fn begin_checks(&mut self) -> (step: ActionStep)
        requires
            !old(self).hist_caches@,
            old(self).plan.has_paths ==> old(self).hist_paths@ == Some(true),
            !old(self).plan.has_paths ==> old(self).hist_paths@ is None,
            old(self).hist_check@.len() == 0,
            old(self).hist_answer@ is None,
            old(self).hist_fix@.len() == 0,
            old(self).hist_validate@.len() == 0,
        ensures
            final(self).wf(),
            final(self).plan == old(self).plan,
            final(self).history() == old(self).history(),
            step == final(self).current(),
            final(self).phase != Phase::Start,
    {
        if self.plan.has_check_commands && self.plan.check_commands > 0 {
            self.count = 0;
            self.acc = CacheStatus::FixRequired;
            self.phase = Phase::Check;
            ActionStep::RunCheckCommand(0)
        } else {
            self.check_status = if self.plan.has_check_commands {
                CacheStatus::FixRequired
            } else if self.plan.has_paths {
                CacheStatus::FixNotRequired
            } else {
                CacheStatus::CacheNotDefined
            };
            self.phase = Phase::Prompt;
            self.after_checks()
        }
    }
}

/// The status one check command's exit code gives.
pub fn exit_status_of(code: Option<i32>) -> (r: CacheStatus)
    ensures
        r == exit_status(code),
{
    match code {
        Some(c) => if c == 0 {
            CacheStatus::FixNotRequired
        } else if c >= 100 {
            CacheStatus::StopExecution
        } else {
            CacheStatus::FixRequired
        },
        None => CacheStatus::FixRequired,
    }
}

} // verus!
