use vstd::prelude::*;

use crate::command::{all_prepared, template_render, substitute_templates, DoctorCommands};
use crate::report::copy_string;
use crate::text::{chars_of, string_from_chars};
use crate::v1alpha::{
    copy_opt, copy_pairs, copy_strings, doctor_group_kind_text, full_name_text,
    known_error_kind_text, opt_text, report_definition_kind_text, report_location_kind_text,
    DoctorFixPromptSpec, DoctorFixSpec, DoctorGroupActionSpec, DoctorInclude, KnownErrorSpec,
    ModelMetadata, ReportDestinationSpec, ReportDestinationTemplates, SkipSpec,
    V1AlphaDoctorGroup, V1AlphaKnownError, V1AlphaReportDefinition, V1AlphaReportLocation,
};

verus! {

/// Why a resource could not be turned into its runtime form.
#[derive(Debug, Clone, PartialEq)]
pub enum ModelError {
    /// A command or path template did not render; the engine's message.
    Template(String),
    /// A known-error pattern is not a valid regular expression; the engine's message.
    Pattern(String),
    /// The directory of a group's file has no parent directory.
    NoParentDirectory(String),
}

// ---------------------------------------------------------------------------------------
// Path parents, whitespace, regular expressions.
// ---------------------------------------------------------------------------------------

/// The parent of `path` as `std::path::Path::parent` computes it, as text.
pub uninterp spec fn path_parent(path: Seq<char>) -> Option<Seq<char>>;

/// Whether `c` has the Unicode `White_Space` property (what `char::is_whitespace` answers):
/// tab to carriage return, space, next line, no-break space, ogham space mark, the spaces
/// from en quad to hair space, line and paragraph separators, narrow no-break space, medium
/// mathematical space and ideographic space.
pub open spec fn unicode_whitespace(c: char) -> bool {
    let x = c as u32;
    ||| 0x9 <= x <= 0xD
    ||| x == 0x20
    ||| x == 0x85
    ||| x == 0xA0
    ||| x == 0x1680
    ||| 0x2000 <= x <= 0x200A
    ||| x == 0x2028
    ||| x == 0x2029
    ||| x == 0x202F
    ||| x == 0x205F
    ||| x == 0x3000
}

/// Whether `pattern` compiles as a `regex` regular expression.
pub uninterp spec fn pattern_is_valid(pattern: Seq<char>) -> bool;

/// Whether the regular expression `pattern` matches somewhere in `line`.
pub uninterp spec fn pattern_matches(pattern: Seq<char>, line: Seq<char>) -> bool;

/// `std::path::Path::parent`, displayed.
/// Contract: the result is the one `path_parent` names for `path`.
#[verifier::external_body]
fn parent_of(path: &str) -> (r: Option<String>)
    ensures
        match r {
            Some(p) => path_parent(path@) == Some(p@),
            None => path_parent(path@).is_none(),
        },
{
    std::path::Path::new(path).parent().map(|p| p.display().to_string())
}

/// Whether `c` is whitespace, as `char::is_whitespace` tells.
pub fn is_whitespace_char(c: char) -> (r: bool)
    ensures
        r == unicode_whitespace(c),
{
    let x = c as u32;
    (0x9 <= x && x <= 0xD) || x == 0x20 || x == 0x85 || x == 0xA0 || x == 0x1680 || (0x2000 <= x && x <= 0x200A)
        || x == 0x2028 || x == 0x2029 || x == 0x202F || x == 0x205F || x == 0x3000
}

/// Compiles `pattern` with `regex::Regex::new`, keeping only whether it compiled.
/// Contract: success exactly when `pattern_is_valid`; the error carries the engine's message.
#[verifier::external_body]
fn compile_pattern(pattern: &str) -> (r: Result<(), String>)
    ensures
        r is Ok <==> pattern_is_valid(pattern@),
{
    match regex::Regex::new(pattern) {
        Ok(_) => Ok(()),
        Err(e) => Err(e.to_string()),
    }
}

/// Compiles `pattern` with `regex::Regex::new` and tests `line` with `Regex::is_match`.
/// Contract: true exactly when the pattern compiles and matches the line.
#[verifier::external_body]
pub(crate) fn line_matches(pattern: &str, line: &str) -> (r: bool)
    ensures
        r == (pattern_is_valid(pattern@) && pattern_matches(pattern@, line@)),
{
    match regex::Regex::new(pattern) {
        Ok(re) => re.is_match(line),
        Err(_) => false,
    }
}

// ---------------------------------------------------------------------------------------
// Small text helpers.
// ---------------------------------------------------------------------------------------

/// Index of the first non-whitespace character at or after `i`.
pub open spec fn first_non_space(s: Seq<char>, i: int) -> int
    decreases s.len() - i,
{
    if i >= s.len() {
        s.len() as int
    } else if !unicode_whitespace(s[i]) {
        i
    } else {
        first_non_space(s, i + 1)
    }
}

/// One past the index of the last non-whitespace character before `j`.
pub open spec fn last_non_space(s: Seq<char>, j: int, lo: int) -> int
    decreases j - lo,
{
    if j <= lo {
        lo
    } else if !unicode_whitespace(s[j - 1]) {
        j
    } else {
        last_non_space(s, j - 1, lo)
    }
}

/// `s` without leading and trailing whitespace.
pub open spec fn trimmed(s: Seq<char>) -> Seq<char> {
    let a = first_non_space(s, 0);
    s.subrange(a, last_non_space(s, s.len() as int, a))
}

proof fn lemma_first_non_space_bounds(s: Seq<char>, i: int)
    requires
        0 <= i <= s.len(),
    ensures
        i <= first_non_space(s, i) <= s.len(),
    decreases s.len() - i,
{
    if i < s.len() && unicode_whitespace(s[i]) {
        lemma_first_non_space_bounds(s, i + 1);
    }
}

/// Removes leading and trailing whitespace (as `str::trim` does).
pub fn trim_text(s: &str) -> (r: String)
    ensures
        r@ == trimmed(s@),
{
    let cs = chars_of(s);
    let mut a: usize = 0;
    while a < cs.len() && is_whitespace_char(cs[a])
        invariant
            a <= cs.len(),
            cs@ == s@,
            first_non_space(s@, a as int) == first_non_space(s@, 0),
        decreases cs.len() - a,
    {
        a = a + 1;
    }
    let mut b: usize = cs.len();
    proof {
        lemma_first_non_space_bounds(s@, 0);
    }
    while b > a && is_whitespace_char(cs[b - 1])
        invariant
            a <= b <= cs.len(),
            cs@ == s@,
            a == first_non_space(s@, 0),
            last_non_space(s@, b as int, a as int) == last_non_space(s@, cs.len() as int, a as int),
        decreases b - a,
    {
        b = b - 1;
    }
    let mut out: Vec<char> = Vec::new();
    let mut k: usize = a;
    while k < b
        invariant
            a <= k <= b <= cs.len(),
            cs@ == s@,
            out@ == cs@.subrange(a as int, k as int),
        decreases b - k,
    {
        out.push(cs[k]);
        assert(cs@.subrange(a as int, k as int + 1) =~= cs@.subrange(a as int, k as int).push(cs@[k as int]));
        k = k + 1;
    }
    string_from_chars(&out)
}

/// The character of a decimal digit.
pub open spec fn digit_char(d: nat) -> char {
    if d == 0 { '0' } else if d == 1 { '1' } else if d == 2 { '2' } else if d == 3 { '3' }
    else if d == 4 { '4' } else if d == 5 { '5' } else if d == 6 { '6' } else if d == 7 { '7' }
    else if d == 8 { '8' } else { '9' }
}

/// The decimal text of `n`, without leading zeros.
pub open spec fn decimal(n: nat) -> Seq<char>
    decreases n,
{
    if n < 10 {
        seq![digit_char(n)]
    } else {
        decimal(n / 10).push(digit_char(n % 10))
    }
}

fn digit(d: usize) -> (c: char)
    requires
        d < 10,
    ensures
        c == digit_char(d as nat),
{
    if d == 0 { '0' } else if d == 1 { '1' } else if d == 2 { '2' } else if d == 3 { '3' }
    else if d == 4 { '4' } else if d == 5 { '5' } else if d == 6 { '6' } else if d == 7 { '7' }
    else if d == 8 { '8' } else { '9' }
}

fn push_decimal(n: usize, out: &mut Vec<char>)
    ensures
        final(out)@ == old(out)@ + decimal(n as nat),
    decreases n,
{
    if n >= 10 {
        push_decimal(n / 10, out);
    }
    out.push(digit(n % 10));
    assert(old(out)@ + decimal(n as nat) =~= final(out)@) by {
        if n >= 10 {
            assert(decimal(n as nat) == decimal((n / 10) as nat).push(digit_char((n % 10) as nat)));
        }
    }
}

/// The decimal text of `n`.
pub fn decimal_text(n: usize) -> (r: String)
    ensures
        r@ == decimal(n as nat),
{
    let mut out: Vec<char> = Vec::new();
    push_decimal(n, &mut out);
    assert(out@ =~= decimal(n as nat));
    string_from_chars(&out)
}

// ---------------------------------------------------------------------------------------
// Fixes.
// ---------------------------------------------------------------------------------------

/// The question asked before a fix runs.
#[derive(Debug, Clone, PartialEq)]
pub struct DoctorFixPrompt {
    pub text: String,
    pub extra_context: Option<String>,
}

impl DoctorFixPrompt {
    /// The prompt of a configured fix, field for field.
    pub fn from(value: DoctorFixPromptSpec) -> (r: Self)
        ensures
            r.text@ == value.text@,
            opt_text(r.extra_context) == opt_text(value.extra_context),
            r.extra_context is Some <==> value.extra_context is Some,
    {
        DoctorFixPrompt { text: value.text, extra_context: value.extra_context }
    }
}

/// How an action (or a known error) is fixed.
#[derive(Debug, Clone, PartialEq)]
pub struct DoctorFix {
    pub command: Option<DoctorCommands>,
    pub help_text: Option<String>,
    pub help_url: Option<String>,
    pub prompt: Option<DoctorFixPrompt>,
}

/// Some template of `templates` does not render.
pub open spec fn some_template_fails(working_dir: Seq<char>, templates: Seq<String>) -> bool {
    exists|i: int| 0 <= i < templates.len() && template_render(#[trigger] templates[i]@, working_dir).is_none()
}

/// `f` is the runtime form of `spec`: commands prepared (none when the spec lists none),
/// help and prompt copied.
pub open spec fn fix_from_spec(
    containing_dir: Seq<char>,
    working_dir: Seq<char>,
    spec: DoctorFixSpec,
    f: DoctorFix,
) -> bool {
    &&& (f.command is Some <==> spec.commands@.len() > 0)
    &&& (f.command is Some ==> all_prepared(containing_dir, working_dir, spec.commands@, f.command->Some_0@))
    &&& opt_text(f.help_text) == opt_text(spec.help_text) && (f.help_text is Some <==> spec.help_text is Some)
    &&& opt_text(f.help_url) == opt_text(spec.help_url) && (f.help_url is Some <==> spec.help_url is Some)
    &&& (f.prompt is Some <==> spec.prompt is Some)
    &&& (f.prompt is Some ==> f.prompt->Some_0.text@ == spec.prompt->Some_0.text@ && opt_text(
        f.prompt->Some_0.extra_context,
    ) == opt_text(spec.prompt->Some_0.extra_context))
}

/// A fix with nothing in it.
pub open spec fn fix_is_empty(f: DoctorFix) -> bool {
    f.command is None && f.help_text is None && f.help_url is None && f.prompt is None
}

impl DoctorFix {
    /// No commands, no help, no prompt.
    pub fn empty() -> (r: DoctorFix)
        ensures
            fix_is_empty(r),
    {
        DoctorFix { command: None, help_text: None, help_url: None, prompt: None }
    }

    /// Prepares the fix's commands against the directories of the resource.
    /// Fails exactly when one of the command templates does not render.
    pub fn from_spec(containing_dir: &str, working_dir: &str, spec: &DoctorFixSpec) -> (r: Result<DoctorFix, ModelError>)
        ensures
            match r {
                Ok(f) => fix_from_spec(containing_dir@, working_dir@, *spec, f),
                Err(e) => e is Template && some_template_fails(working_dir@, spec.commands@),
            },
    {
        let command = if spec.commands.len() > 0 {
            match DoctorCommands::from_commands(containing_dir, working_dir, spec.commands.as_slice()) {
                Ok(c) => Some(c),
                Err(msg) => {
                    return Err(ModelError::Template(msg));
                },
            }
        } else {
            None
        };
        let prompt = match &spec.prompt {
            Some(p) => Some(DoctorFixPrompt { text: copy_string(&p.text), extra_context: copy_opt(&p.extra_context) }),
            None => None,
        };
        Ok(DoctorFix {
            command,
            help_text: copy_opt(&spec.help_text),
            help_url: copy_opt(&spec.help_url),
            prompt,
        })
    }
}

// ---------------------------------------------------------------------------------------
// Doctor groups.
// ---------------------------------------------------------------------------------------

/// Files whose changes decide whether an action's check must run, relative to `base_path`.
#[derive(Debug, Clone, PartialEq)]
pub struct DoctorGroupCachePath {
    pub paths: Vec<String>,
    pub base_path: String,
}

impl DoctorGroupCachePath {
    /// A cache path from a base directory and globs given as text.
    pub fn from(value: (&str, Vec<&str>)) -> (r: Self)
        ensures
            r.base_path@ == value.0@,
            r.paths@.len() == value.1@.len(),
            forall|i: int| 0 <= i < value.1@.len() ==> (#[trigger] r.paths@[i])@ == value.1@[i]@,
    {
        let paths = convert_to_string(value.1);
        DoctorGroupCachePath { paths, base_path: value.0.to_owned() }
    }
}

/// Copies each text into an owned `String`, in order.
pub fn convert_to_string(input: Vec<&str>) -> (r: Vec<String>)
    ensures
        r@.len() == input@.len(),
        forall|i: int| 0 <= i < input@.len() ==> (#[trigger] r@[i])@ == input@[i]@,
{
    let mut out: Vec<String> = Vec::new();
    let mut i: usize = 0;
    while i < input.len()
        invariant
            i <= input@.len(),
            out@.len() == i,
            forall|k: int| 0 <= k < i ==> (#[trigger] out@[k])@ == input@[k]@,
        decreases input@.len() - i,
    {
        out.push(input[i].to_owned());
        i = i + 1;
    }
    out
}

/// What an action checks: commands, files, both or neither.
#[derive(Debug, Clone, PartialEq)]
pub struct DoctorGroupActionCheck {
    pub command: Option<DoctorCommands>,
    pub files: Option<DoctorGroupCachePath>,
}

/// One action of a group, ready to run.
#[derive(Debug, Clone, PartialEq)]
pub struct DoctorGroupAction {
    pub name: String,
    pub description: String,
    pub fix: DoctorFix,
    pub check: DoctorGroupActionCheck,
    pub required: bool,
}

/// A doctor group, ready to run.
#[derive(Debug, Clone, PartialEq)]
pub struct DoctorGroup {
    pub full_name: String,
    pub metadata: ModelMetadata,
    pub requires: Vec<String>,
    pub run_by_default: bool,
    pub actions: Vec<DoctorGroupAction>,
    pub extra_report_args: Vec<(String, String)>,
    pub skip: SkipSpec,
}

/// Every path of `paths` renders against `working_dir`, giving `out` in order.
pub open spec fn paths_rendered(working_dir: Seq<char>, paths: Seq<String>, out: Seq<String>) -> bool {
    out.len() == paths.len() && forall|i: int|
        0 <= i < paths.len() ==> template_render(#[trigger] paths[i]@, working_dir) == Some(out[i]@)
}

/// The text of the working directory a resource was loaded for.
pub open spec fn working_dir_of(m: ModelMetadata) -> Seq<char> {
    opt_text(m.annotations.working_dir)
}

/// `a` is the runtime form of action number `idx` (from 0) of `group`.
pub open spec fn action_from_spec(
    idx: nat,
    group: V1AlphaDoctorGroup,
    spec: DoctorGroupActionSpec,
    a: DoctorGroupAction,
) -> bool {
    let cdir = opt_text(group.metadata.annotations.file_dir);
    let wdir = working_dir_of(group.metadata);
    &&& a.name@ == (match spec.name {
        Some(n) => n@,
        None => decimal(idx + 1),
    })
    &&& a.description@ == (match spec.description {
        Some(d) => d@,
        None => "default"@,
    })
    &&& a.required == spec.required
    &&& (match spec.fix {
        Some(f) => fix_from_spec(cdir, wdir, f, a.fix),
        None => fix_is_empty(a.fix),
    })
    &&& (a.check.command is Some <==> spec.check.commands is Some)
    &&& (spec.check.commands is Some ==> all_prepared(
        cdir,
        wdir,
        spec.check.commands->Some_0@,
        a.check.command->Some_0@,
    ))
    &&& (a.check.files is Some <==> spec.check.paths is Some)
    &&& (spec.check.paths is Some ==> {
        &&& paths_rendered(wdir, spec.check.paths->Some_0@, a.check.files->Some_0.paths@)
        &&& path_parent(cdir) == Some(a.check.files->Some_0.base_path@)
    })
}

/// Some template or path of the action does not render, or the group's directory has no
/// parent while the action checks paths.
pub open spec fn action_fails(group: V1AlphaDoctorGroup, spec: DoctorGroupActionSpec) -> bool {
    let cdir = opt_text(group.metadata.annotations.file_dir);
    let wdir = working_dir_of(group.metadata);
    ||| (spec.fix is Some && spec.fix->Some_0.commands@.len() > 0 && some_template_fails(wdir, spec.fix->Some_0.commands@))
    ||| (spec.check.commands is Some && some_template_fails(wdir, spec.check.commands->Some_0@))
    ||| (spec.check.paths is Some && (some_template_fails(wdir, spec.check.paths->Some_0@) || path_parent(cdir) is None))
}

/// Turns action number `idx` (from 0) of a group into its runtime form: an unnamed action
/// is named by its position from 1, an undescribed one is described as `default`, fix and
/// check commands are prepared, and check paths are rendered and resolved against the parent
/// of the group's directory.
pub fn parse_action(idx: usize, group_model: &V1AlphaDoctorGroup, action: &DoctorGroupActionSpec) -> (r: Result<DoctorGroupAction, ModelError>)
    requires
        idx < usize::MAX,
        group_model.metadata.annotations.working_dir is Some,
    ensures
        match r {
            Ok(a) => action_from_spec(idx as nat, *group_model, *action, a),
            Err(_) => action_fails(*group_model, *action),
        },
{
    let containing_dir = group_model.containing_dir();
    let working_dir = match &group_model.metadata.annotations.working_dir {
        Some(w) => copy_string(w),
        None => String::new(),
    };
    let fix = match &action.fix {
        Some(fix_spec) => DoctorFix::from_spec(containing_dir.as_str(), working_dir.as_str(), fix_spec)?,
        None => DoctorFix::empty(),
    };
    let check_command = match &action.check.commands {
        Some(check) => match DoctorCommands::from_commands(containing_dir.as_str(), working_dir.as_str(), check.as_slice()) {
            Ok(c) => Some(c),
            Err(msg) => {
                return Err(ModelError::Template(msg));
            },
        },
        None => None,
    };
    let files = match &action.check.paths {
        Some(paths) => {
            let mut rendered: Vec<String> = Vec::new();
            let mut i: usize = 0;
            while i < paths.len()
                invariant
                    i <= paths@.len(),
                    rendered@.len() == i,
                    working_dir@ == working_dir_of(group_model.metadata),
                    action.check.paths == Some(*paths),
                    forall|k: int| 0 <= k < i ==> template_render(#[trigger] paths@[k]@, working_dir@) == Some(rendered@[k]@),
                decreases paths@.len() - i,
            {
                match substitute_templates(working_dir.as_str(), paths[i].as_str()) {
                    Ok(p) => rendered.push(p),
                    Err(msg) => {
                        assert(template_render(paths@[i as int]@, working_dir@).is_none());
                        return Err(ModelError::Template(msg));
                    },
                }
                i = i + 1;
            }
            let base_path = match parent_of(containing_dir.as_str()) {
                Some(p) => p,
                None => {
                    return Err(ModelError::NoParentDirectory(containing_dir));
                },
            };
            Some(DoctorGroupCachePath { paths: rendered, base_path })
        },
        None => None,
    };
    let name = match &action.name {
        Some(n) => copy_string(n),
        None => decimal_text(idx + 1),
    };
    let description = match &action.description {
        Some(d) => copy_string(d),
        None => "default".to_owned(),
    };
    Ok(DoctorGroupAction {
        name,
        description,
        fix,
        check: DoctorGroupActionCheck { command: check_command, files },
        required: action.required,
    })
}

impl DoctorGroup {
    /// Turns a configured group into its runtime form: its full name, its actions parsed in
    /// order (failing on the first action that fails), the groups it needs, whether it runs
    /// by default, its extra report details and skip setting.
    pub fn try_from(model: V1AlphaDoctorGroup) -> (r: Result<DoctorGroup, ModelError>)
        requires
            model.metadata.annotations.working_dir is Some,
            model.spec.actions@.len() < usize::MAX,
        ensures
            match r {
                Ok(g) => {
                    &&& g.full_name@ == full_name_text(doctor_group_kind_text(), model.metadata.name@)
                    &&& g.metadata == model.metadata
                    &&& g.requires@ == model.spec.needs@
                    &&& g.run_by_default == (model.spec.inclusion == DoctorInclude::ByDefault)
                    &&& g.extra_report_args@ == model.spec.report_extra_details@
                    &&& g.skip == model.spec.skip
                    &&& g.actions@.len() == model.spec.actions@.len()
                    &&& forall|i: int| 0 <= i < g.actions@.len() ==> action_from_spec(
                        i as nat,
                        model,
                        model.spec.actions@[i],
                        #[trigger] g.actions@[i],
                    )
                },
                Err(_) => exists|i: int| 0 <= i < model.spec.actions@.len() && action_fails(model, #[trigger] model.spec.actions@[i]),
            },
    {
        let mut actions: Vec<DoctorGroupAction> = Vec::new();
        let mut count: usize = 0;
        while count < model.spec.actions.len()
            invariant
                count <= model.spec.actions@.len(),
                model.spec.actions@.len() < usize::MAX,
                model.metadata.annotations.working_dir is Some,
                actions@.len() == count,
                forall|i: int| 0 <= i < count ==> action_from_spec(
                    i as nat,
                    model,
                    model.spec.actions@[i],
                    #[trigger] actions@[i],
                ),
            decreases model.spec.actions@.len() - count,
        {
            match parse_action(count, &model, &model.spec.actions[count]) {
                Ok(a) => actions.push(a),
                Err(e) => {
                    return Err(e);
                },
            }
            count = count + 1;
        }
        let full_name = model.full_name();
        let run_by_default = match model.spec.inclusion {
            DoctorInclude::ByDefault => true,
            DoctorInclude::WhenRequired => false,
        };
        Ok(DoctorGroup {
            full_name,
            metadata: model.metadata,
            requires: model.spec.needs,
            run_by_default,
            actions,
            extra_report_args: model.spec.report_extra_details,
            skip: model.spec.skip,
        })
    }
}

// ---------------------------------------------------------------------------------------
// Known errors.
// ---------------------------------------------------------------------------------------

/// A known error, ready to look for in output.
#[derive(Debug, Clone, PartialEq)]
pub struct KnownError {
    pub full_name: String,
    pub metadata: ModelMetadata,
    pub pattern: String,
    pub help_text: String,
    pub fix: Option<DoctorFix>,
}

impl KnownError {
    /// Checks the pattern and prepares the fix of a configured known error.
    /// Fails exactly when the pattern does not compile or a fix command does not render.
    pub fn try_from(value: V1AlphaKnownError) -> (r: Result<KnownError, ModelError>)
        requires
            value.metadata.annotations.working_dir is Some,
        ensures
            match r {
                Ok(k) => {
                    &&& pattern_is_valid(value.spec.pattern@)
                    &&& k.full_name@ == full_name_text(known_error_kind_text(), value.metadata.name@)
                    &&& k.metadata == value.metadata
                    &&& k.pattern@ == value.spec.pattern@
                    &&& k.help_text@ == value.spec.help@
                    &&& (k.fix is Some <==> value.spec.fix is Some)
                    &&& (value.spec.fix is Some ==> fix_from_spec(
                        opt_text(value.metadata.annotations.file_dir),
                        working_dir_of(value.metadata),
                        value.spec.fix->Some_0,
                        k.fix->Some_0,
                    ))
                },
                Err(e) => match e {
                    ModelError::Pattern(_) => !pattern_is_valid(value.spec.pattern@),
                    ModelError::Template(_) => pattern_is_valid(value.spec.pattern@) && value.spec.fix is Some
                        && some_template_fails(working_dir_of(value.metadata), value.spec.fix->Some_0.commands@),
                    _ => false,
                },
            },
    {
        if let Err(msg) = compile_pattern(value.spec.pattern.as_str()) {
            return Err(ModelError::Pattern(msg));
        }
        let containing_dir = value.metadata.containing_dir();
        let working_dir = value.metadata.working_dir();
        let fix = match &value.spec.fix {
            Some(f) => Some(DoctorFix::from_spec(containing_dir.as_str(), working_dir.as_str(), f)?),
            None => None,
        };
        let full_name = value.full_name();
        Ok(KnownError {
            full_name,
            metadata: value.metadata,
            pattern: value.spec.pattern,
            help_text: value.spec.help,
            fix,
        })
    }

    /// The known error's name.
    pub fn name(&self) -> (r: &str)
        ensures
            r@ == self.metadata.name@,
    {
        self.metadata.name.as_str()
    }

    /// Whether the known error's pattern matches `line`.
    pub fn matches(&self, line: &str) -> (r: bool)
        ensures
            r == (pattern_is_valid(self.pattern@) && pattern_matches(self.pattern@, line@)),
    {
        line_matches(self.pattern.as_str(), line)
    }
}

} // verus!
