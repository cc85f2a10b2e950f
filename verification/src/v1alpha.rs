use vstd::prelude::*;

use crate::pairs::pair_texts;
use crate::report::copy_string;
use crate::text::{chars_of, string_from_chars};

verus! {

/// The text of an optional field, empty when the field is absent.
pub open spec fn opt_text(o: Option<String>) -> Seq<char> {
    match o {
        Some(s) => s@,
        None => Seq::empty(),
    }
}

/// `kind/name`, the full name of a resource.
pub open spec fn full_name_text(kind: Seq<char>, name: Seq<char>) -> Seq<char> {
    kind + seq!['/'] + name
}

/// A copy of an optional string.
pub fn copy_opt(o: &Option<String>) -> (r: Option<String>)
    ensures
        r is Some <==> o is Some,
        r is Some ==> r->Some_0@ == o->Some_0@,
        opt_text(r) == opt_text(*o),
{
    match o {
        Some(s) => Some(copy_string(s)),
        None => None,
    }
}

/// The text of an optional string, or the empty string.
pub fn text_or_empty(o: &Option<String>) -> (r: String)
    ensures
        r@ == opt_text(*o),
{
    match o {
        Some(s) => copy_string(s),
        None => String::new(),
    }
}

/// Builds `kind/name`.
pub fn join_full_name(kind: &str, name: &str) -> (r: String)
    ensures
        r@ == full_name_text(kind@, name@),
{
    let mut out = chars_of(kind);
    out.push('/');
    let n = chars_of(name);
    let ghost base = out@;
    let mut i: usize = 0;
    while i < n.len()
        invariant
            i <= n.len(),
            n@ == name@,
            out@ == base + n@.take(i as int),
        decreases n.len() - i,
    {
        out.push(n[i]);
        assert(n@.take(i as int + 1) =~= n@.take(i as int).push(n@[i as int]));
        i = i + 1;
    }
    assert(n@.take(n.len() as int) =~= n@);
    assert(out@ =~= full_name_text(kind@, name@));
    string_from_chars(&out)
}

/// A copy of a list of key/value pairs.
pub fn copy_pairs(v: &Vec<(String, String)>) -> (r: Vec<(String, String)>)
    ensures
        r@.len() == v@.len(),
        forall|i: int| 0 <= i < v@.len() ==> (#[trigger] r@[i]).0@ == v@[i].0@ && r@[i].1@ == v@[i].1@,
{
    let mut out: Vec<(String, String)> = Vec::new();
    let mut i: usize = 0;
    while i < v.len()
        invariant
            i <= v@.len(),
            out@.len() == i,
            forall|k: int| 0 <= k < i ==> (#[trigger] out@[k]).0@ == v@[k].0@ && out@[k].1@ == v@[k].1@,
        decreases v@.len() - i,
    {
        out.push((copy_string(&v[i].0), copy_string(&v[i].1)));
        i = i + 1;
    }
    out
}

/// A copy of a list of strings.
pub fn copy_strings(v: &Vec<String>) -> (r: Vec<String>)
    ensures
        r@.len() == v@.len(),
        forall|i: int| 0 <= i < v@.len() ==> (#[trigger] r@[i])@ == v@[i]@,
{
    let mut out: Vec<String> = Vec::new();
    let mut i: usize = 0;
    while i < v.len()
        invariant
            i <= v@.len(),
            out@.len() == i,
            forall|k: int| 0 <= k < i ==> (#[trigger] out@[k])@ == v@[k]@,
        decreases v@.len() - i,
    {
        out.push(copy_string(&v[i]));
        i = i + 1;
    }
    out
}

/// Where a resource was loaded from, filled in by the loader.
#[derive(Debug, Clone, PartialEq)]
pub struct ModelMetadataAnnotations {
    pub file_path: Option<String>,
    pub file_dir: Option<String>,
    pub working_dir: Option<String>,
    pub bin_path: Option<String>,
    pub extra: Vec<(String, String)>,
}

/// Name, description and origin of a resource.
#[derive(Debug, Clone, PartialEq)]
pub struct ModelMetadata {
    pub name: String,
    pub description: String,
    pub annotations: ModelMetadataAnnotations,
    pub labels: Vec<(String, String)>,
}

/// The text of an optional string, kept optional.
pub open spec fn opt_view(o: Option<String>) -> Option<Seq<char>> {
    match o {
        Some(s) => Some(s@),
        None => None,
    }
}

/// `a` and `b` hold the same metadata, text for text.
pub open spec fn metadata_alike(a: ModelMetadata, b: ModelMetadata) -> bool {
    &&& a.name@ == b.name@
    &&& a.description@ == b.description@
    &&& opt_view(a.annotations.file_path) == opt_view(b.annotations.file_path)
    &&& opt_view(a.annotations.file_dir) == opt_view(b.annotations.file_dir)
    &&& opt_view(a.annotations.working_dir) == opt_view(b.annotations.working_dir)
    &&& opt_view(a.annotations.bin_path) == opt_view(b.annotations.bin_path)
    &&& pair_texts(a.annotations.extra@) == pair_texts(b.annotations.extra@)
    &&& pair_texts(a.labels@) == pair_texts(b.labels@)
}

/// Copying a list of pairs keeps its texts.
proof fn lemma_copied_pairs(a: Seq<(String, String)>, b: Seq<(String, String)>)
    requires
        a.len() == b.len(),
        forall|i: int| 0 <= i < b.len() ==> (#[trigger] a[i]).0@ == b[i].0@ && a[i].1@ == b[i].1@,
    ensures
        pair_texts(a) == pair_texts(b),
{
    assert(pair_texts(a) =~= pair_texts(b));
}

impl ModelMetadata {
    /// A copy of this metadata.
    pub fn copy(&self) -> (r: ModelMetadata)
        ensures
            metadata_alike(r, *self),
    {
        let extra = copy_pairs(&self.annotations.extra);
        let labels = copy_pairs(&self.labels);
        proof {
            lemma_copied_pairs(extra@, self.annotations.extra@);
            lemma_copied_pairs(labels@, self.labels@);
        }
        ModelMetadata {
            name: copy_string(&self.name),
            description: copy_string(&self.description),
            annotations: ModelMetadataAnnotations {
                file_path: copy_opt(&self.annotations.file_path),
                file_dir: copy_opt(&self.annotations.file_dir),
                working_dir: copy_opt(&self.annotations.working_dir),
                bin_path: copy_opt(&self.annotations.bin_path),
                extra,
            },
            labels,
        }
    }

    /// The resource's name.
    pub fn name(&self) -> (r: &str)
        ensures
            r@ == self.name@,
    {
        self.name.as_str()
    }

    /// The resource's description.
    pub fn description(&self) -> (r: &str)
        ensures
            r@ == self.description@,
    {
        self.description.as_str()
    }

    /// The directory of the file the resource came from (empty when unknown).
    pub fn containing_dir(&self) -> (r: String)
        ensures
            r@ == opt_text(self.annotations.file_dir),
    {
        text_or_empty(&self.annotations.file_dir)
    }

    /// The `PATH` value commands of this resource run with (empty when unknown).
    pub fn exec_path(&self) -> (r: String)
        ensures
            r@ == opt_text(self.annotations.bin_path),
    {
        text_or_empty(&self.annotations.bin_path)
    }

    /// The file the resource came from (empty when unknown).
    pub fn file_path(&self) -> (r: String)
        ensures
            r@ == opt_text(self.annotations.file_path),
    {
        text_or_empty(&self.annotations.file_path)
    }

    /// The working directory the resource was loaded for (empty when unknown).
    pub fn working_dir(&self) -> (r: String)
        ensures
            r@ == opt_text(self.annotations.working_dir),
    {
        text_or_empty(&self.annotations.working_dir)
    }
}

/// The one API version of the resources.
#[derive(Debug, Clone, Copy, PartialEq, Eq)]
pub enum V1AlphaApiVersion {
    ScopeV1Alpha,
}

pub open spec fn api_version_text() -> Seq<char> {
    "scope.github.com/v1alpha"@
}

impl V1AlphaApiVersion {
    /// `scope.github.com/v1alpha`.
    pub fn as_text(&self) -> (r: String)
        ensures
            r@ == api_version_text(),
    {
        "scope.github.com/v1alpha".to_owned()
    }
}

/// What needs to be checked before an action runs: `paths` first, then `commands`.
#[derive(Debug, Clone, PartialEq)]
pub struct DoctorCheckSpec {
    pub paths: Option<Vec<String>>,
    pub commands: Option<Vec<String>>,
}

/// A question to confirm before a fix runs.
#[derive(Debug, Clone, PartialEq)]
pub struct DoctorFixPromptSpec {
    pub text: String,
    pub extra_context: Option<String>,
}

/// How to fix the environment.
#[derive(Debug, Clone, PartialEq)]
pub struct DoctorFixSpec {
    pub commands: Vec<String>,
    pub help_text: Option<String>,
    pub help_url: Option<String>,
    pub prompt: Option<DoctorFixPromptSpec>,
}

/// One step of a group: a check and an optional fix.
#[derive(Debug, Clone, PartialEq)]
pub struct DoctorGroupActionSpec {
    pub name: Option<String>,
    pub description: Option<String>,
    pub check: DoctorCheckSpec,
    pub fix: Option<DoctorFixSpec>,
    pub required: bool,
}

/// Whether an action is required when the configuration does not say: it is.
pub fn doctor_group_action_required_default() -> (r: bool)
    ensures
        r,
{
    true
}

/// When a group runs.
#[derive(Debug, Clone, Copy, PartialEq, Eq)]
pub enum DoctorInclude {
    ByDefault,
    WhenRequired,
}

/// Whether a group is skipped: fixed, or decided by a command.
#[derive(Debug, Clone, PartialEq)]
pub enum SkipSpec {
    Skip(bool),
    Command { command: String },
}

impl SkipSpec {
    /// Groups are not skipped unless configured.
    pub fn default_skip() -> (r: SkipSpec)
        ensures
            r == SkipSpec::Skip(false),
    {
        SkipSpec::Skip(false)
    }

    /// A copy of the skip setting.
    pub fn duplicate(&self) -> (r: SkipSpec)
        ensures
            match (*self, r) {
                (SkipSpec::Skip(a), SkipSpec::Skip(b)) => a == b,
                (SkipSpec::Command { command: a }, SkipSpec::Command { command: b }) => a@ == b@,
                _ => false,
            },
    {
        match self {
            SkipSpec::Skip(b) => SkipSpec::Skip(*b),
            SkipSpec::Command { command } => SkipSpec::Command { command: copy_string(command) },
        }
    }
}

/// The options of a doctor group.
#[derive(Debug, Clone, PartialEq)]
pub struct DoctorGroupSpec {
    pub needs: Vec<String>,
    pub actions: Vec<DoctorGroupActionSpec>,
    pub inclusion: DoctorInclude,
    pub report_extra_details: Vec<(String, String)>,
    pub skip: SkipSpec,
}

/// The kind of a doctor group resource.
#[derive(Debug, Clone, Copy, PartialEq, Eq)]
pub enum DoctorGroupKind {
    ScopeDoctorGroup,
}

pub open spec fn doctor_group_kind_text() -> Seq<char> {
    "ScopeDoctorGroup"@
}

impl DoctorGroupKind {
    /// `ScopeDoctorGroup`.
    pub fn as_text(&self) -> (r: String)
        ensures
            r@ == doctor_group_kind_text(),
    {
        "ScopeDoctorGroup".to_owned()
    }
}

/// A `ScopeDoctorGroup` resource as written in configuration.
#[derive(Debug, Clone, PartialEq)]
pub struct V1AlphaDoctorGroup {
    pub api_version: V1AlphaApiVersion,
    pub kind: DoctorGroupKind,
    pub metadata: ModelMetadata,
    pub spec: DoctorGroupSpec,
}

impl V1AlphaDoctorGroup {
    /// `ScopeDoctorGroup/<name>`.
    pub fn full_name(&self) -> (r: String)
        ensures
            r@ == full_name_text(doctor_group_kind_text(), self.metadata.name@),
    {
        let kind = self.kind.as_text();
        join_full_name(kind.as_str(), self.metadata.name.as_str())
    }

    /// The directory of the file the group came from.
    pub fn containing_dir(&self) -> (r: String)
        ensures
            r@ == opt_text(self.metadata.annotations.file_dir),
    {
        self.metadata.containing_dir()
    }
}

/// A known error: a pattern to look for in output, with help and an optional fix.
#[derive(Debug, Clone, PartialEq)]
pub struct KnownErrorSpec {
    pub help: String,
    pub pattern: String,
    pub fix: Option<DoctorFixSpec>,
}

/// The kind of a known-error resource.
#[derive(Debug, Clone, Copy, PartialEq, Eq)]
pub enum KnownErrorKind {
    ScopeKnownError,
}

pub open spec fn known_error_kind_text() -> Seq<char> {
    "ScopeKnownError"@
}

impl KnownErrorKind {
    /// `ScopeKnownError`.
    pub fn as_text(&self) -> (r: String)
        ensures
            r@ == known_error_kind_text(),
    {
        "ScopeKnownError".to_owned()
    }
}

/// A `ScopeKnownError` resource as written in configuration.
#[derive(Debug, Clone, PartialEq)]
pub struct V1AlphaKnownError {
    pub api_version: V1AlphaApiVersion,
    pub kind: KnownErrorKind,
    pub metadata: ModelMetadata,
    pub spec: KnownErrorSpec,
}

impl V1AlphaKnownError {
    /// `ScopeKnownError/<name>`.
    pub fn full_name(&self) -> (r: String)
        ensures
            r@ == full_name_text(known_error_kind_text(), self.metadata.name@),
    {
        let kind = self.kind.as_text();
        join_full_name(kind.as_str(), self.metadata.name.as_str())
    }
}

/// A report template with extra data to collect.
#[derive(Debug, Clone, PartialEq)]
pub struct ReportDefinitionSpec {
    pub additional_data: Vec<(String, String)>,
    pub template: String,
}

/// The kind of a report-definition resource.
#[derive(Debug, Clone, Copy, PartialEq, Eq)]
pub enum ReportDefinitionKind {
    ScopeReportDefinition,
}

pub open spec fn report_definition_kind_text() -> Seq<char> {
    "ScopeReportDefinition"@
}

impl ReportDefinitionKind {
    /// `ScopeReportDefinition`.
    pub fn as_text(&self) -> (r: String)
        ensures
            r@ == report_definition_kind_text(),
    {
        "ScopeReportDefinition".to_owned()
    }
}

/// A `ScopeReportDefinition` resource as written in configuration.
#[derive(Debug, Clone, PartialEq)]
pub struct V1AlphaReportDefinition {
    pub api_version: V1AlphaApiVersion,
    pub kind: ReportDefinitionKind,
    pub metadata: ModelMetadata,
    pub spec: ReportDefinitionSpec,
}

impl V1AlphaReportDefinition {
    /// `ScopeReportDefinition/<name>`.
    pub fn full_name(&self) -> (r: String)
        ensures
            r@ == full_name_text(report_definition_kind_text(), self.metadata.name@),
    {
        let kind = self.kind.as_text();
        join_full_name(kind.as_str(), self.metadata.name.as_str())
    }
}

/// Reports become GitHub issues in `owner/repo`, with `tags`.
#[derive(Debug, Clone, PartialEq)]
pub struct ReportDestinationGithubIssueSpec {
    pub owner: String,
    pub repo: String,
    pub tags: Vec<String>,
}

/// Reports are uploaded to a RustyPaste server.
#[derive(Debug, Clone, PartialEq)]
pub struct ReportDestinationRustyPasteSpec {
    pub url: String,
}

/// Reports are written into a local directory.
#[derive(Debug, Clone, PartialEq)]
pub struct ReportDestinationLocalSpec {
    pub directory: String,
}

/// Where reports go.
#[derive(Debug, Clone, PartialEq)]
pub enum ReportDestinationSpec {
    RustyPaste(ReportDestinationRustyPasteSpec),
    GithubIssue(ReportDestinationGithubIssueSpec),
    Local(ReportDestinationLocalSpec),
}

/// Templates a report location overrides; the others keep their defaults.
#[derive(Debug, Clone, PartialEq)]
pub struct ReportDestinationTemplates {
    pub title: Option<String>,
    pub doctor: Option<String>,
    pub analyze: Option<String>,
    pub extra_definitions: Vec<(String, String)>,
}

/// The options of a report location.
#[derive(Debug, Clone, PartialEq)]
pub struct ReportLocationSpec {
    pub destination: ReportDestinationSpec,
    pub templates: ReportDestinationTemplates,
    pub additional_data: Vec<(String, String)>,
}

/// The kind of a report-location resource.
#[derive(Debug, Clone, Copy, PartialEq, Eq)]
pub enum ReportLocationKind {
    ScopeReportLocation,
}

pub open spec fn report_location_kind_text() -> Seq<char> {
    "ScopeReportLocation"@
}

impl ReportLocationKind {
    /// `ScopeReportLocation`.
    pub fn as_text(&self) -> (r: String)
        ensures
            r@ == report_location_kind_text(),
    {
        "ScopeReportLocation".to_owned()
    }
}

/// A `ScopeReportLocation` resource as written in configuration.
#[derive(Debug, Clone, PartialEq)]
pub struct V1AlphaReportLocation {
    pub api_version: V1AlphaApiVersion,
    pub kind: ReportLocationKind,
    pub metadata: ModelMetadata,
    pub spec: ReportLocationSpec,
}

impl V1AlphaReportLocation {
    /// `ScopeReportLocation/<name>`.
    pub fn full_name(&self) -> (r: String)
        ensures
            r@ == full_name_text(report_location_kind_text(), self.metadata.name@),
    {
        let kind = self.kind.as_text();
        join_full_name(kind.as_str(), self.metadata.name.as_str())
    }
}

} // verus!
