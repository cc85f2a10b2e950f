use vstd::prelude::*;

use crate::models::{trim_text, trimmed, DoctorGroup, KnownError, ModelError};
use crate::pairs::{has_key, keys_unique, pair_texts, pairs_map, put_pair, value_of};
use crate::report::copy_string;
use crate::v1alpha::{
    metadata_alike, copy_pairs, copy_strings, full_name_text, report_definition_kind_text,
    report_location_kind_text, ModelMetadata, ReportDestinationSpec, ReportDestinationTemplates,
    V1AlphaReportDefinition, V1AlphaReportLocation,
};

verus! {

/// A report template with extra data to collect, ready to use.
#[derive(Debug, Clone, PartialEq)]
pub struct ReportDefinition {
    pub full_name: String,
    pub metadata: ModelMetadata,
    pub additional_data: Vec<(String, String)>,
    pub template: String,
}

impl ReportDefinition {
    /// The runtime form of a configured report definition; the template loses its leading
    /// and trailing whitespace.
    pub fn try_from(value: V1AlphaReportDefinition) -> (r: Result<ReportDefinition, ModelError>)
        ensures
            r matches Ok(d) && {
                &&& d.full_name@ == full_name_text(report_definition_kind_text(), value.metadata.name@)
                &&& d.metadata == value.metadata
                &&& d.template@ == trimmed(value.spec.template@)
                &&& d.additional_data@ == value.spec.additional_data@
            },
    {
        let full_name = value.full_name();
        let template = trim_text(value.spec.template.as_str());
        Ok(ReportDefinition {
            full_name,
            metadata: value.metadata,
            additional_data: value.spec.additional_data,
            template,
        })
    }
}

/// Where a report is sent.
#[derive(Debug, Clone, PartialEq)]
pub enum ReportUploadLocationDestination {
    RustyPaste { url: String },
    GithubIssue { owner: String, repo: String, tags: Vec<String> },
    Local { destination: String },
}

/// `d` sends reports where `spec` says.
pub open spec fn destination_from_spec(spec: ReportDestinationSpec, d: ReportUploadLocationDestination) -> bool {
    match (spec, d) {
        (ReportDestinationSpec::RustyPaste(s), ReportUploadLocationDestination::RustyPaste { url }) => url@ == s.url@,
        (
            ReportDestinationSpec::GithubIssue(s),
            ReportUploadLocationDestination::GithubIssue { owner, repo, tags },
        ) => owner@ == s.owner@ && repo@ == s.repo@ && tags@.len() == s.tags@.len() && forall|i: int|
            0 <= i < tags@.len() ==> (#[trigger] tags@[i])@ == s.tags@[i]@,
        (ReportDestinationSpec::Local(s), ReportUploadLocationDestination::Local { destination }) => destination@
            == s.directory@,
        _ => false,
    }
}

impl ReportUploadLocationDestination {
    /// The destination a configured one names.
    pub fn from_spec(spec: &ReportDestinationSpec) -> (r: ReportUploadLocationDestination)
        ensures
            destination_from_spec(*spec, r),
    {
        match spec {
            ReportDestinationSpec::RustyPaste(def) => ReportUploadLocationDestination::RustyPaste { url: copy_string(&def.url) },
            ReportDestinationSpec::GithubIssue(g) => ReportUploadLocationDestination::GithubIssue {
                owner: copy_string(&g.owner),
                repo: copy_string(&g.repo),
                tags: copy_strings(&g.tags),
            },
            ReportDestinationSpec::Local(l) => ReportUploadLocationDestination::Local { destination: copy_string(&l.directory) },
        }
    }
}

/// The templates a report is rendered with: named templates (always one named `message`
/// unless removed by hand), and the title, doctor and analyze templates.
#[derive(Debug, Clone)]
pub struct ReportTemplates {
    templates: Vec<(String, String)>,
    doctor_template: String,
    title_template: String,
    analyze_template: String,
}

impl PartialEq for ReportTemplates {
    fn eq(&self, other: &Self) -> (r: bool) {
        self.doctor_template == other.doctor_template && self.title_template == other.title_template
            && self.analyze_template == other.analyze_template
    }
}

impl vstd::std_specs::cmp::PartialEqSpecImpl for ReportTemplates {
    open spec fn obeys_eq_spec() -> bool {
        true
    }

    open spec fn eq_spec(&self, other: &Self) -> bool {
        self.doctor_text() == other.doctor_text() && self.title_text() == other.title_text()
            && self.analyze_text() == other.analyze_text()
    }
}

/// `{{ message }}` heads every default body; the message itself is the default `message`
/// template.
pub open spec fn default_message_text() -> Seq<char> {
    "== Error report for {{ command }}."@
}

/// The named templates of the defaults: only `message`.
pub open spec fn default_named() -> Map<Seq<char>, Seq<char>> {
    map!["message"@ => default_message_text()]
}

pub open spec fn default_title_text() -> Seq<char> {
    "Scope bug report: `{{ entrypoint }}`"@
}

pub open spec fn default_doctor_text() -> Seq<char> {
    "{{ message }}\n\n{% if additionalData %}\n**Additional Capture Data**\n\n| Name | Value |\n|---|---|\n{% for item in additionalData %}\n|{{ item.name }}|{% for line in item.output | lines %}{% if not loop.first %}<br>{% endif %}`{{ line }}`{% endfor %}|\n{% endfor %}\n{% endif %}\n\n{% for group in groups %}\n## Group {{ group.name }}\n\n{% for action in group.actions %}\n### Action {{ group.name }}/{{ action.name }}\n\n{% for result in action.check %}\n---\nCheck Command: `{{ result.command }}`\n\nOutput:\n```text\n{{ result.output }}\n```\n\n|Name|Value|\n|:---|:---|\n| Exit code| `{{ result.exitCode }}` |\n| Started at| `{{ result.startTime }}` |\n| Finished at| `{{ result.endTime }}` |\n\n{% endfor %}\n{% for result in action.fix %}\n---\nFix Command: `{{ result.command }}`\n\nOutput:\n```text\n{{ result.output }}\n```\n\n|Name|Value|\n|:---|:---|\n| Exit code| `{{ result.exitCode }}` |\n| Started at| `{{ result.startTime }}` |\n| Finished at| `{{ result.endTime }}` |\n\n{% endfor %}\n{% for result in action.verify %}\n---\nVerify Command: `{{ result.command }}`\n\nOutput:\n```text\n{{ result.output }}\n```\n\n|Name|Value|\n|:---|:---|\n| Exit code| `{{ result.exitCode }}` |\n| Started at| `{{ result.startTime }}` |\n| Finished at| `{{ result.endTime }}` |\n\n{% endfor %}\n{% endfor %}\n\n{% endfor %}\n"@
}

pub open spec fn default_command_text() -> Seq<char> {
    "{{ message }}\n\n## Command `{{ command }}`\n\nOutput:\n```text\n{{ result.output }}\n```\n\n|Name|Value|\n|:---|:---|\n| Exit code| `{{ result.exitCode }}` |\n| Started at| `{{ result.startTime }}` |\n| Finished at| `{{ result.endTime }}` |\n{% if additionalData %}\n\n**Additional Capture Data**\n\n| Name | Value |\n|---|---|\n{% for item in additionalData %}\n|{{ item.name }}|{% for line in item.output | lines %}{% if not loop.first %}<br>{% endif %}`{{ line }}`{% endfor %}|\n{% endfor %}\n{% endif %}\n"@
}

/// The named templates after the extra definitions `defs` are added, in order, to `m`.
pub open spec fn with_definitions(m: Map<Seq<char>, Seq<char>>, defs: Seq<(String, String)>) -> Map<Seq<char>, Seq<char>>
    decreases defs.len(),
{
    if defs.len() == 0 {
        m
    } else {
        with_definitions(m, defs.drop_last()).insert(defs.last().0@, defs.last().1@)
    }
}

/// `a` and `b` hold the same templates, text for text, and `a` keeps each name once when
/// `b` does.
pub open spec fn templates_alike(a: ReportTemplates, b: ReportTemplates) -> bool {
    &&& a.environment() == b.environment()
    &&& a.title_text() == b.title_text()
    &&& a.doctor_text() == b.doctor_text()
    &&& a.analyze_text() == b.analyze_text()
    &&& (b.wf() ==> a.wf())
}

impl ReportTemplates {
    /// The named templates hold each name once.
    pub closed spec fn wf(&self) -> bool {
        keys_unique(self.templates@)
    }

    /// The named templates, by name.
    pub closed spec fn named(&self) -> Map<Seq<char>, Seq<char>> {
        pairs_map(self.templates@)
    }

    /// The title template.
    pub closed spec fn title_text(&self) -> Seq<char> {
        self.title_template@
    }

    /// The body template of doctor reports.
    pub closed spec fn doctor_text(&self) -> Seq<char> {
        self.doctor_template@
    }

    /// The body template of command reports.
    pub closed spec fn analyze_text(&self) -> Seq<char> {
        self.analyze_template@
    }

    /// The default `message` template.
    pub fn default_message_template() -> (r: String)
        ensures
            r@ == default_message_text(),
    {
        "== Error report for {{ command }}.".to_owned()
    }

    /// The default title template.
    pub fn default_title_template() -> (r: String)
        ensures
            r@ == default_title_text(),
    {
        "Scope bug report: `{{ entrypoint }}`".to_owned()
    }

    /// The default body of doctor reports: the message, extra captured data, then each
    /// group's actions with the commands that ran.
    pub fn default_doctor_template() -> (r: String)
        ensures
            r@ == default_doctor_text(),
    {
        "{{ message }}\n\n{% if additionalData %}\n**Additional Capture Data**\n\n| Name | Value |\n|---|---|\n{% for item in additionalData %}\n|{{ item.name }}|{% for line in item.output | lines %}{% if not loop.first %}<br>{% endif %}`{{ line }}`{% endfor %}|\n{% endfor %}\n{% endif %}\n\n{% for group in groups %}\n## Group {{ group.name }}\n\n{% for action in group.actions %}\n### Action {{ group.name }}/{{ action.name }}\n\n{% for result in action.check %}\n---\nCheck Command: `{{ result.command }}`\n\nOutput:\n```text\n{{ result.output }}\n```\n\n|Name|Value|\n|:---|:---|\n| Exit code| `{{ result.exitCode }}` |\n| Started at| `{{ result.startTime }}` |\n| Finished at| `{{ result.endTime }}` |\n\n{% endfor %}\n{% for result in action.fix %}\n---\nFix Command: `{{ result.command }}`\n\nOutput:\n```text\n{{ result.output }}\n```\n\n|Name|Value|\n|:---|:---|\n| Exit code| `{{ result.exitCode }}` |\n| Started at| `{{ result.startTime }}` |\n| Finished at| `{{ result.endTime }}` |\n\n{% endfor %}\n{% for result in action.verify %}\n---\nVerify Command: `{{ result.command }}`\n\nOutput:\n```text\n{{ result.output }}\n```\n\n|Name|Value|\n|:---|:---|\n| Exit code| `{{ result.exitCode }}` |\n| Started at| `{{ result.startTime }}` |\n| Finished at| `{{ result.endTime }}` |\n\n{% endfor %}\n{% endfor %}\n\n{% endfor %}\n".to_owned()
    }

    /// The default body of command reports: the message, the command's output and
    /// result, then extra captured data.
    pub fn default_command_template() -> (r: String)
        ensures
            r@ == default_command_text(),
    {
        "{{ message }}\n\n## Command `{{ command }}`\n\nOutput:\n```text\n{{ result.output }}\n```\n\n|Name|Value|\n|:---|:---|\n| Exit code| `{{ result.exitCode }}` |\n| Started at| `{{ result.startTime }}` |\n| Finished at| `{{ result.endTime }}` |\n{% if additionalData %}\n\n**Additional Capture Data**\n\n| Name | Value |\n|---|---|\n{% for item in additionalData %}\n|{{ item.name }}|{% for line in item.output | lines %}{% if not loop.first %}<br>{% endif %}`{{ line }}`{% endfor %}|\n{% endfor %}\n{% endif %}\n".to_owned()
    }

    /// Only the default `message` template, and the default title and bodies.
    pub fn default() -> (r: ReportTemplates)
        ensures
            r.wf(),
            r.named() == default_named(),
            r.title_text() == default_title_text(),
            r.doctor_text() == default_doctor_text(),
            r.analyze_text() == default_command_text(),
    {
        let mut templates: Vec<(String, String)> = Vec::new();
        put_pair(&mut templates, "message".to_owned(), ReportTemplates::default_message_template());
        let r = ReportTemplates {
            templates,
            title_template: ReportTemplates::default_title_template(),
            doctor_template: ReportTemplates::default_doctor_template(),
            analyze_template: ReportTemplates::default_command_template(),
        };
        proof {
            let m = default_named();
            assert forall|k: Seq<char>| #[trigger] pairs_map(r.templates@).dom().contains(k) <==> m.dom().contains(k) by {
                if k != "message"@ {
                    assert(!has_key(Seq::<(String, String)>::empty(), k));
                }
            }
            assert(pairs_map(r.templates@) =~= m);
        }
        r
    }

    /// Sets the template named `name` (adding it, or replacing one of that name).
    pub fn add_template(&mut self, name: &str, template: &str)
        requires
            old(self).wf(),
        ensures
            final(self).wf(),
            final(self).named() == old(self).named().insert(name@, template@),
            final(self).title_text() == old(self).title_text(),
            final(self).doctor_text() == old(self).doctor_text(),
            final(self).analyze_text() == old(self).analyze_text(),
    {
        let ghost before = self.templates@;
        put_pair(&mut self.templates, name.to_owned(), template.to_owned());
        proof {
            let after = self.templates@;
            assert forall|k: Seq<char>| #[trigger] pairs_map(after).dom().contains(k) <==> pairs_map(before).insert(name@, template@).dom().contains(k) by {
                if k != name@ {
                    assert(has_key(after, k) == has_key(before, k));
                }
            }
            assert forall|k: Seq<char>| #[trigger] pairs_map(after).dom().contains(k) implies pairs_map(after)[k] == pairs_map(before).insert(name@, template@)[k] by {
                if k != name@ {
                    assert(value_of(after, k) == value_of(before, k));
                }
            }
            assert(pairs_map(after) =~= pairs_map(before).insert(name@, template@));
        }
    }

    /// The default templates, with the title, doctor and analyze templates replaced where
    /// `inputs` gives them, and each extra definition added in order.
    pub fn try_from(inputs: &ReportDestinationTemplates) -> (r: Result<ReportTemplates, ModelError>)
        ensures
            r matches Ok(t) && {
                &&& t.wf()
                &&& t.named() == with_definitions(
                    default_named(),
                    inputs.extra_definitions@,
                )
                &&& t.title_text() == (match inputs.title {
                    Some(s) => s@,
                    None => default_title_text(),
                })
                &&& t.doctor_text() == (match inputs.doctor {
                    Some(s) => s@,
                    None => default_doctor_text(),
                })
                &&& t.analyze_text() == (match inputs.analyze {
                    Some(s) => s@,
                    None => default_command_text(),
                })
            },
    {
        let mut t = ReportTemplates::default();
        let ghost start = t.named();
        let mut i: usize = 0;
        while i < inputs.extra_definitions.len()
            invariant
                i <= inputs.extra_definitions@.len(),
                t.wf(),
                t.named() == with_definitions(start, inputs.extra_definitions@.take(i as int)),
                start == default_named(),
                t.title_text() == default_title_text(),
                t.doctor_text() == default_doctor_text(),
                t.analyze_text() == default_command_text(),
            decreases inputs.extra_definitions@.len() - i,
        {
            let (name, template) = (&inputs.extra_definitions[i].0, &inputs.extra_definitions[i].1);
            t.add_template(name.as_str(), template.as_str());
            assert(inputs.extra_definitions@.take(i as int + 1).drop_last() =~= inputs.extra_definitions@.take(i as int));
            i = i + 1;
        }
        assert(inputs.extra_definitions@.take(i as int) =~= inputs.extra_definitions@);
        match &inputs.title {
            Some(s) => {
                t.title_template = copy_string(s);
            },
            None => {},
        }
        match &inputs.doctor {
            Some(s) => {
                t.doctor_template = copy_string(s);
            },
            None => {},
        }
        match &inputs.analyze {
            Some(s) => {
                t.analyze_template = copy_string(s);
            },
            None => {},
        }
        Ok(t)
    }

    /// The templates a report is rendered with, in the order they are registered: the named
    /// templates, then `title`, `analyze` and `doctor` (a later one replaces an earlier one
    /// of the same name).
    pub closed spec fn environment(&self) -> Seq<(Seq<char>, Seq<char>)> {
        pair_texts(self.templates@) + seq![
            ("title"@, self.title_template@),
            ("analyze"@, self.analyze_template@),
            ("doctor"@, self.doctor_template@),
        ]
    }

    /// The templates a report is rendered with, as name/template pairs.
    pub fn environment_templates(&self) -> (r: Vec<(String, String)>)
        ensures
            pair_texts(r@) == self.environment(),
    {
        let mut r = copy_pairs(&self.templates);
        let ghost named = pair_texts(r@);
        assert(named =~= pair_texts(self.templates@));
        r.push(("title".to_owned(), copy_string(&self.title_template)));
        r.push(("analyze".to_owned(), copy_string(&self.analyze_template)));
        r.push(("doctor".to_owned(), copy_string(&self.doctor_template)));
        assert(pair_texts(r@) =~= self.environment());
        r
    }

    /// A copy of these templates.
    pub fn copy(&self) -> (r: ReportTemplates)
        ensures
            templates_alike(r, *self),
    {
        let templates = copy_pairs(&self.templates);
        proof {
            assert(pair_texts(templates@) =~= pair_texts(self.templates@));
            assert forall|a: int, b: int| 0 <= a < b < templates@.len() && self.wf() implies (#[trigger] templates@[a]).0@
                != (#[trigger] templates@[b]).0@ by {
                assert(self.templates@[a].0@ != self.templates@[b].0@);
            }
        }
        ReportTemplates {
            templates,
            doctor_template: copy_string(&self.doctor_template),
            title_template: copy_string(&self.title_template),
            analyze_template: copy_string(&self.analyze_template),
        }
    }

    /// The named templates, as name/template pairs with each name once.
    pub fn templates(&self) -> (r: &Vec<(String, String)>)
        ensures
            keys_unique(r@) == self.wf(),
            pairs_map(r@) == self.named(),
    {
        &self.templates
    }

    /// The title template.
    pub fn title_template(&self) -> (r: &str)
        ensures
            r@ == self.title_text(),
    {
        self.title_template.as_str()
    }

    /// The body template of doctor reports.
    pub fn doctor_template(&self) -> (r: &str)
        ensures
            r@ == self.doctor_text(),
    {
        self.doctor_template.as_str()
    }

    /// The body template of command reports.
    pub fn analyze_template(&self) -> (r: &str)
        ensures
            r@ == self.analyze_text(),
    {
        self.analyze_template.as_str()
    }
}

/// `a` and `b` send reports to the same place.
pub open spec fn destinations_alike(a: ReportUploadLocationDestination, b: ReportUploadLocationDestination) -> bool {
    match (a, b) {
        (ReportUploadLocationDestination::RustyPaste { url: x }, ReportUploadLocationDestination::RustyPaste { url: y }) => x@ == y@,
        (
            ReportUploadLocationDestination::GithubIssue { owner: o1, repo: r1, tags: t1 },
            ReportUploadLocationDestination::GithubIssue { owner: o2, repo: r2, tags: t2 },
        ) => o1@ == o2@ && r1@ == r2@ && t1@.map_values(|t: String| t@) == t2@.map_values(|t: String| t@),
        (ReportUploadLocationDestination::Local { destination: x }, ReportUploadLocationDestination::Local { destination: y }) => x@
            == y@,
        _ => false,
    }
}

impl ReportUploadLocationDestination {
    /// A copy of this destination.
    pub fn copy(&self) -> (r: ReportUploadLocationDestination)
        ensures
            destinations_alike(r, *self),
    {
        match self {
            ReportUploadLocationDestination::RustyPaste { url } => ReportUploadLocationDestination::RustyPaste { url: copy_string(url) },
            ReportUploadLocationDestination::GithubIssue { owner, repo, tags } => {
                let copied = copy_strings(tags);
                assert(copied@.map_values(|t: String| t@) =~= tags@.map_values(|t: String| t@));
                ReportUploadLocationDestination::GithubIssue { owner: copy_string(owner), repo: copy_string(repo), tags: copied }
            },
            ReportUploadLocationDestination::Local { destination } => ReportUploadLocationDestination::Local {
                destination: copy_string(destination),
            },
        }
    }
}

/// `a` and `b` are the same report location, text for text.
pub open spec fn locations_alike(a: ReportUploadLocation, b: ReportUploadLocation) -> bool {
    &&& metadata_alike(a.metadata, b.metadata)
    &&& a.full_name@ == b.full_name@
    &&& destinations_alike(a.destination, b.destination)
    &&& templates_alike(a.templates, b.templates)
    &&& pair_texts(a.additional_data@) == pair_texts(b.additional_data@)
}

/// A place reports are sent to, with its templates and extra data to collect.
#[derive(Debug, Clone, PartialEq)]
pub struct ReportUploadLocation {
    pub metadata: ModelMetadata,
    pub full_name: String,
    pub destination: ReportUploadLocationDestination,
    pub templates: ReportTemplates,
    pub additional_data: Vec<(String, String)>,
}

impl ReportUploadLocation {
    /// A copy of this location.
    pub fn copy(&self) -> (r: ReportUploadLocation)
        ensures
            locations_alike(r, *self),
    {
        let additional_data = copy_pairs(&self.additional_data);
        assert(pair_texts(additional_data@) =~= pair_texts(self.additional_data@));
        ReportUploadLocation {
            metadata: self.metadata.copy(),
            full_name: copy_string(&self.full_name),
            destination: self.destination.copy(),
            templates: self.templates.copy(),
            additional_data,
        }
    }

    /// The runtime form of a configured report location.
    pub fn try_from(value: V1AlphaReportLocation) -> (r: Result<ReportUploadLocation, ModelError>)
        ensures
            r matches Ok(l) && {
                &&& l.full_name@ == full_name_text(report_location_kind_text(), value.metadata.name@)
                &&& l.metadata == value.metadata
                &&& destination_from_spec(value.spec.destination, l.destination)
                &&& l.templates.wf()
                &&& l.templates.named() == with_definitions(
                    default_named(),
                    value.spec.templates.extra_definitions@,
                )
                &&& l.templates.title_text() == (match value.spec.templates.title {
                    Some(s) => s@,
                    None => default_title_text(),
                })
                &&& l.templates.doctor_text() == (match value.spec.templates.doctor {
                    Some(s) => s@,
                    None => default_doctor_text(),
                })
                &&& l.templates.analyze_text() == (match value.spec.templates.analyze {
                    Some(s) => s@,
                    None => default_command_text(),
                })
                &&& l.additional_data@ == value.spec.additional_data@
            },
    {
        let destination = ReportUploadLocationDestination::from_spec(&value.spec.destination);
        let templates = ReportTemplates::try_from(&value.spec.templates)?;
        let full_name = value.full_name();
        Ok(ReportUploadLocation {
            full_name,
            metadata: value.metadata,
            destination,
            templates,
            additional_data: value.spec.additional_data,
        })
    }
}

/// One loaded resource.
#[derive(Debug, Clone, PartialEq)]
pub enum ParsedConfig {
    KnownError(KnownError),
    ReportUpload(ReportUploadLocation),
    DoctorGroup(DoctorGroup),
}

impl ParsedConfig {
    /// The report location, if this is one.
    pub fn get_report_upload_spec(&self) -> (r: Option<&ReportUploadLocation>)
        ensures
            match self {
                ParsedConfig::ReportUpload(l) => r == Some(l),
                _ => r is None,
            },
    {
        match self {
            ParsedConfig::ReportUpload(root) => Some(root),
            _ => None,
        }
    }

    /// The known error, if this is one.
    pub fn get_known_error_spec(&self) -> (r: Option<&KnownError>)
        ensures
            match self {
                ParsedConfig::KnownError(k) => r == Some(k),
                _ => r is None,
            },
    {
        match self {
            ParsedConfig::KnownError(root) => Some(root),
            _ => None,
        }
    }

    /// The doctor group, if this is one.
    pub fn get_doctor_group(&self) -> (r: Option<&DoctorGroup>)
        ensures
            match self {
                ParsedConfig::DoctorGroup(g) => r == Some(g),
                _ => r is None,
            },
    {
        match self {
            ParsedConfig::DoctorGroup(root) => Some(root),
            _ => None,
        }
    }
}

} // verus!
