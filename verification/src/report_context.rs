use vstd::prelude::*;

use crate::capture::{join_with, line_texts, sort_by_time, OutputCapture};
use crate::report::{copy_string, ActionReport, ActionTaskReport, AdditionalDataReport, GroupReport};
use crate::report_config::ReportUploadLocation;
use crate::v1alpha::opt_text;

verus! {

/// A rendered report, addressed to one location.
pub struct Report {
    title: String,
    body: String,
    destination: ReportUploadLocation,
}

impl Report {
    /// The report's title text.
    pub closed spec fn title_text(&self) -> Seq<char> {
        self.title@
    }

    /// The report's body text.
    pub closed spec fn body_text(&self) -> Seq<char> {
        self.body@
    }

    /// The location the report is for.
    pub closed spec fn location(&self) -> ReportUploadLocation {
        self.destination
    }

    /// A report with this title and body, for `destination`.
    pub fn new(title: String, body: String, destination: ReportUploadLocation) -> (r: Report)
        ensures
            r.title_text() == title@,
            r.body_text() == body@,
            r.location() == destination,
    {
        Report { title, body, destination }
    }

    /// A copy of the title.
    pub fn title(&self) -> (r: String)
        ensures
            r@ == self.title_text(),
    {
        copy_string(&self.title)
    }

    /// A copy of the body.
    pub fn body(&self) -> (r: String)
        ensures
            r@ == self.body_text(),
    {
        copy_string(&self.body)
    }

    /// The location the report is for.
    pub fn destination(&self) -> (r: &ReportUploadLocation)
        ensures
            *r == self.location(),
    {
        &self.destination
    }
}

/// Something that renders itself into a report for a location.
pub trait ReportRenderer {
    fn render(&self, destination: &ReportUploadLocation) -> Result<Report, String>;
}

/// How `chrono` displays the UTC time `micros` microseconds after the epoch (`None` when
/// the time is out of its range).
pub uninterp spec fn utc_display(micros: i64) -> Option<Seq<char>>;

/// `chrono::DateTime::<Utc>::from_timestamp_micros`, then its `Display` text
/// (as in `2024-05-13 15:03:20 UTC`).
/// Contract: the result is the one `utc_display` names for `micros`.
#[verifier::external_body]
fn utc_text(micros: i64) -> (r: Option<String>)
    ensures
        match r {
            Some(s) => utc_display(micros) == Some(s@),
            None => utc_display(micros) is None,
        },
{
    chrono::DateTime::<chrono::Utc>::from_timestamp_micros(micros).map(|t| t.to_string())
}

/// The text a time is shown with: its UTC display, or nothing when out of range.
pub open spec fn time_text(micros: i64) -> Seq<char> {
    match utc_display(micros) {
        Some(s) => s,
        None => Seq::empty(),
    }
}

/// The text a time is shown with in reports.
pub fn display_time(micros: i64) -> (r: String)
    ensures
        r@ == time_text(micros),
{
    match utc_text(micros) {
        Some(s) => s,
        None => String::new(),
    }
}

/// What the templates see of one command that ran.
#[derive(Debug, Clone, PartialEq)]
pub struct ReportCommandResultContext {
    pub command: String,
    pub exit_code: i32,
    pub start_time: String,
    pub end_time: String,
    pub output: String,
}

/// `c` shows the task `t`: an unknown exit code shows as -1, a missing output as nothing.
pub open spec fn shows_task(t: ActionTaskReport, c: ReportCommandResultContext) -> bool {
    &&& c.command@ == t.command@
    &&& c.exit_code == (match t.exit_code {
        Some(code) => code,
        None => -1i32,
    })
    &&& c.start_time@ == time_text(t.start_time)
    &&& c.end_time@ == time_text(t.end_time)
    &&& c.output@ == opt_text(t.output)
}

impl ReportCommandResultContext {
    /// The context of one task report.
    pub fn from(report: &ActionTaskReport) -> (r: Self)
        ensures
            shows_task(*report, r),
    {
        ReportCommandResultContext {
            command: copy_string(&report.command),
            exit_code: match report.exit_code {
                Some(c) => c,
                None => -1,
            },
            start_time: display_time(report.start_time),
            end_time: display_time(report.end_time),
            output: match &report.output {
                Some(o) => copy_string(o),
                None => String::new(),
            },
        }
    }
}

/// Contexts of all tasks, in order.
pub fn task_contexts(tasks: &Vec<ActionTaskReport>) -> (r: Vec<ReportCommandResultContext>)
    ensures
        r@.len() == tasks@.len(),
        forall|i: int| 0 <= i < tasks@.len() ==> shows_task(tasks@[i], #[trigger] r@[i]),
{
    let mut out: Vec<ReportCommandResultContext> = Vec::new();
    let mut i: usize = 0;
    while i < tasks.len()
        invariant
            i <= tasks@.len(),
            out@.len() == i,
            forall|k: int| 0 <= k < i ==> shows_task(tasks@[k], #[trigger] out@[k]),
        decreases tasks@.len() - i,
    {
        out.push(ReportCommandResultContext::from(&tasks[i]));
        i = i + 1;
    }
    out
}

/// What the templates see of one extra command output.
#[derive(Debug, Clone, PartialEq)]
pub struct ReportAdditionalDataContext {
    pub name: String,
    pub command: String,
    pub output: String,
}

impl ReportAdditionalDataContext {
    /// The context of one extra output, field for field.
    pub fn from(report: &AdditionalDataReport) -> (r: Self)
        ensures
            r.name@ == report.name@,
            r.command@ == report.command@,
            r.output@ == report.output@,
    {
        ReportAdditionalDataContext {
            name: copy_string(&report.name),
            command: copy_string(&report.command),
            output: copy_string(&report.output),
        }
    }
}

/// `c` shows the extra output `a`.
pub open spec fn shows_extra(a: AdditionalDataReport, c: ReportAdditionalDataContext) -> bool {
    c.name@ == a.name@ && c.command@ == a.command@ && c.output@ == a.output@
}

/// Contexts of all extra outputs, in order.
pub fn extra_contexts(v: &Vec<AdditionalDataReport>) -> (r: Vec<ReportAdditionalDataContext>)
    ensures
        r@.len() == v@.len(),
        forall|i: int| 0 <= i < v@.len() ==> shows_extra(v@[i], #[trigger] r@[i]),
{
    let mut out: Vec<ReportAdditionalDataContext> = Vec::new();
    let mut i: usize = 0;
    while i < v.len()
        invariant
            i <= v@.len(),
            out@.len() == i,
            forall|k: int| 0 <= k < i ==> shows_extra(v@[k], #[trigger] out@[k]),
        decreases v@.len() - i,
    {
        out.push(ReportAdditionalDataContext::from(&v[i]));
        i = i + 1;
    }
    out
}

/// What the templates see of one action.
#[derive(Debug, Clone, PartialEq)]
pub struct ReportActionItemContext {
    pub name: String,
    pub check: Vec<ReportCommandResultContext>,
    pub fix: Vec<ReportCommandResultContext>,
    pub verify: Vec<ReportCommandResultContext>,
}

/// Each context of `cs` shows the task at its position in `ts`.
pub open spec fn shows_tasks(ts: Seq<ActionTaskReport>, cs: Seq<ReportCommandResultContext>) -> bool {
    cs.len() == ts.len() && forall|i: int| 0 <= i < ts.len() ==> shows_task(ts[i], #[trigger] cs[i])
}

impl ReportActionItemContext {
    /// The context of one action: its name and the commands of each phase.
    pub fn from(report: &ActionReport) -> (r: Self)
        ensures
            r.name@ == report.action_name@,
            shows_tasks(report.check@, r.check@),
            shows_tasks(report.fix@, r.fix@),
            shows_tasks(report.validate@, r.verify@),
    {
        ReportActionItemContext {
            name: copy_string(&report.action_name),
            check: task_contexts(&report.check),
            fix: task_contexts(&report.fix),
            verify: task_contexts(&report.validate),
        }
    }
}

/// What the templates see of one group.
#[derive(Debug, Clone, PartialEq)]
pub struct ReportGroupItemContext {
    pub name: String,
    pub actions: Vec<ReportActionItemContext>,
    pub additional_data: Vec<ReportAdditionalDataContext>,
}

/// `c` shows the action whose report view is `a`.
pub open spec fn shows_action(
    a: (Seq<char>, Seq<ActionTaskReport>, Seq<ActionTaskReport>, Seq<ActionTaskReport>),
    c: ReportActionItemContext,
) -> bool {
    c.name@ == a.0 && shows_tasks(a.1, c.check@) && shows_tasks(a.2, c.fix@) && shows_tasks(a.3, c.verify@)
}

/// `c` shows the group `g`: its name, each of its actions and each extra output, in order.
pub open spec fn shows_group(g: GroupReport, c: ReportGroupItemContext) -> bool {
    &&& c.name@ == g.name()
    &&& c.actions@.len() == g.actions().len()
    &&& forall|i: int| 0 <= i < c.actions@.len() ==> shows_action(g.actions()[i], #[trigger] c.actions@[i])
    &&& c.additional_data@.len() == g.additional().len()
    &&& forall|i: int| 0 <= i < c.additional_data@.len() ==> shows_extra(g.additional()[i], #[trigger] c.additional_data@[i])
}

impl ReportGroupItemContext {
    /// The context of one group: its name, its actions and its extra outputs, in order.
    pub fn from(report: &GroupReport) -> (r: Self)
        ensures
            r.name@ == report.name(),
            r.actions@.len() == report.actions().len(),
            forall|i: int| 0 <= i < r.actions@.len() ==> shows_action(report.actions()[i], #[trigger] r.actions@[i]),
            r.additional_data@.len() == report.additional().len(),
            forall|i: int| 0 <= i < r.additional_data@.len() ==> shows_extra(report.additional()[i], #[trigger] r.additional_data@[i]),
    {
        let acts = report.action_results();
        let mut actions: Vec<ReportActionItemContext> = Vec::new();
        let mut i: usize = 0;
        while i < acts.len()
            invariant
                i <= acts@.len(),
                acts@.map_values(|a: ActionReport| a@) == report.actions(),
                actions@.len() == i,
                forall|k: int| 0 <= k < i ==> shows_action(acts@[k]@, #[trigger] actions@[k]),
            decreases acts@.len() - i,
        {
            actions.push(ReportActionItemContext::from(&acts[i]));
            i = i + 1;
        }
        assert forall|k: int| 0 <= k < actions@.len() implies shows_action(report.actions()[k], #[trigger] actions@[k]) by {
            assert(report.actions()[k] == acts@[k]@);
        }
        let additional_data = extra_contexts(report.additional_data());
        ReportGroupItemContext { name: report.group_name().to_owned(), actions, additional_data }
    }
}

/// The task report of a captured command: its command line, its interleaved output, exit
/// code and times.
pub fn task_report_from_capture(capture: &OutputCapture) -> (r: ActionTaskReport)
    ensures
        r.command@ == capture.command@,
        r.output matches Some(o) && o@ == join_with(
            line_texts(sort_by_time(capture.stdout_lines() + capture.stderr_lines())),
            '\n',
        ),
        r.exit_code == capture.exit_code,
        r.start_time == capture.start_time,
        r.end_time == capture.end_time,
{
    ActionTaskReport {
        command: copy_string(&capture.command),
        output: Some(capture.generate_user_output()),
        exit_code: capture.exit_code,
        start_time: capture.start_time,
        end_time: capture.end_time,
    }
}

/// What the body template of a doctor report sees.
#[derive(Debug, Clone, PartialEq)]
pub struct GroupedBodyContext {
    pub command: String,
    pub entrypoint: String,
    pub groups: Vec<ReportGroupItemContext>,
    pub additional_data: Vec<ReportAdditionalDataContext>,
}

/// What the body template of a command report sees.
#[derive(Debug, Clone, PartialEq)]
pub struct UnstructuredBodyContext {
    pub command: String,
    pub entrypoint: String,
    pub result: ReportCommandResultContext,
    pub additional_data: Vec<ReportAdditionalDataContext>,
}

/// Collects what a doctor report shows: the groups that ran and extra command outputs.
#[derive(Debug, Clone)]
pub struct DefaultGroupedReportBuilder {
    pub entrypoint: String,
    pub groups: Vec<GroupReport>,
    pub additional_data: Vec<AdditionalDataReport>,
}

impl DefaultGroupedReportBuilder {
    /// An empty report for the command `entrypoint`.
    pub fn new(entrypoint: &str) -> (r: Self)
        ensures
            r.entrypoint@ == entrypoint@,
            r.groups@.len() == 0,
            r.additional_data@.len() == 0,
    {
        DefaultGroupedReportBuilder { entrypoint: entrypoint.to_owned(), groups: Vec::new(), additional_data: Vec::new() }
    }

    /// Adds the report of one group.
    pub fn append_group(&mut self, group_result: &GroupReport)
        ensures
            final(self).entrypoint == old(self).entrypoint,
            final(self).additional_data == old(self).additional_data,
            final(self).groups@.len() == old(self).groups@.len() + 1,
            forall|i: int| 0 <= i < old(self).groups@.len() ==> #[trigger] final(self).groups@[i] == old(self).groups@[i],
            final(self).groups@.last().name() == group_result.name(),
            final(self).groups@.last().actions() == group_result.actions(),
            final(self).groups@.last().additional() == group_result.additional(),
    {
        self.groups.push(group_result.clone());
    }

    /// Adds the output of one extra command.
    pub fn append_additional_data(&mut self, name: &str, command: &str, output: &str)
        ensures
            final(self).entrypoint == old(self).entrypoint,
            final(self).groups == old(self).groups,
            final(self).additional_data@.len() == old(self).additional_data@.len() + 1,
            final(self).additional_data@.drop_last() == old(self).additional_data@,
            final(self).additional_data@.last().name@ == name@,
            final(self).additional_data@.last().command@ == command@,
            final(self).additional_data@.last().output@ == output@,
    {
        self.additional_data.push(AdditionalDataReport { name: name.to_owned(), command: command.to_owned(), output: output.to_owned() });
        assert(self.additional_data@.drop_last() =~= old(self).additional_data@);
    }

    /// What the body template sees: the entry point as the command, each group and each
    /// extra output, in order.
    pub fn body_context(&self) -> (r: GroupedBodyContext)
        ensures
            r.command@ == self.entrypoint@,
            r.entrypoint@ == self.entrypoint@,
            r.groups@.len() == self.groups@.len(),
            forall|i: int| 0 <= i < r.groups@.len() ==> shows_group(self.groups@[i], #[trigger] r.groups@[i]),
            r.additional_data@.len() == self.additional_data@.len(),
            forall|i: int| 0 <= i < r.additional_data@.len() ==> shows_extra(self.additional_data@[i], #[trigger] r.additional_data@[i]),
    {
        let mut groups: Vec<ReportGroupItemContext> = Vec::new();
        let mut i: usize = 0;
        while i < self.groups.len()
            invariant
                i <= self.groups@.len(),
                groups@.len() == i,
                forall|k: int| 0 <= k < i ==> shows_group(self.groups@[k], #[trigger] groups@[k]),
            decreases self.groups@.len() - i,
        {
            groups.push(ReportGroupItemContext::from(&self.groups[i]));
            i = i + 1;
        }
        GroupedBodyContext {
            command: copy_string(&self.entrypoint),
            entrypoint: copy_string(&self.entrypoint),
            groups,
            additional_data: extra_contexts(&self.additional_data),
        }
    }
}

/// Collects what a command report shows: the captured command and extra command outputs.
pub struct DefaultUnstructuredReportBuilder {
    pub entrypoint: String,
    pub capture: OutputCapture,
    pub additional_data: Vec<AdditionalDataReport>,
}

impl DefaultUnstructuredReportBuilder {
    /// A report of `capture`, run as `entrypoint`.
    pub fn new(entrypoint: &str, capture: OutputCapture) -> (r: Self)
        ensures
            r.entrypoint@ == entrypoint@,
            r.capture == capture,
            r.additional_data@.len() == 0,
    {
        DefaultUnstructuredReportBuilder { entrypoint: entrypoint.to_owned(), capture, additional_data: Vec::new() }
    }

    /// Adds the output of one extra command.
    pub fn append_additional_data(&mut self, name: &str, command: &str, output: &str)
        ensures
            final(self).entrypoint == old(self).entrypoint,
            final(self).capture == old(self).capture,
            final(self).additional_data@.len() == old(self).additional_data@.len() + 1,
            final(self).additional_data@.drop_last() == old(self).additional_data@,
            final(self).additional_data@.last().name@ == name@,
            final(self).additional_data@.last().command@ == command@,
            final(self).additional_data@.last().output@ == output@,
    {
        self.additional_data.push(AdditionalDataReport { name: name.to_owned(), command: command.to_owned(), output: output.to_owned() });
        assert(self.additional_data@.drop_last() =~= old(self).additional_data@);
    }

    /// What the body template sees: the captured command, the entry point, the command's
    /// result and each extra output, in order.
    pub fn body_context(&self) -> (r: UnstructuredBodyContext)
        ensures
            r.command@ == self.capture.command@,
            r.entrypoint@ == self.entrypoint@,
            r.result.command@ == self.capture.command@,
            r.result.exit_code == (match self.capture.exit_code {
                Some(c) => c,
                None => -1i32,
            }),
            r.result.output@ == join_with(
                line_texts(sort_by_time(self.capture.stdout_lines() + self.capture.stderr_lines())),
                '\n',
            ),
            r.result.start_time@ == time_text(self.capture.start_time),
            r.result.end_time@ == time_text(self.capture.end_time),
            r.additional_data@.len() == self.additional_data@.len(),
            forall|i: int| 0 <= i < r.additional_data@.len() ==> shows_extra(self.additional_data@[i], #[trigger] r.additional_data@[i]),
    {
        let task = task_report_from_capture(&self.capture);
        UnstructuredBodyContext {
            command: copy_string(&self.capture.command),
            entrypoint: copy_string(&self.entrypoint),
            result: ReportCommandResultContext::from(&task),
            additional_data: extra_contexts(&self.additional_data),
        }
    }
}

} // verus!
