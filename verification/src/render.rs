use vstd::prelude::*;

use crate::json::{
    array_of, field_of, json_array, json_field, json_int, json_int_of, json_object, json_string,
    json_string_of, object_of, views,
};
use crate::capture::{join_with, line_texts, sort_by_time};
use crate::report::{ActionTaskReport, AdditionalDataReport, GroupReport};
use crate::report_config::{locations_alike, ReportUploadLocation};
use crate::report_context::{
    shows_action, shows_extra, shows_group, shows_task, shows_tasks, time_text, DefaultGroupedReportBuilder,
    DefaultUnstructuredReportBuilder, GroupedBodyContext, Report, ReportRenderer,
    ReportActionItemContext, ReportAdditionalDataContext, ReportCommandResultContext,
    ReportGroupItemContext, UnstructuredBodyContext,
};
use crate::pairs::pair_texts;
use crate::v1alpha::opt_text;
use crate::text::string_from_chars;

verus! {

/// What `minijinja` renders as the template called `name` when `templates` are registered in
/// order in one environment (block tags trimmed and left-stripped) and the variables are
/// those of the JSON object `context`; `None` when the context is not JSON, a template does
/// not compile, none is called `name`, or rendering fails.
pub uninterp spec fn rendered_in(templates: Seq<(Seq<char>, Seq<char>)>, name: Seq<char>, context: Seq<char>) -> Option<Seq<char>>;

/// Parses `context` with `serde_json`, registers each of `templates` in a `minijinja`
/// environment with `trim_blocks` and `lstrip_blocks` set (`Environment::add_template_owned`),
/// and renders the template called `name` (`Environment::get_template`, `Template::render`)
/// with the parsed value as its variables.
/// Contract: the outcome is the one `rendered_in` names for the templates, the name and the
/// context.
#[verifier::external_body]
fn render_in_environment(templates: &Vec<(String, String)>, name: &str, context: &str) -> (r: Option<String>)
    ensures
        match r {
            Some(s) => rendered_in(pair_texts(templates@), name@, context@) == Some(s@),
            None => rendered_in(pair_texts(templates@), name@, context@) is None,
        },
{
    let value: serde_json::Value = serde_json::from_str(context).ok()?;
    let syntax = minijinja::syntax::SyntaxConfig::builder().trim_blocks(true).lstrip_blocks(true).build().ok()?;
    let mut env = minijinja::Environment::new();
    env.set_syntax(syntax);
    for (n, t) in templates.iter() {
        env.add_template_owned(n.clone(), t.clone()).ok()?;
    }
    env.get_template(name).ok()?.render(minijinja::value::Serde(value)).ok()
}

/// Which template of a report failed to render.
#[derive(Debug, Clone, Copy, PartialEq, Eq, Structural)]
pub enum RenderError {
    Title,
    Message,
    Body,
}

/// The words a render failure is reported with.
pub open spec fn render_error_text(e: RenderError) -> Seq<char> {
    match e {
        RenderError::Title => "unable to render the report title"@,
        RenderError::Message => "unable to render the report message"@,
        RenderError::Body => "unable to render the report body"@,
    }
}

impl RenderError {
    /// What failed, in words.
    pub fn message(&self) -> (r: String)
        ensures
            r@ == render_error_text(*self),
    {
        match self {
            RenderError::Title => "unable to render the report title".to_owned(),
            RenderError::Message => "unable to render the report message".to_owned(),
            RenderError::Body => "unable to render the report body".to_owned(),
        }
    }
}

/// What templates see of one command that ran, from its parts.
pub open spec fn result_json(command: Seq<char>, exit_code: int, start_time: Seq<char>, end_time: Seq<char>, output: Seq<char>) -> Seq<char> {
    json_object(
        seq![
            json_field("command"@, json_string(command)),
            json_field("exitCode"@, json_int(exit_code)),
            json_field("startTime"@, json_string(start_time)),
            json_field("endTime"@, json_string(end_time)),
            json_field("output"@, json_string(output)),
        ],
    )
}

/// What templates see of one command that ran.
pub open spec fn command_result_json(c: ReportCommandResultContext) -> Seq<char> {
    result_json(c.command@, c.exit_code as int, c.start_time@, c.end_time@, c.output@)
}

/// What templates see of one extra command output.
pub open spec fn additional_data_json(a: ReportAdditionalDataContext) -> Seq<char> {
    json_object(
        seq![
            json_field("name"@, json_string(a.name@)),
            json_field("command"@, json_string(a.command@)),
            json_field("output"@, json_string(a.output@)),
        ],
    )
}

/// The commands of one phase, in order.
pub open spec fn command_results_json(cs: Seq<ReportCommandResultContext>) -> Seq<char> {
    json_array(cs.map_values(|c: ReportCommandResultContext| command_result_json(c)))
}

/// The extra command outputs, in order.
pub open spec fn additional_data_list_json(v: Seq<ReportAdditionalDataContext>) -> Seq<char> {
    json_array(v.map_values(|a: ReportAdditionalDataContext| additional_data_json(a)))
}

/// What templates see of one action.
pub open spec fn action_json(a: ReportActionItemContext) -> Seq<char> {
    json_object(
        seq![
            json_field("name"@, json_string(a.name@)),
            json_field("check"@, command_results_json(a.check@)),
            json_field("fix"@, command_results_json(a.fix@)),
            json_field("verify"@, command_results_json(a.verify@)),
        ],
    )
}

/// What templates see of one group.
pub open spec fn group_json(g: ReportGroupItemContext) -> Seq<char> {
    json_object(
        seq![
            json_field("name"@, json_string(g.name@)),
            json_field("actions"@, json_array(g.actions@.map_values(|a: ReportActionItemContext| action_json(a)))),
            json_field("additionalData"@, additional_data_list_json(g.additional_data@)),
        ],
    )
}

/// The variables of a title: the entry point.
pub open spec fn title_context(entrypoint: Seq<char>) -> Seq<char> {
    json_object(seq![json_field("entrypoint"@, json_string(entrypoint))])
}

/// The variables of the `message` template: the command and the entry point.
pub open spec fn message_context(command: Seq<char>, entrypoint: Seq<char>) -> Seq<char> {
    json_object(seq![json_field("command"@, json_string(command)), json_field("entrypoint"@, json_string(entrypoint))])
}

/// The variables of a doctor report's body, with the rendered `message`.
pub open spec fn grouped_context(ctx: GroupedBodyContext, message: Seq<char>) -> Seq<char> {
    json_object(
        seq![
            json_field("command"@, json_string(ctx.command@)),
            json_field("entrypoint"@, json_string(ctx.entrypoint@)),
            json_field("groups"@, json_array(ctx.groups@.map_values(|g: ReportGroupItemContext| group_json(g)))),
            json_field("additionalData"@, additional_data_list_json(ctx.additional_data@)),
            json_field("message"@, json_string(message)),
        ],
    )
}

/// The variables of a command report's body, with the rendered `message`.
pub open spec fn unstructured_context(ctx: UnstructuredBodyContext, message: Seq<char>) -> Seq<char> {
    json_object(
        seq![
            json_field("command"@, json_string(ctx.command@)),
            json_field("entrypoint"@, json_string(ctx.entrypoint@)),
            json_field("result"@, command_result_json(ctx.result)),
            json_field("additionalData"@, additional_data_list_json(ctx.additional_data@)),
            json_field("message"@, json_string(message)),
        ],
    )
}

/// Title and body of a report rendered in the environment `env`: the `title` template with
/// the entry point, the `message` template with the command and entry point, and the
/// `body_name` template with `body_context` applied to the rendered message; the first that
/// fails decides the error.
pub open spec fn report_parts(
    env: Seq<(Seq<char>, Seq<char>)>,
    command: Seq<char>,
    entrypoint: Seq<char>,
    body_name: Seq<char>,
    body_context: spec_fn(Seq<char>) -> Seq<char>,
) -> Result<(Seq<char>, Seq<char>), RenderError> {
    match rendered_in(env, "title"@, title_context(entrypoint)) {
        None => Err(RenderError::Title),
        Some(title) => match rendered_in(env, "message"@, message_context(command, entrypoint)) {
            None => Err(RenderError::Message),
            Some(message) => match rendered_in(env, body_name, body_context(message)) {
                None => Err(RenderError::Body),
                Some(body) => Ok((title, body)),
            },
        },
    }
}

/// A doctor report's title and body for `location`.
pub open spec fn grouped_parts(ctx: GroupedBodyContext, location: ReportUploadLocation) -> Result<(Seq<char>, Seq<char>), RenderError> {
    report_parts(
        location.templates.environment(),
        ctx.command@,
        ctx.entrypoint@,
        "doctor"@,
        |m: Seq<char>| grouped_context(ctx, m),
    )
}

/// A command report's title and body for `location`.
pub open spec fn unstructured_parts(ctx: UnstructuredBodyContext, location: ReportUploadLocation) -> Result<(Seq<char>, Seq<char>), RenderError> {
    report_parts(
        location.templates.environment(),
        ctx.command@,
        ctx.entrypoint@,
        "analyze"@,
        |m: Seq<char>| unstructured_context(ctx, m),
    )
}

/// The exit code a task shows: -1 when it is unknown.
pub open spec fn shown_exit(code: Option<i32>) -> int {
    match code {
        Some(c) => c as int,
        None => -1,
    }
}

/// What templates see of one task report.
pub open spec fn task_json(t: ActionTaskReport) -> Seq<char> {
    result_json(t.command@, shown_exit(t.exit_code), time_text(t.start_time), time_text(t.end_time), opt_text(t.output))
}

/// What templates see of the task reports of one phase, in order.
pub open spec fn tasks_json(ts: Seq<ActionTaskReport>) -> Seq<char> {
    json_array(ts.map_values(|t: ActionTaskReport| task_json(t)))
}

/// What templates see of one extra output report.
pub open spec fn extra_report_json(a: AdditionalDataReport) -> Seq<char> {
    json_object(
        seq![
            json_field("name"@, json_string(a.name@)),
            json_field("command"@, json_string(a.command@)),
            json_field("output"@, json_string(a.output@)),
        ],
    )
}

/// What templates see of the extra output reports, in order.
pub open spec fn extra_reports_json(v: Seq<AdditionalDataReport>) -> Seq<char> {
    json_array(v.map_values(|a: AdditionalDataReport| extra_report_json(a)))
}

/// What templates see of one action report.
pub open spec fn action_report_json(a: (Seq<char>, Seq<ActionTaskReport>, Seq<ActionTaskReport>, Seq<ActionTaskReport>)) -> Seq<char> {
    json_object(
        seq![
            json_field("name"@, json_string(a.0)),
            json_field("check"@, tasks_json(a.1)),
            json_field("fix"@, tasks_json(a.2)),
            json_field("verify"@, tasks_json(a.3)),
        ],
    )
}

/// What templates see of one group report.
pub open spec fn group_report_json(g: GroupReport) -> Seq<char> {
    json_object(
        seq![
            json_field("name"@, json_string(g.name())),
            json_field("actions"@, json_array(g.actions().map_values(
                |a: (Seq<char>, Seq<ActionTaskReport>, Seq<ActionTaskReport>, Seq<ActionTaskReport>)| action_report_json(a),
            ))),
            json_field("additionalData"@, extra_reports_json(g.additional())),
        ],
    )
}

/// The variables of the body of the doctor report `b` collects, with the rendered `message`.
pub open spec fn grouped_builder_context(b: DefaultGroupedReportBuilder, message: Seq<char>) -> Seq<char> {
    json_object(
        seq![
            json_field("command"@, json_string(b.entrypoint@)),
            json_field("entrypoint"@, json_string(b.entrypoint@)),
            json_field("groups"@, json_array(b.groups@.map_values(|g: GroupReport| group_report_json(g)))),
            json_field("additionalData"@, extra_reports_json(b.additional_data@)),
            json_field("message"@, json_string(message)),
        ],
    )
}

/// The variables of the body of the command report `b` collects, with the rendered
/// `message`: the captured output is its lines ordered by time, joined by line breaks.
pub open spec fn unstructured_builder_context(b: DefaultUnstructuredReportBuilder, message: Seq<char>) -> Seq<char> {
    json_object(
        seq![
            json_field("command"@, json_string(b.capture.command@)),
            json_field("entrypoint"@, json_string(b.entrypoint@)),
            json_field("result"@, result_json(
                b.capture.command@,
                shown_exit(b.capture.exit_code),
                time_text(b.capture.start_time),
                time_text(b.capture.end_time),
                join_with(line_texts(sort_by_time(b.capture.stdout_lines() + b.capture.stderr_lines())), '\n'),
            )),
            json_field("additionalData"@, extra_reports_json(b.additional_data@)),
            json_field("message"@, json_string(message)),
        ],
    )
}

/// Title and body of the doctor report `b` collects, for `location`.
pub open spec fn grouped_builder_parts(b: DefaultGroupedReportBuilder, location: ReportUploadLocation) -> Result<(Seq<char>, Seq<char>), RenderError> {
    report_parts(
        location.templates.environment(),
        b.entrypoint@,
        b.entrypoint@,
        "doctor"@,
        |m: Seq<char>| grouped_builder_context(b, m),
    )
}

/// Title and body of the command report `b` collects, for `location`.
pub open spec fn unstructured_builder_parts(b: DefaultUnstructuredReportBuilder, location: ReportUploadLocation) -> Result<(Seq<char>, Seq<char>), RenderError> {
    report_parts(
        location.templates.environment(),
        b.capture.command@,
        b.entrypoint@,
        "analyze"@,
        |m: Seq<char>| unstructured_builder_context(b, m),
    )
}

/// `r` is the report that `parts` describes, addressed to a copy of `location`, or the
/// words of the failure.
pub open spec fn renders_copy_as(
    r: Result<Report, String>,
    parts: Result<(Seq<char>, Seq<char>), RenderError>,
    location: ReportUploadLocation,
) -> bool {
    match parts {
        Ok((title, body)) => r matches Ok(rep) && rep.title_text() == title && rep.body_text() == body
            && locations_alike(rep.location(), location),
        Err(e) => r matches Err(m) && m@ == render_error_text(e),
    }
}

proof fn lemma_tasks_json(ts: Seq<ActionTaskReport>, cs: Seq<ReportCommandResultContext>)
    requires
        shows_tasks(ts, cs),
    ensures
        command_results_json(cs) == tasks_json(ts),
{
    assert(cs.map_values(|c: ReportCommandResultContext| command_result_json(c)) =~= ts.map_values(|t: ActionTaskReport| task_json(t))) by {
        assert forall|i: int| 0 <= i < ts.len() implies command_result_json(cs[i]) == task_json(ts[i]) by {
            assert(shows_task(ts[i], cs[i]));
        }
    }
}

proof fn lemma_extras_json(v: Seq<AdditionalDataReport>, cs: Seq<ReportAdditionalDataContext>)
    requires
        cs.len() == v.len(),
        forall|i: int| 0 <= i < v.len() ==> shows_extra(v[i], #[trigger] cs[i]),
    ensures
        additional_data_list_json(cs) == extra_reports_json(v),
{
    assert(cs.map_values(|a: ReportAdditionalDataContext| additional_data_json(a)) =~= v.map_values(|a: AdditionalDataReport| extra_report_json(a))) by {
        assert forall|i: int| 0 <= i < v.len() implies additional_data_json(cs[i]) == extra_report_json(v[i]) by {
            assert(shows_extra(v[i], cs[i]));
        }
    }
}

proof fn lemma_group_json(g: GroupReport, c: ReportGroupItemContext)
    requires
        shows_group(g, c),
    ensures
        group_json(c) == group_report_json(g),
{
    let acts = g.actions();
    assert(c.actions@.map_values(|a: ReportActionItemContext| action_json(a)) =~= acts.map_values(
        |a: (Seq<char>, Seq<ActionTaskReport>, Seq<ActionTaskReport>, Seq<ActionTaskReport>)| action_report_json(a),
    )) by {
        assert forall|i: int| 0 <= i < acts.len() implies action_json(c.actions@[i]) == action_report_json(acts[i]) by {
            assert(shows_action(acts[i], c.actions@[i]));
            lemma_tasks_json(acts[i].1, c.actions@[i].check@);
            lemma_tasks_json(acts[i].2, c.actions@[i].fix@);
            lemma_tasks_json(acts[i].3, c.actions@[i].verify@);
        }
    }
    lemma_extras_json(g.additional(), c.additional_data@);
}

/// `r` is the report that `parts` describes, addressed to `location`.
pub open spec fn renders_as(
    r: Result<Report, RenderError>,
    parts: Result<(Seq<char>, Seq<char>), RenderError>,
    location: ReportUploadLocation,
) -> bool {
    match parts {
        Ok((title, body)) => r matches Ok(rep) && rep.title_text() == title && rep.body_text() == body
            && rep.location() == location,
        Err(e) => r == Err::<Report, RenderError>(e),
    }
}

fn command_result_json_of(c: &ReportCommandResultContext) -> (r: Vec<char>)
    ensures
        r@ == command_result_json(*c),
{
    let mut fields: Vec<Vec<char>> = Vec::new();
    fields.push(field_of("command", &json_string_of(c.command.as_str())));
    fields.push(field_of("exitCode", &json_int_of(c.exit_code)));
    fields.push(field_of("startTime", &json_string_of(c.start_time.as_str())));
    fields.push(field_of("endTime", &json_string_of(c.end_time.as_str())));
    fields.push(field_of("output", &json_string_of(c.output.as_str())));
    assert(views(fields@) =~= seq![
        json_field("command"@, json_string(c.command@)),
        json_field("exitCode"@, json_int(c.exit_code as int)),
        json_field("startTime"@, json_string(c.start_time@)),
        json_field("endTime"@, json_string(c.end_time@)),
        json_field("output"@, json_string(c.output@)),
    ]);
    object_of(&fields)
}

fn additional_data_json_of(a: &ReportAdditionalDataContext) -> (r: Vec<char>)
    ensures
        r@ == additional_data_json(*a),
{
    let mut fields: Vec<Vec<char>> = Vec::new();
    fields.push(field_of("name", &json_string_of(a.name.as_str())));
    fields.push(field_of("command", &json_string_of(a.command.as_str())));
    fields.push(field_of("output", &json_string_of(a.output.as_str())));
    assert(views(fields@) =~= seq![
        json_field("name"@, json_string(a.name@)),
        json_field("command"@, json_string(a.command@)),
        json_field("output"@, json_string(a.output@)),
    ]);
    object_of(&fields)
}

fn command_results_json_of(cs: &Vec<ReportCommandResultContext>) -> (r: Vec<char>)
    ensures
        r@ == command_results_json(cs@),
{
    let mut items: Vec<Vec<char>> = Vec::new();
    let mut i: usize = 0;
    while i < cs.len()
        invariant
            i <= cs@.len(),
            items@.len() == i,
            forall|k: int| 0 <= k < i ==> (#[trigger] items@[k])@ == command_result_json(cs@[k]),
        decreases cs@.len() - i,
    {
        items.push(command_result_json_of(&cs[i]));
        i = i + 1;
    }
    assert(views(items@) =~= cs@.map_values(|c: ReportCommandResultContext| command_result_json(c)));
    array_of(&items)
}

fn additional_data_list_json_of(v: &Vec<ReportAdditionalDataContext>) -> (r: Vec<char>)
    ensures
        r@ == additional_data_list_json(v@),
{
    let mut items: Vec<Vec<char>> = Vec::new();
    let mut i: usize = 0;
    while i < v.len()
        invariant
            i <= v@.len(),
            items@.len() == i,
            forall|k: int| 0 <= k < i ==> (#[trigger] items@[k])@ == additional_data_json(v@[k]),
        decreases v@.len() - i,
    {
        items.push(additional_data_json_of(&v[i]));
        i = i + 1;
    }
    assert(views(items@) =~= v@.map_values(|a: ReportAdditionalDataContext| additional_data_json(a)));
    array_of(&items)
}

fn action_json_of(a: &ReportActionItemContext) -> (r: Vec<char>)
    ensures
        r@ == action_json(*a),
{
    let mut fields: Vec<Vec<char>> = Vec::new();
    fields.push(field_of("name", &json_string_of(a.name.as_str())));
    fields.push(field_of("check", &command_results_json_of(&a.check)));
    fields.push(field_of("fix", &command_results_json_of(&a.fix)));
    fields.push(field_of("verify", &command_results_json_of(&a.verify)));
    assert(views(fields@) =~= seq![
        json_field("name"@, json_string(a.name@)),
        json_field("check"@, command_results_json(a.check@)),
        json_field("fix"@, command_results_json(a.fix@)),
        json_field("verify"@, command_results_json(a.verify@)),
    ]);
    object_of(&fields)
}

fn group_json_of(g: &ReportGroupItemContext) -> (r: Vec<char>)
    ensures
        r@ == group_json(*g),
{
    let mut items: Vec<Vec<char>> = Vec::new();
    let mut i: usize = 0;
    while i < g.actions.len()
        invariant
            i <= g.actions@.len(),
            items@.len() == i,
            forall|k: int| 0 <= k < i ==> (#[trigger] items@[k])@ == action_json(g.actions@[k]),
        decreases g.actions@.len() - i,
    {
        items.push(action_json_of(&g.actions[i]));
        i = i + 1;
    }
    assert(views(items@) =~= g.actions@.map_values(|a: ReportActionItemContext| action_json(a)));
    let mut fields: Vec<Vec<char>> = Vec::new();
    fields.push(field_of("name", &json_string_of(g.name.as_str())));
    fields.push(field_of("actions", &array_of(&items)));
    fields.push(field_of("additionalData", &additional_data_list_json_of(&g.additional_data)));
    assert(views(fields@) =~= seq![
        json_field("name"@, json_string(g.name@)),
        json_field("actions"@, json_array(g.actions@.map_values(|a: ReportActionItemContext| action_json(a)))),
        json_field("additionalData"@, additional_data_list_json(g.additional_data@)),
    ]);
    object_of(&fields)
}

fn title_context_of(entrypoint: &str) -> (r: String)
    ensures
        r@ == title_context(entrypoint@),
{
    let mut fields: Vec<Vec<char>> = Vec::new();
    fields.push(field_of("entrypoint", &json_string_of(entrypoint)));
    assert(views(fields@) =~= seq![json_field("entrypoint"@, json_string(entrypoint@))]);
    string_from_chars(&object_of(&fields))
}

fn message_context_of(command: &str, entrypoint: &str) -> (r: String)
    ensures
        r@ == message_context(command@, entrypoint@),
{
    let mut fields: Vec<Vec<char>> = Vec::new();
    fields.push(field_of("command", &json_string_of(command)));
    fields.push(field_of("entrypoint", &json_string_of(entrypoint)));
    assert(views(fields@) =~= seq![json_field("command"@, json_string(command@)), json_field("entrypoint"@, json_string(entrypoint@))]);
    string_from_chars(&object_of(&fields))
}

fn grouped_context_of(ctx: &GroupedBodyContext, message: &str) -> (r: String)
    ensures
        r@ == grouped_context(*ctx, message@),
{
    let mut items: Vec<Vec<char>> = Vec::new();
    let mut i: usize = 0;
    while i < ctx.groups.len()
        invariant
            i <= ctx.groups@.len(),
            items@.len() == i,
            forall|k: int| 0 <= k < i ==> (#[trigger] items@[k])@ == group_json(ctx.groups@[k]),
        decreases ctx.groups@.len() - i,
    {
        items.push(group_json_of(&ctx.groups[i]));
        i = i + 1;
    }
    assert(views(items@) =~= ctx.groups@.map_values(|g: ReportGroupItemContext| group_json(g)));
    let mut fields: Vec<Vec<char>> = Vec::new();
    fields.push(field_of("command", &json_string_of(ctx.command.as_str())));
    fields.push(field_of("entrypoint", &json_string_of(ctx.entrypoint.as_str())));
    fields.push(field_of("groups", &array_of(&items)));
    fields.push(field_of("additionalData", &additional_data_list_json_of(&ctx.additional_data)));
    fields.push(field_of("message", &json_string_of(message)));
    assert(views(fields@) =~= seq![
        json_field("command"@, json_string(ctx.command@)),
        json_field("entrypoint"@, json_string(ctx.entrypoint@)),
        json_field("groups"@, json_array(ctx.groups@.map_values(|g: ReportGroupItemContext| group_json(g)))),
        json_field("additionalData"@, additional_data_list_json(ctx.additional_data@)),
        json_field("message"@, json_string(message@)),
    ]);
    string_from_chars(&object_of(&fields))
}

fn unstructured_context_of(ctx: &UnstructuredBodyContext, message: &str) -> (r: String)
    ensures
        r@ == unstructured_context(*ctx, message@),
{
    let mut fields: Vec<Vec<char>> = Vec::new();
    fields.push(field_of("command", &json_string_of(ctx.command.as_str())));
    fields.push(field_of("entrypoint", &json_string_of(ctx.entrypoint.as_str())));
    fields.push(field_of("result", &command_result_json_of(&ctx.result)));
    fields.push(field_of("additionalData", &additional_data_list_json_of(&ctx.additional_data)));
    fields.push(field_of("message", &json_string_of(message)));
    assert(views(fields@) =~= seq![
        json_field("command"@, json_string(ctx.command@)),
        json_field("entrypoint"@, json_string(ctx.entrypoint@)),
        json_field("result"@, command_result_json(ctx.result)),
        json_field("additionalData"@, additional_data_list_json(ctx.additional_data@)),
        json_field("message"@, json_string(message@)),
    ]);
    string_from_chars(&object_of(&fields))
}

/// Renders the title and the `message` template of a report in the environment `env`.
fn render_title_and_message(env: &Vec<(String, String)>, command: &str, entrypoint: &str) -> (r: Result<(String, String), RenderError>)
    ensures
        match rendered_in(pair_texts(env@), "title"@, title_context(entrypoint@)) {
            None => r == Err::<(String, String), RenderError>(RenderError::Title),
            Some(title) => match rendered_in(pair_texts(env@), "message"@, message_context(command@, entrypoint@)) {
                None => r == Err::<(String, String), RenderError>(RenderError::Message),
                Some(message) => r matches Ok((t, s)) && t@ == title && s@ == message,
            },
        },
{
    let title = match render_in_environment(env, "title", title_context_of(entrypoint).as_str()) {
        Some(t) => t,
        None => return Err(RenderError::Title),
    };
    match render_in_environment(env, "message", message_context_of(command, entrypoint).as_str()) {
        Some(message) => Ok((title, message)),
        None => Err(RenderError::Message),
    }
}

/// Renders a doctor report for `location`: the title with the entry point, the `message`
/// template with the command and entry point, then the doctor template with the groups,
/// the extra outputs and the rendered message. The report is addressed to `location`.
pub fn render_grouped(ctx: &GroupedBodyContext, location: ReportUploadLocation) -> (r: Result<Report, RenderError>)
    ensures
        renders_as(r, grouped_parts(*ctx, location), location),
{
    let env = location.templates.environment_templates();
    let (title, message) = match render_title_and_message(&env, ctx.command.as_str(), ctx.entrypoint.as_str()) {
        Ok(p) => p,
        Err(e) => return Err(e),
    };
    let body = match render_in_environment(&env, "doctor", grouped_context_of(ctx, message.as_str()).as_str()) {
        Some(b) => b,
        None => return Err(RenderError::Body),
    };
    Ok(Report::new(title, body, location))
}

/// Renders a command report for `location`: the title with the entry point, the `message`
/// template with the command and entry point, then the analyze template with the command's
/// result, the extra outputs and the rendered message. The report is addressed to `location`.
pub fn render_unstructured(ctx: &UnstructuredBodyContext, location: ReportUploadLocation) -> (r: Result<Report, RenderError>)
    ensures
        renders_as(r, unstructured_parts(*ctx, location), location),
{
    let env = location.templates.environment_templates();
    let (title, message) = match render_title_and_message(&env, ctx.command.as_str(), ctx.entrypoint.as_str()) {
        Ok(p) => p,
        Err(e) => return Err(e),
    };
    let body = match render_in_environment(&env, "analyze", unstructured_context_of(ctx, message.as_str()).as_str()) {
        Some(b) => b,
        None => return Err(RenderError::Body),
    };
    Ok(Report::new(title, body, location))
}

impl ReportRenderer for DefaultGroupedReportBuilder {
    /// The doctor report of what was collected, rendered for a copy of `destination`.
    fn render(&self, destination: &ReportUploadLocation) -> (r: Result<Report, String>)
        ensures
            renders_copy_as(r, grouped_builder_parts(*self, *destination), *destination),
    {
        let ctx = self.body_context();
        let location = destination.copy();
        proof {
            assert forall|m: Seq<char>| grouped_context(ctx, m) == grouped_builder_context(*self, m) by {
                assert(ctx.groups@.map_values(|g: ReportGroupItemContext| group_json(g)) =~= self.groups@.map_values(
                    |g: GroupReport| group_report_json(g),
                )) by {
                    assert forall|i: int| 0 <= i < self.groups@.len() implies group_json(ctx.groups@[i]) == group_report_json(
                        self.groups@[i],
                    ) by {
                        lemma_group_json(self.groups@[i], ctx.groups@[i]);
                    }
                }
                lemma_extras_json(self.additional_data@, ctx.additional_data@);
            }
            assert((|m: Seq<char>| grouped_context(ctx, m)) =~= (|m: Seq<char>| grouped_builder_context(*self, m)));
            assert(grouped_parts(ctx, location) == grouped_builder_parts(*self, *destination));
        }
        match render_grouped(&ctx, location) {
            Ok(report) => Ok(report),
            Err(e) => Err(e.message()),
        }
    }
}

impl ReportRenderer for DefaultUnstructuredReportBuilder {
    /// The command report of what was collected, rendered for a copy of `destination`.
    fn render(&self, destination: &ReportUploadLocation) -> (r: Result<Report, String>)
        ensures
            renders_copy_as(r, unstructured_builder_parts(*self, *destination), *destination),
    {
        let ctx = self.body_context();
        let location = destination.copy();
        proof {
            assert forall|m: Seq<char>| unstructured_context(ctx, m) == unstructured_builder_context(*self, m) by {
                lemma_extras_json(self.additional_data@, ctx.additional_data@);
            }
            assert((|m: Seq<char>| unstructured_context(ctx, m)) =~= (|m: Seq<char>| unstructured_builder_context(*self, m)));
            assert(unstructured_parts(ctx, location) == unstructured_builder_parts(*self, *destination));
        }
        match render_unstructured(&ctx, location) {
            Ok(report) => Ok(report),
            Err(e) => Err(e.message()),
        }
    }
}

} // verus!
