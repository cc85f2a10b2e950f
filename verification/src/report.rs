use vstd::prelude::*;

use crate::text::{chars_of, string_from_chars};

verus! {

/// A copy of `s` with the same characters.
pub fn copy_string(s: &String) -> (r: String)
    ensures
        r@ == s@,
{
    s.clone()
}

/// Output of one extra command run for a report.
#[derive(Debug)]
pub struct AdditionalDataReport {
    pub name: String,
    pub command: String,
    pub output: String,
}

impl Clone for AdditionalDataReport {
    fn clone(&self) -> (r: Self)
        ensures
            r == *self,
    {
        AdditionalDataReport { name: self.name.clone(), command: self.command.clone(), output: self.output.clone() }
    }
}

/// One command that ran as part of an action; times are microseconds since the epoch.
#[derive(Debug)]
pub struct ActionTaskReport {
    pub command: String,
    pub output: Option<String>,
    pub exit_code: Option<i32>,
    pub start_time: i64,
    pub end_time: i64,
}

impl Clone for ActionTaskReport {
    fn clone(&self) -> (r: Self)
        ensures
            r == *self,
    {
        ActionTaskReport {
            command: self.command.clone(),
            output: match &self.output {
                Some(o) => Some(o.clone()),
                None => None,
            },
            exit_code: self.exit_code,
            start_time: self.start_time,
            end_time: self.end_time,
        }
    }
}

/// Copies a list of task reports.
pub fn copy_tasks(v: &Vec<ActionTaskReport>) -> (r: Vec<ActionTaskReport>)
    ensures
        r@ == v@,
{
    let mut out: Vec<ActionTaskReport> = Vec::new();
    let mut i: usize = 0;
    while i < v.len()
        invariant
            i <= v.len(),
            out@ == v@.take(i as int),
        decreases v.len() - i,
    {
        out.push(v[i].clone());
        assert(v@.take(i as int + 1) =~= v@.take(i as int).push(v@[i as int]));
        i = i + 1;
    }
    assert(v@.take(v.len() as int) =~= v@);
    out
}

/// The commands of one action, split by phase.
#[derive(Debug)]
pub struct ActionReport {
    pub action_name: String,
    pub check: Vec<ActionTaskReport>,
    pub fix: Vec<ActionTaskReport>,
    pub validate: Vec<ActionTaskReport>,
}

impl View for ActionReport {
    type V = (Seq<char>, Seq<ActionTaskReport>, Seq<ActionTaskReport>, Seq<ActionTaskReport>);

    open spec fn view(&self) -> Self::V {
        (self.action_name@, self.check@, self.fix@, self.validate@)
    }
}

impl Clone for ActionReport {
    fn clone(&self) -> (r: Self)
        ensures
            r@ == self@,
    {
        self.duplicate()
    }
}

impl ActionReport {
    /// A copy with the same name and task reports.
    pub fn duplicate(&self) -> (r: Self)
        ensures
            r@ == self@,
    {
        ActionReport {
            action_name: self.action_name.clone(),
            check: copy_tasks(&self.check),
            fix: copy_tasks(&self.fix),
            validate: copy_tasks(&self.validate),
        }
    }
}

/// The task reports shown for a failed action: the check's if there are any, else the
/// fix's, else the validation's.
pub fn action_task_reports_for_display(action_report: &ActionReport) -> (r: Vec<ActionTaskReport>)
    ensures
        r@ == if action_report.check@.len() > 0 {
            action_report.check@
        } else if action_report.fix@.len() > 0 {
            action_report.fix@
        } else {
            action_report.validate@
        },
{
    if action_report.check.len() > 0 {
        copy_tasks(&action_report.check)
    } else if action_report.fix.len() > 0 {
        copy_tasks(&action_report.fix)
    } else {
        copy_tasks(&action_report.validate)
    }
}

/// Everything one doctor group contributed to a report.
#[derive(Debug)]
pub struct GroupReport {
    group_name: String,
    action_result: Vec<ActionReport>,
    additional_data: Vec<AdditionalDataReport>,
}

impl Clone for GroupReport {
    fn clone(&self) -> (r: Self)
        ensures
            r.name() == self.name(),
            r.actions() == self.actions(),
            r.additional() == self.additional(),
    {
        let mut actions: Vec<ActionReport> = Vec::new();
        let mut i: usize = 0;
        while i < self.action_result.len()
            invariant
                i <= self.action_result.len(),
                actions.len() == i,
                forall|k: int| 0 <= k < i ==> #[trigger] actions@[k]@ == self.action_result@[k]@,
            decreases self.action_result.len() - i,
        {
            actions.push(self.action_result[i].duplicate());
            i = i + 1;
        }
        assert(actions@.map_values(|a: ActionReport| a@) =~= self.action_result@.map_values(|a: ActionReport| a@));
        let mut extra: Vec<AdditionalDataReport> = Vec::new();
        let mut j: usize = 0;
        while j < self.additional_data.len()
            invariant
                j <= self.additional_data.len(),
                extra@ == self.additional_data@.take(j as int),
            decreases self.additional_data.len() - j,
        {
            extra.push(self.additional_data[j].clone());
            assert(self.additional_data@.take(j as int + 1) =~= self.additional_data@.take(j as int).push(self.additional_data@[j as int]));
            j = j + 1;
        }
        assert(self.additional_data@.take(self.additional_data.len() as int) =~= self.additional_data@);
        GroupReport { group_name: self.group_name.clone(), action_result: actions, additional_data: extra }
    }
}

impl GroupReport {
    /// The group's name.
    pub closed spec fn name(&self) -> Seq<char> {
        self.group_name@
    }

    /// The reports of the actions that ran, in order.
    pub closed spec fn actions(&self) -> Seq<(Seq<char>, Seq<ActionTaskReport>, Seq<ActionTaskReport>, Seq<ActionTaskReport>)> {
        self.action_result@.map_values(|a: ActionReport| a@)
    }

    /// The extra command outputs, in order.
    pub closed spec fn additional(&self) -> Seq<AdditionalDataReport> {
        self.additional_data@
    }

    /// An empty report for the group `group_name`.
    pub fn new(group_name: &str) -> (r: Self)
        ensures
            r.name() == group_name@,
            r.actions().len() == 0,
            r.additional().len() == 0,
    {
        GroupReport {
            group_name: string_from_chars(&chars_of(group_name)),
            action_result: Vec::new(),
            additional_data: Vec::new(),
        }
    }

    /// Appends the report of one action.
    pub fn add_action(&mut self, action_report: &ActionReport)
        ensures
            final(self).name() == old(self).name(),
            final(self).actions() == old(self).actions().push(action_report@),
            final(self).additional() == old(self).additional(),
    {
        self.action_result.push(action_report.duplicate());
        assert(self.action_result@.map_values(|a: ActionReport| a@) =~= old(self).action_result@.map_values(|a: ActionReport| a@).push(action_report@));
    }

    /// Appends the output of one extra command.
    pub fn add_additional_details(&mut self, name: &str, command: &str, value: &str)
        ensures
            final(self).name() == old(self).name(),
            final(self).actions() == old(self).actions(),
            final(self).additional().len() == old(self).additional().len() + 1,
            final(self).additional().take(old(self).additional().len() as int) == old(self).additional(),
            final(self).additional().last().name@ == name@,
            final(self).additional().last().command@ == command@,
            final(self).additional().last().output@ == value@,
    {
        self.additional_data.push(AdditionalDataReport {
            name: string_from_chars(&chars_of(name)),
            command: string_from_chars(&chars_of(command)),
            output: string_from_chars(&chars_of(value)),
        });
        assert(self.additional_data@.take(old(self).additional_data@.len() as int) =~= old(self).additional_data@);
    }

    /// The group's name.
    pub fn group_name(&self) -> (r: &str)
        ensures
            r@ == self.name(),
    {
        self.group_name.as_str()
    }

    /// The action reports.
    pub fn action_results(&self) -> (r: &Vec<ActionReport>)
        ensures
            r@.map_values(|a: ActionReport| a@) == self.actions(),
    {
        &self.action_result
    }

    /// The extra command outputs.
    pub fn additional_data(&self) -> (r: &Vec<AdditionalDataReport>)
        ensures
            r@ == self.additional(),
    {
        &self.additional_data
    }
}

} // verus!
