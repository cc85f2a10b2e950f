use vstd::prelude::*;

use crate::check::{spec_is_failure, ActionRunStatus};
use crate::names::{find_name, insert_name, texts};
use crate::report::{ActionReport, GroupReport};

verus! {

/// How one group ended.
#[derive(Debug, Clone, Copy, PartialEq, Eq, Structural)]
pub enum GroupExecutionStatus {
    Succeeded,
    Failed,
    /// An action's fix was declined by the user.
    Skipped,
    /// The group's own skip condition held; nothing ran.
    GroupSkipped,
}

/// The group status an action's result gives.
pub open spec fn group_status_for(s: ActionRunStatus) -> GroupExecutionStatus {
    match s {
        ActionRunStatus::CheckSucceeded | ActionRunStatus::NoCheckFixSucceeded
        | ActionRunStatus::CheckFailedFixSucceedVerifySucceed => GroupExecutionStatus::Succeeded,
        ActionRunStatus::CheckFailedFixUserDenied => GroupExecutionStatus::Skipped,
        _ => GroupExecutionStatus::Failed,
    }
}

/// A group's status follows its action: it succeeds exactly when the check succeeded, or
/// the fix succeeded (with no checks, or verified by them); an action that counts as failed
/// fails the group, and a fix the user declined skips it.
pub proof fn lemma_group_status_follows_action(s: ActionRunStatus)
    ensures
        group_status_for(s) == GroupExecutionStatus::Succeeded <==> (s == ActionRunStatus::CheckSucceeded || s
            == ActionRunStatus::NoCheckFixSucceeded || s == ActionRunStatus::CheckFailedFixSucceedVerifySucceed),
        spec_is_failure(s) ==> group_status_for(s) == GroupExecutionStatus::Failed,
        s == ActionRunStatus::CheckFailedFixUserDenied ==> group_status_for(s) == GroupExecutionStatus::Skipped,
        group_status_for(s) != GroupExecutionStatus::GroupSkipped,
{
}

/// A successful action never stops the rest of the group; a fix that asked to stop always
/// does; any other result stops it exactly when the action is required.
pub proof fn lemma_stops_rest(s: ActionRunStatus, required: bool)
    ensures
        (s == ActionRunStatus::CheckSucceeded || s == ActionRunStatus::NoCheckFixSucceeded || s
            == ActionRunStatus::CheckFailedFixSucceedVerifySucceed) ==> !stops_rest(s, required),
        s == ActionRunStatus::CheckFailedFixFailedStop ==> stops_rest(s, required),
        spec_is_failure(s) && required ==> stops_rest(s, required),
        s == ActionRunStatus::CheckFailedFixUserDenied ==> stops_rest(s, required) == required,
        spec_is_failure(s) && s != ActionRunStatus::CheckFailedFixFailedStop ==> stops_rest(s, required) == required,
{
}

/// Whether an action's result stops the rest of the group (and of the run): success never
/// does, a fix that asked to stop always does, anything else does when the action is required.
pub open spec fn stops_rest(s: ActionRunStatus, required: bool) -> bool {
    match s {
        ActionRunStatus::CheckSucceeded | ActionRunStatus::NoCheckFixSucceeded
        | ActionRunStatus::CheckFailedFixSucceedVerifySucceed => false,
        ActionRunStatus::CheckFailedFixFailedStop => true,
        _ => required,
    }
}

fn group_status_of(s: ActionRunStatus) -> (r: GroupExecutionStatus)
    ensures
        r == group_status_for(s),
{
    match s {
        ActionRunStatus::CheckSucceeded | ActionRunStatus::NoCheckFixSucceeded
        | ActionRunStatus::CheckFailedFixSucceedVerifySucceed => GroupExecutionStatus::Succeeded,
        ActionRunStatus::CheckFailedFixUserDenied => GroupExecutionStatus::Skipped,
        _ => GroupExecutionStatus::Failed,
    }
}

fn stops_rest_of(s: ActionRunStatus, required: bool) -> (r: bool)
    ensures
        r == stops_rest(s, required),
{
    match s {
        ActionRunStatus::CheckSucceeded | ActionRunStatus::NoCheckFixSucceeded
        | ActionRunStatus::CheckFailedFixSucceedVerifySucceed => false,
        ActionRunStatus::CheckFailedFixFailedStop => true,
        _ => required,
    }
}

/// The state of one group while its actions run.
pub struct GroupRun {
    pub group_name: String,
    pub status: GroupExecutionStatus,
    pub skip_remaining: bool,
    pub group_report: GroupReport,
    pub ran: Ghost<Seq<(ActionRunStatus, bool)>>,
}

impl GroupRun {
    /// The results (status, required) of the actions that ran, in order.
    pub open spec fn ran(&self) -> Seq<(ActionRunStatus, bool)> {
        self.ran@
    }

    /// A group that has not run any action.
    pub fn new(group_name: &str) -> (r: GroupRun)
        ensures
            r.group_name@ == group_name@,
            r.status == GroupExecutionStatus::Succeeded,
            !r.skip_remaining,
            r.ran().len() == 0,
            r.group_report.name() == group_name@,
            r.group_report.actions().len() == 0,
            r.group_report.additional().len() == 0,
    {
        GroupRun {
            group_name: group_name.to_string(),
            status: GroupExecutionStatus::Succeeded,
            skip_remaining: false,
            group_report: GroupReport::new(group_name),
            ran: Ghost(Seq::empty()),
        }
    }

    /// The group's skip condition held: nothing runs and the rest of the run goes on.
    pub fn skip_whole_group(&mut self)
        requires
            old(self).ran().len() == 0,
        ensures
            final(self).status == GroupExecutionStatus::GroupSkipped,
            !final(self).skip_remaining,
            final(self).ran() == old(self).ran(),
            final(self).group_name == old(self).group_name,
            final(self).group_report.name() == old(self).group_report.name(),
            final(self).group_report.actions() == old(self).group_report.actions(),
            final(self).group_report.additional() == old(self).group_report.additional(),
    {
        self.status = GroupExecutionStatus::GroupSkipped;
        self.skip_remaining = false;
    }

    /// Whether the next action may run.
    pub fn should_run_action(&self) -> (r: bool)
        ensures
            r == !self.skip_remaining,
    {
        !self.skip_remaining
    }

    /// Records the result of an action that ran: the group's status is the one its last
    /// action gives, and a failing required action (or a stopping fix) skips the rest.
    pub fn record_action(&mut self, report: &ActionReport, status: ActionRunStatus, required: bool)
        requires
            !old(self).skip_remaining,
        ensures
            final(self).ran() == old(self).ran().push((status, required)),
            final(self).status == group_status_for(status),
            final(self).skip_remaining == stops_rest(status, required),
            final(self).group_name == old(self).group_name,
            final(self).group_report.name() == old(self).group_report.name(),
            final(self).group_report.actions() == old(self).group_report.actions().push(report@),
            final(self).group_report.additional() == old(self).group_report.additional(),
    {
        self.group_report.add_action(report);
        self.status = group_status_of(status);
        self.skip_remaining = stops_rest_of(status, required);
        self.ran = Ghost(self.ran@.push((status, required)));
    }
}

/// The overall result of running groups in order.
#[derive(Debug)]
pub struct PathRunResult {
    pub did_succeed: bool,
    pub succeeded_groups: Vec<String>,
    pub failed_group: Vec<String>,
    pub skipped_group: Vec<String>,
    pub group_reports: Vec<GroupReport>,
    /// An earlier group stopped the run: the remaining groups are skipped.
    pub skip_remaining: bool,
}

/// The names in a list, as a set.
pub open spec fn name_set(v: Seq<String>) -> Set<Seq<char>> {
    texts(v).to_set()
}

proof fn lemma_in_name_set(v: Seq<String>, x: Seq<char>)
    ensures
        name_set(v).contains(x) <==> exists|k: int| 0 <= k < v.len() && (#[trigger] v[k])@ == x,
{
    if name_set(v).contains(x) {
        assert(texts(v).contains(x));
        let k = choose|k: int| 0 <= k < texts(v).len() && texts(v)[k] == x;
        assert(v[k]@ == x);
    }
    if exists|k: int| 0 <= k < v.len() && (#[trigger] v[k])@ == x {
        let k = choose|k: int| 0 <= k < v.len() && (#[trigger] v[k])@ == x;
        assert(texts(v)[k] == x);
        assert(texts(v).contains(x));
    }
}

impl PathRunResult {
    /// Nothing has run yet: success so far, all sets empty.
    pub fn new() -> (r: PathRunResult)
        ensures
            r.did_succeed,
            r.succeeded_groups@.len() == 0,
            r.failed_group@.len() == 0,
            r.skipped_group@.len() == 0,
            r.group_reports@.len() == 0,
            !r.skip_remaining,
    {
        PathRunResult {
            did_succeed: true,
            succeeded_groups: Vec::new(),
            failed_group: Vec::new(),
            skipped_group: Vec::new(),
            group_reports: Vec::new(),
            skip_remaining: false,
        }
    }

    /// Whether a group needing the groups `needs` runs next: not once an earlier group stopped
    /// the run, and not when one of the groups it needs failed or was skipped (a group runs
    /// only when all it needs finished successfully).
    pub fn should_run_group(&self, needs: &Vec<String>) -> (r: bool)
        ensures
            r == (!self.skip_remaining && forall|i: int|
                0 <= i < needs@.len() ==> !name_set(self.failed_group@).contains(#[trigger] needs@[i]@)
                    && !name_set(self.skipped_group@).contains(needs@[i]@)),
    {
        if self.skip_remaining {
            return false;
        }
        let mut i: usize = 0;
        while i < needs.len()
            invariant
                i <= needs@.len(),
                forall|k: int|
                    0 <= k < i ==> !name_set(self.failed_group@).contains(#[trigger] needs@[k]@)
                        && !name_set(self.skipped_group@).contains(needs@[k]@),
            decreases needs@.len() - i,
        {
            let f = find_name(&self.failed_group, needs[i].as_str());
            let k = find_name(&self.skipped_group, needs[i].as_str());
            proof {
                lemma_in_name_set(self.failed_group@, needs@[i as int]@);
                lemma_in_name_set(self.skipped_group@, needs@[i as int]@);
            }
            if f.is_some() || k.is_some() {
                return false;
            }
            i = i + 1;
        }
        true
    }

    /// Records a finished group: it joins the set of its status; a failed group, or one whose
    /// fix the user declined, makes the whole run unsuccessful; a group skipped by its own
    /// condition does not.
    pub fn process(&mut self, group: &GroupRun)
        ensures
            final(self).did_succeed == (old(self).did_succeed && group.status != GroupExecutionStatus::Failed
                && group.status != GroupExecutionStatus::Skipped),
            name_set(final(self).succeeded_groups@) == if group.status == GroupExecutionStatus::Succeeded {
                name_set(old(self).succeeded_groups@).insert(group.group_name@)
            } else {
                name_set(old(self).succeeded_groups@)
            },
            name_set(final(self).failed_group@) == if group.status == GroupExecutionStatus::Failed {
                name_set(old(self).failed_group@).insert(group.group_name@)
            } else {
                name_set(old(self).failed_group@)
            },
            name_set(final(self).skipped_group@) == if group.status == GroupExecutionStatus::Skipped
                || group.status == GroupExecutionStatus::GroupSkipped {
                name_set(old(self).skipped_group@).insert(group.group_name@)
            } else {
                name_set(old(self).skipped_group@)
            },
            final(self).group_reports@.len() == old(self).group_reports@.len() + 1,
            forall|i: int| 0 <= i < old(self).group_reports@.len() ==> #[trigger] final(self).group_reports@[i] == old(self).group_reports@[i],
            final(self).group_reports@.last().name() == group.group_report.name(),
            final(self).group_reports@.last().actions() == group.group_report.actions(),
            final(self).group_reports@.last().additional() == group.group_report.additional(),
            // a group that stops the rest stops the run; once stopped, the run stays stopped
            final(self).skip_remaining == (old(self).skip_remaining || group.skip_remaining),
    {
        let name = group.group_name.as_str();
        match group.status {
            GroupExecutionStatus::Succeeded => {
                insert_name(&mut self.succeeded_groups, name);
            },
            GroupExecutionStatus::Failed => {
                insert_name(&mut self.failed_group, name);
                self.did_succeed = false;
            },
            GroupExecutionStatus::Skipped => {
                insert_name(&mut self.skipped_group, name);
                self.did_succeed = false;
            },
            GroupExecutionStatus::GroupSkipped => {
                insert_name(&mut self.skipped_group, name);
            },
        }
        self.group_reports.push(group.group_report.clone());
        self.skip_remaining = self.skip_remaining || group.skip_remaining;
    }

    /// Records a group that was not run because an earlier group stopped the run.
    pub fn skip_group(&mut self, name: &str)
        ensures
            final(self).did_succeed == old(self).did_succeed,
            name_set(final(self).succeeded_groups@) == name_set(old(self).succeeded_groups@),
            name_set(final(self).failed_group@) == name_set(old(self).failed_group@),
            name_set(final(self).skipped_group@) == name_set(old(self).skipped_group@).insert(name@),
            final(self).group_reports@ == old(self).group_reports@,
            final(self).skip_remaining == old(self).skip_remaining,
    {
        insert_name(&mut self.skipped_group, name);
    }
}

/// The order in which groups run, as walked by `petgraph`'s `DfsPostOrder` from `start` after
/// `Graph::reverse`, on the graph `Graph::from_edges(edges)`.
pub uninterp spec fn reversed_dfs_post_order(edges: Seq<(usize, usize)>, start: usize) -> Seq<usize>;

/// `to` can be reached from `from` walking the edges backwards.
pub open spec fn reaches_back(edges: Seq<(usize, usize)>, from: usize, to: usize) -> bool {
    exists|p: Seq<usize>|
        #![trigger p.len(), p[0], p.last()]
        p.len() >= 1 && p[0] == from && p.last() == to && forall|k: int|
            0 <= k < p.len() - 1 ==> edges.contains((#[trigger] p[k + 1], p[k]))
}

/// Builds the graph with `petgraph` (`Graph::from_edges`), reverses it (`Graph::reverse`)
/// and walks it in depth-first post-order from `start` (`DfsPostOrder`).
/// Contract: the order is the one `reversed_dfs_post_order` names; as `petgraph`'s
/// documentation states, it lists each node reachable from `start` exactly once, each after
/// its descendants, so `start` comes last. In particular a node comes after each node an
/// edge leads to in the reversed graph, unless that node leads back to it (a cycle).
#[verifier::external_body]
fn reversed_post_order(edges: &Vec<(usize, usize)>, start: usize) -> (r: Vec<usize>)
    requires
        edges@.len() >= 1,
        edges@[0] == (start, start),
        forall|i: int| 0 <= i < edges@.len() ==> #[trigger] edges@[i].0 <= start && edges@[i].1 <= start,
    ensures
        r@ == reversed_dfs_post_order(edges@, start),
        r@.no_duplicates(),
        r@.len() >= 1,
        r@.last() == start,
        forall|i: int| 0 <= i < r@.len() ==> #[trigger] r@[i] <= start,
        forall|v: usize| r@.contains(v) <==> reaches_back(edges@, start, v),
        forall|i: int, j: int|
            #![trigger r@[i], r@[j]]
            0 <= i < r@.len() && 0 <= j < r@.len() && edges@.contains((r@[i], r@[j])) && !reaches_back(
                edges@,
                r@[i],
                r@[j],
            ) ==> i < j,
{
    let mut graph = petgraph::graph::DiGraph::<(), (), usize>::from_edges(edges.iter().map(|e| (e.0, e.1)));
    graph.reverse();
    let start = petgraph::graph::NodeIndex::new(start);
    petgraph::visit::Walker::iter(petgraph::visit::DfsPostOrder::new(&graph, start), &graph).map(|n| n.index()).collect()
}

/// The dependency edges of the groups `names` (each needing `requires[i]`) plus the edges
/// from the desired groups to the start node `names.len()`; the start node's self-edge comes
/// first. A dependency or desired name that is not a group is ignored.
pub open spec fn group_edges_ok(names: Seq<Seq<char>>, requires: Seq<Seq<Seq<char>>>, desired: Seq<Seq<char>>, edges: Seq<(usize, usize)>) -> bool {
    let start = names.len();
    &&& edges.len() >= 1
    &&& edges[0] == (start as usize, start as usize)
    &&& forall|i: int| 0 <= i < edges.len() ==> #[trigger] edges[i].0 <= start && edges[i].1 <= start
    // a dependency edge for each known requirement
    &&& forall|i: int, j: int| 0 <= i < names.len() && 0 <= j < names.len() && #[trigger] requires[i].contains(names[j])
        ==> edges.contains((j as usize, i as usize))
    // an edge into the start node for each known desired group
    &&& forall|j: int| 0 <= j < names.len() && desired.contains(#[trigger] names[j])
        ==> edges.contains((j as usize, start as usize))
    // no other edges
    &&& forall|e: (usize, usize)| edges.contains(e) ==> e == (start as usize, start as usize)
        || (e.1 < start && e.0 < start && requires[e.1 as int].contains(names[e.0 as int]))
        || (e.1 == start && e.0 < start && desired.contains(names[e.0 as int]))
}

/// The needs of each group, as texts.
pub open spec fn need_texts(v: Seq<Vec<String>>) -> Seq<Seq<Seq<char>>> {
    v.map_values(|x: Vec<String>| texts(x@))
}

/// `q` is a chain of group positions that starts at a desired group, each group in it
/// needing the next one.
pub open spec fn need_chain(names: Seq<Seq<char>>, needs: Seq<Seq<Seq<char>>>, desired: Seq<Seq<char>>, q: Seq<int>) -> bool {
    &&& q.len() >= 1
    &&& forall|k: int| 0 <= k < q.len() ==> 0 <= #[trigger] q[k] < names.len()
    &&& desired.contains(names[q[0]])
    &&& forall|k: int| 0 <= k < q.len() - 1 ==> #[trigger] needs[q[k]].contains(names[q[k + 1]])
}

/// Group `g` is desired, or needed (transitively) by a desired group.
pub open spec fn needed_group(names: Seq<Seq<char>>, needs: Seq<Seq<Seq<char>>>, desired: Seq<Seq<char>>, g: Seq<char>) -> bool {
    exists|q: Seq<int>| #[trigger] need_chain(names, needs, desired, q) && names[q.last()] == g
}

/// A group reached from the start node, walking the group edges backwards, is a desired group
/// or is needed, transitively, by one.
proof fn lemma_reached_group_is_needed(
    names: Seq<Seq<char>>,
    needs: Seq<Seq<Seq<char>>>,
    desired: Seq<Seq<char>>,
    edges: Seq<(usize, usize)>,
    p: Seq<usize>,
)
    requires
        group_edges_ok(names, needs, desired, edges),
        p.len() >= 1,
        p[0] == names.len(),
        p.last() < names.len(),
        forall|k: int| 0 <= k < p.len() - 1 ==> edges.contains((#[trigger] p[k + 1], p[k])),
    ensures
        exists|q: Seq<int>| #[trigger] need_chain(names, needs, desired, q) && q.last() == p.last() as int,
    decreases p.len(),
{
    let m = p.len() as int;
    let last = p[m - 1];
    let prev = p[m - 2];
    assert(edges.contains((p[m - 2 + 1], p[m - 2])));
    assert(edges.contains((last, prev)));
    assert(prev <= names.len()) by {
        let i = choose|i: int| 0 <= i < edges.len() && edges[i] == (last, prev);
        assert(edges[i].1 <= names.len());
    }
    if prev as int == names.len() as int {
        let q = seq![last as int];
        assert(need_chain(names, needs, desired, q));
    } else {
        let p2 = p.drop_last();
        assert forall|k: int| 0 <= k < p2.len() - 1 implies edges.contains((#[trigger] p2[k + 1], p2[k])) by {
            assert(p2[k + 1] == p[k + 1] && p2[k] == p[k]);
        }
        lemma_reached_group_is_needed(names, needs, desired, edges, p2);
        let q2 = choose|q: Seq<int>| #[trigger] need_chain(names, needs, desired, q) && q.last() == p2.last() as int;
        let q = q2.push(last as int);
        assert(needs[prev as int].contains(names[last as int]));
        assert forall|k: int| 0 <= k < q.len() implies 0 <= #[trigger] q[k] < names.len() by {
            if k < q2.len() {
                assert(q[k] == q2[k]);
            }
        }
        assert forall|k: int| 0 <= k < q.len() - 1 implies #[trigger] needs[q[k]].contains(names[q[k + 1]]) by {
            if k < q2.len() - 1 {
                assert(q[k] == q2[k] && q[k + 1] == q2[k + 1]);
            } else {
                assert(q[k] == prev as int && q[k + 1] == last as int);
            }
        }
        assert(q[0] == q2[0]);
        assert(need_chain(names, needs, desired, q));
    }
}

/// Orders the groups to run: the desired groups and, transitively, the groups they need,
/// each dependency before the group that needs it unless the two need each other through a
/// cycle (depth-first post-order).
/// `names` must be distinct (the keys of the configuration map, in key order).
pub fn compute_group_order(names: &Vec<String>, requires: &Vec<Vec<String>>, desired: &Vec<String>) -> (r: Vec<String>)
    requires
        names@.len() == requires@.len(),
        names@.len() < usize::MAX,
        texts(names@).no_duplicates(),
    ensures
        exists|edges: Seq<(usize, usize)>| #![trigger reversed_dfs_post_order(edges, names@.len() as usize)] {
            &&& group_edges_ok(texts(names@), requires@.map_values(|v: Vec<String>| texts(v@)), texts(desired@), edges)
            &&& r@.len() + 1 == reversed_dfs_post_order(edges, names@.len() as usize).len()
            &&& forall|k: int| 0 <= k < r@.len() ==> #[trigger] r@[k]@ == names@[reversed_dfs_post_order(edges, names@.len() as usize)[k] as int]@
            &&& forall|k: int| 0 <= k < r@.len() ==> #[trigger] reversed_dfs_post_order(edges, names@.len() as usize)[k] < names@.len()
            // a group comes after each group it needs, unless that group needs it back
            &&& forall|k1: int, k2: int|
                #![trigger reversed_dfs_post_order(edges, names@.len() as usize)[k1], reversed_dfs_post_order(edges, names@.len() as usize)[k2]]
                0 <= k1 < r@.len() && 0 <= k2 < r@.len() && edges.contains((
                    reversed_dfs_post_order(edges, names@.len() as usize)[k1],
                    reversed_dfs_post_order(edges, names@.len() as usize)[k2],
                )) && !reaches_back(
                    edges,
                    reversed_dfs_post_order(edges, names@.len() as usize)[k1],
                    reversed_dfs_post_order(edges, names@.len() as usize)[k2],
                ) ==> k1 < k2
        },
        // every desired group that exists is in the order
        forall|j: int| 0 <= j < names@.len() && texts(desired@).contains(#[trigger] names@[j]@)
            ==> texts(r@).contains(names@[j]@),
        // with a group, each group it needs (that exists) is in the order
        forall|j: int, d: int| 0 <= j < names@.len() && 0 <= d < names@.len()
            && texts(r@).contains(names@[j]@) && #[trigger] texts(requires@[j]@).contains(#[trigger] names@[d]@)
            ==> texts(r@).contains(names@[d]@),
        // only groups are in the order, each once
        forall|k: int| 0 <= k < r@.len() ==> texts(names@).contains(#[trigger] r@[k]@),
        // each group in the order is desired, or needed (transitively) by a desired group
        forall|k: int| 0 <= k < r@.len() ==> #[trigger] needed_group(texts(names@), need_texts(requires@), texts(desired@), r@[k]@),
        texts(r@).no_duplicates(),
{
    let n = names.len();
    let ghost tnames = texts(names@);
    let ghost treq = requires@.map_values(|v: Vec<String>| texts(v@));
    let ghost tdes = texts(desired@);
    let mut edges: Vec<(usize, usize)> = Vec::new();
    edges.push((n, n));
    let mut i: usize = 0;
    while i < n
        invariant
            n == names@.len(),
            n == requires@.len(),
            tnames == texts(names@),
            treq == requires@.map_values(|v: Vec<String>| texts(v@)),
            i <= n,
            tnames.no_duplicates(),
            edges@.len() >= 1,
            edges@[0] == (n, n),
            forall|q: int| 0 <= q < edges@.len() ==> #[trigger] edges@[q].0 <= n && edges@[q].1 <= n,
            forall|a: int, j: int| 0 <= a < i && 0 <= j < n && #[trigger] treq[a].contains(tnames[j])
                ==> edges@.contains((j as usize, a as usize)),
            forall|e: (usize, usize)| edges@.contains(e) ==> e == (n, n)
                || (e.1 < i && e.0 < n && treq[e.1 as int].contains(tnames[e.0 as int])),
        decreases n - i,
    {
        let reqs = &requires[i];
        let mut d: usize = 0;
        let ghost before_i = edges@;
        while d < reqs.len()
            invariant
                n == names@.len(),
                n == requires@.len(),
                tnames == texts(names@),
                treq == requires@.map_values(|v: Vec<String>| texts(v@)),
                i < n,
                tnames.no_duplicates(),
                reqs == requires@[i as int],
                d <= reqs@.len(),
                edges@.len() >= 1,
                edges@[0] == (n, n),
                forall|q: int| 0 <= q < edges@.len() ==> #[trigger] edges@[q].0 <= n && edges@[q].1 <= n,
                forall|a: int, j: int| 0 <= a < i && 0 <= j < n && #[trigger] treq[a].contains(tnames[j])
                    ==> edges@.contains((j as usize, a as usize)),
                forall|j: int| 0 <= j < n && texts(reqs@).take(d as int).contains(#[trigger] tnames[j])
                    ==> edges@.contains((j as usize, i)),
                forall|e: (usize, usize)| edges@.contains(e) ==> e == (n, n)
                    || (e.1 < i && e.0 < n && treq[e.1 as int].contains(tnames[e.0 as int]))
                    || (e.1 == i && e.0 < n && treq[i as int].contains(tnames[e.0 as int])),
            decreases reqs@.len() - d,
        {
            let ghost prev = edges@;
            match find_name(names, reqs[d].as_str()) {
                Some(j) => {
                    edges.push((j, i));
                    proof {
                        assert(texts(reqs@)[d as int] == tnames[j as int]);
                        assert(treq[i as int] == texts(reqs@));
                        assert(treq[i as int].contains(tnames[j as int]));
                        assert forall|e: (usize, usize)| edges@.contains(e) implies e == (n, n)
                            || (e.1 < i && e.0 < n && treq[e.1 as int].contains(tnames[e.0 as int]))
                            || (e.1 == i && e.0 < n && treq[i as int].contains(tnames[e.0 as int])) by {
                            if e != (j, i) {
                                let q = choose|q: int| #![auto] 0 <= q < edges@.len() && edges@[q] == e;
                                assert(prev[q] == e);
                                assert(prev.contains(e));
                            }
                        }
                        assert forall|a: int, jj: int| 0 <= a < i && 0 <= jj < n && #[trigger] treq[a].contains(tnames[jj])
                            implies edges@.contains((jj as usize, a as usize)) by {
                            let q = choose|q: int| #![auto] 0 <= q < prev.len() && prev[q] == (jj as usize, a as usize);
                            assert(edges@[q] == prev[q]);
                        }
                        assert forall|jj: int| 0 <= jj < n && texts(reqs@).take(d + 1).contains(#[trigger] tnames[jj])
                            implies edges@.contains((jj as usize, i)) by {
                            let tk = texts(reqs@).take(d + 1);
                            let t = choose|t: int| #![auto] 0 <= t < tk.len() && tk[t] == tnames[jj];
                            if t < d {
                                assert(texts(reqs@).take(d as int)[t] == tnames[jj]);
                                let q = choose|q: int| #![auto] 0 <= q < prev.len() && prev[q] == (jj as usize, i);
                                assert(edges@[q] == prev[q]);
                            } else {
                                assert(tnames[jj] == tnames[j as int]);
                                assert(jj == j);
                                assert(edges@[edges@.len() - 1] == (j, i));
                            }
                        }
                    }
                },
                None => {
                    proof {
                        assert forall|jj: int| 0 <= jj < n && texts(reqs@).take(d + 1).contains(#[trigger] tnames[jj])
                            implies edges@.contains((jj as usize, i)) by {
                            let tk = texts(reqs@).take(d + 1);
                            let t = choose|t: int| #![auto] 0 <= t < tk.len() && tk[t] == tnames[jj];
                            if t < d {
                                assert(texts(reqs@).take(d as int)[t] == tnames[jj]);
                            } else {
                                assert(names@[jj]@ != reqs@[d as int]@);
                            }
                        }
                    }
                },
            }
            d = d + 1;
        }
        proof {
            assert(texts(reqs@).take(reqs@.len() as int) =~= texts(reqs@));
            assert(treq[i as int] == texts(reqs@));
        }
        i = i + 1;
    }
    let mut t: usize = 0;
    while t < desired.len()
        invariant
            n == names@.len(),
            tnames == texts(names@),
            treq == requires@.map_values(|v: Vec<String>| texts(v@)),
            tdes == texts(desired@),
            tnames.no_duplicates(),
            t <= desired@.len(),
            edges@.len() >= 1,
            edges@[0] == (n, n),
            forall|q: int| 0 <= q < edges@.len() ==> #[trigger] edges@[q].0 <= n && edges@[q].1 <= n,
            forall|a: int, j: int| 0 <= a < n && 0 <= j < n && #[trigger] treq[a].contains(tnames[j])
                ==> edges@.contains((j as usize, a as usize)),
            forall|j: int| 0 <= j < n && tdes.take(t as int).contains(#[trigger] tnames[j])
                ==> edges@.contains((j as usize, n)),
            forall|e: (usize, usize)| edges@.contains(e) ==> e == (n, n)
                || (e.1 < n && e.0 < n && treq[e.1 as int].contains(tnames[e.0 as int]))
                || (e.1 == n && e.0 < n && tdes.contains(tnames[e.0 as int])),
        decreases desired@.len() - t,
    {
        let ghost prev = edges@;
        match find_name(names, desired[t].as_str()) {
            Some(j) => {
                edges.push((j, n));
                proof {
                    assert(tdes[t as int] == tnames[j as int]);
                    assert(tdes.contains(tnames[j as int]));
                    assert forall|e: (usize, usize)| edges@.contains(e) implies e == (n, n)
                        || (e.1 < n && e.0 < n && treq[e.1 as int].contains(tnames[e.0 as int]))
                        || (e.1 == n && e.0 < n && tdes.contains(tnames[e.0 as int])) by {
                        if e != (j, n) {
                            let q = choose|q: int| #![auto] 0 <= q < edges@.len() && edges@[q] == e;
                            assert(prev[q] == e);
                            assert(prev.contains(e));
                        }
                    }
                    assert forall|a: int, jj: int| 0 <= a < n && 0 <= jj < n && #[trigger] treq[a].contains(tnames[jj])
                        implies edges@.contains((jj as usize, a as usize)) by {
                        let q = choose|q: int| #![auto] 0 <= q < prev.len() && prev[q] == (jj as usize, a as usize);
                        assert(edges@[q] == prev[q]);
                    }
                    assert forall|jj: int| 0 <= jj < n && tdes.take(t + 1).contains(#[trigger] tnames[jj])
                        implies edges@.contains((jj as usize, n)) by {
                        let tk = tdes.take(t + 1);
                        let u = choose|u: int| #![auto] 0 <= u < tk.len() && tk[u] == tnames[jj];
                        if u < t {
                            assert(tdes.take(t as int)[u] == tnames[jj]);
                            let q = choose|q: int| #![auto] 0 <= q < prev.len() && prev[q] == (jj as usize, n);
                            assert(edges@[q] == prev[q]);
                        } else {
                            assert(tnames[jj] == tnames[j as int]);
                            assert(jj == j);
                            assert(edges@[edges@.len() - 1] == (j, n));
                        }
                    }
                }
            },
            None => {
                proof {
                    assert forall|jj: int| 0 <= jj < n && tdes.take(t + 1).contains(#[trigger] tnames[jj])
                        implies edges@.contains((jj as usize, n)) by {
                        let tk = tdes.take(t + 1);
                        let u = choose|u: int| #![auto] 0 <= u < tk.len() && tk[u] == tnames[jj];
                        if u < t {
                            assert(tdes.take(t as int)[u] == tnames[jj]);
                        } else {
                            assert(names@[jj]@ != desired@[t as int]@);
                        }
                    }
                }
            },
        }
        t = t + 1;
    }
    proof {
        assert(tdes.take(desired@.len() as int) =~= tdes);
        assert(group_edges_ok(tnames, treq, tdes, edges@));
    }
    let order = reversed_post_order(&edges, n);
    let ghost dfs = order@;
    proof {
        assert forall|k: int| 0 <= k < dfs.len() - 1 implies dfs[k] < n by {
            assert(dfs[k] <= n);
            assert(dfs[k] != dfs[dfs.len() - 1]);
        }
    }
    let mut r: Vec<String> = Vec::new();
    let mut k: usize = 0;
    let last = order.len() - 1;
    while k < last
        invariant
            n == names@.len(),
            dfs == order@,
            order@.len() >= 1,
            last == order@.len() - 1,
            k <= last,
            r@.len() == k,
            forall|q: int| 0 <= q < dfs.len() - 1 ==> dfs[q] < n,
            forall|q: int| 0 <= q < k ==> #[trigger] r@[q]@ == names@[dfs[q] as int]@,
        decreases order@.len() - k,
    {
        r.push(names[order[k]].clone());
        k = k + 1;
    }
    assert(group_edges_ok(tnames, treq, tdes, edges@) && r@.len() + 1 == reversed_dfs_post_order(edges@, n).len());
    proof {
        let tr = texts(r@);
        let es = edges@;
        assert forall|k: int| 0 <= k < r@.len() implies texts(names@).contains(#[trigger] r@[k]@) by {
            assert(tnames[dfs[k] as int] == r@[k]@);
        }
        // a group reached from the start node is in the order
        assert forall|j: int| 0 <= j < n && #[trigger] dfs.contains(j as usize) implies tr.contains(names@[j]@) by {
            let k = choose|k: int| #![auto] 0 <= k < dfs.len() && dfs[k] == j as usize;
            assert(k != dfs.len() - 1);
            assert(tr[k] == names@[j]@);
        }
        assert forall|j: int| 0 <= j < n && texts(desired@).contains(#[trigger] names@[j]@)
            implies tr.contains(names@[j]@) by {
            assert(tnames[j] == names@[j]@);
            assert(es.contains((j as usize, n)));
            let p = seq![n, j as usize];
            assert(p[1] == j as usize && p[0] == n);
            assert(p.len() >= 1 && p.last() == j as usize);
            assert forall|q: int| 0 <= q < p.len() - 1 implies es.contains((#[trigger] p[q + 1], p[q])) by {
                assert(q == 0);
            }
            assert(reaches_back(es, n, j as usize));
            assert(dfs.contains(j as usize));
        }
        assert forall|j: int, d: int| 0 <= j < n && 0 <= d < n
            && tr.contains(names@[j]@) && #[trigger] texts(requires@[j]@).contains(#[trigger] names@[d]@)
            implies tr.contains(names@[d]@) by {
            let k = choose|k: int| #![auto] 0 <= k < tr.len() && tr[k] == names@[j]@;
            assert(tnames[dfs[k] as int] == tnames[j]);
            assert(dfs[k] as int == j);
            assert(dfs.contains(j as usize));
            assert(reaches_back(es, n, j as usize));
            let p = choose|p: Seq<usize>| #![trigger p.len(), p[0], p.last()]
                p.len() >= 1 && p[0] == n && p.last() == j as usize && forall|q: int|
                    0 <= q < p.len() - 1 ==> es.contains((#[trigger] p[q + 1], p[q]));
            assert(treq[j] == texts(requires@[j]@));
            assert(tnames[d] == names@[d]@);
            assert(es.contains((d as usize, j as usize)));
            let p2 = p.push(d as usize);
            assert forall|q: int| 0 <= q < p2.len() - 1 implies es.contains((#[trigger] p2[q + 1], p2[q])) by {
                if q < p.len() - 1 {
                    assert(p2[q + 1] == p[q + 1] && p2[q] == p[q]);
                } else {
                    assert(p2[q] == j as usize && p2[q + 1] == d as usize);
                }
            }
            assert(p2.len() >= 1 && p2[0] == n && p2.last() == d as usize);
            assert(reaches_back(es, n, d as usize));
            assert(dfs.contains(d as usize));
        }
        assert(treq =~= need_texts(requires@));
        assert forall|k: int| 0 <= k < r@.len() implies #[trigger] needed_group(texts(names@), need_texts(requires@), texts(desired@), r@[k]@) by {
            assert(dfs.contains(dfs[k]));
            assert(reaches_back(es, n, dfs[k]));
            let p = choose|p: Seq<usize>| #![trigger p.len(), p[0], p.last()]
                p.len() >= 1 && p[0] == n && p.last() == dfs[k] && forall|q: int|
                    0 <= q < p.len() - 1 ==> es.contains((#[trigger] p[q + 1], p[q]));
            lemma_reached_group_is_needed(tnames, treq, tdes, es, p);
            let q = choose|q: Seq<int>| #[trigger] need_chain(tnames, treq, tdes, q) && q.last() == p.last() as int;
            assert(tnames[q.last()] == names@[q.last()]@);
            assert(need_chain(texts(names@), need_texts(requires@), texts(desired@), q));
        }
        assert forall|a: int, b: int| 0 <= a < tr.len() && 0 <= b < tr.len() && a != b implies tr[a] != tr[b] by {
            assert(dfs[a] != dfs[b]);
            assert(tr[a] == tnames[dfs[a] as int]);
            assert(tr[b] == tnames[dfs[b] as int]);
        }
    }
    r
}

} // verus!
