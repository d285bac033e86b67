//! The execution graph of a pipeline run: its tasks as the nodes of a
//! `petgraph` graph, with an edge from each task to every task that
//! depends on it.

use std::collections::{HashMap, HashSet};

use vstd::prelude::*;
use vstd::set_lib::{lemma_int_range, lemma_len_subset, set_int_range};
use vstd::std_specs::hash::group_hash_axioms;

use crate::error::Error;
use crate::graph::{
    graph_add_edge, graph_add_node, graph_is_cyclic, graph_neighbors, graph_new, graph_node_count,
    graph_node_weight, graph_edges, graph_weights, has_cycle, incoming_sources, is_closed_walk,
    outgoing_targets, TaskGraph,
};
use crate::ids::{hyphenated_text, uuid_string};
use crate::pipeline::PipelineDefinition;
use crate::status::{PipelineRunStatus, TaskRunStatus};
use crate::task::TaskDefinition;

verus! {

broadcast use group_hash_axioms;

// ---------------------------------------------------------------------
// The model: a pipeline's task definitions, in the order given.
// ---------------------------------------------------------------------

/// The ids of the tasks, in order.
pub open spec fn ids_of(defs: Seq<TaskDefinition>) -> Seq<u128> {
    Seq::new(defs.len(), |i: int| defs[i].id)
}

/// Whether one of the first `n` tasks has id `id`.
pub open spec fn id_in_prefix(defs: Seq<TaskDefinition>, n: int, id: u128) -> bool {
    exists|i: int| 0 <= i < n && #[trigger] defs[i].id == id
}

/// What makes a list of task definitions unfit for an execution graph.
pub enum GraphDefect {
    /// A task repeats the id of an earlier task.
    DuplicateTask { task: u128 },
    /// A task depends on an id that no task of the pipeline has.
    UnknownDependency { task: u128, dependency: u128 },
    /// The dependencies run in a circle.
    Cycle,
}

/// The first task among the first `n` that repeats the id of an earlier
/// task.
pub open spec fn first_duplicate(defs: Seq<TaskDefinition>, n: int) -> Option<GraphDefect>
    decreases n,
{
    if n <= 0 {
        None
    } else {
        match first_duplicate(defs, n - 1) {
            Some(d) => Some(d),
            None => if id_in_prefix(defs, n - 1, defs[n - 1].id) {
                Some(GraphDefect::DuplicateTask { task: defs[n - 1].id })
            } else {
                None
            },
        }
    }
}

/// The first of the dependencies of task `k`, from position `j` on, that
/// names no task of the pipeline.
pub open spec fn first_unknown_dependency(defs: Seq<TaskDefinition>, k: int, j: int) -> Option<u128>
    decreases defs[k].depends_on@.len() - j,
{
    if j < 0 || j >= defs[k].depends_on@.len() {
        None
    } else if !id_in_prefix(defs, defs.len() as int, defs[k].depends_on@[j]) {
        Some(defs[k].depends_on@[j])
    } else {
        first_unknown_dependency(defs, k, j + 1)
    }
}

/// The first dependency on an unknown task among those of the first `n`
/// tasks, taken task by task.
pub open spec fn first_unknown(defs: Seq<TaskDefinition>, n: int) -> Option<GraphDefect>
    decreases n,
{
    if n <= 0 {
        None
    } else {
        match first_unknown(defs, n - 1) {
            Some(d) => Some(d),
            None => match first_unknown_dependency(defs, n - 1, 0) {
                Some(d) => Some(GraphDefect::UnknownDependency { task: defs[n - 1].id, dependency: d }),
                None => None,
            },
        }
    }
}

/// Whether task `b` depends on task `a`.
pub open spec fn depends_edge(defs: Seq<TaskDefinition>, a: int, b: int) -> bool {
    0 <= a < defs.len() && 0 <= b < defs.len() && defs[b].depends_on@.contains(defs[a].id)
}

/// Whether `path` goes round a circle of dependencies: each of its tasks is
/// a dependency of the next, and it ends where it starts.
pub open spec fn is_dependency_cycle(defs: Seq<TaskDefinition>, path: Seq<int>) -> bool {
    &&& path.len() >= 2
    &&& path[0] == path.last()
    &&& forall|i: int| 0 <= i < path.len() - 1 ==> #[trigger] depends_edge(defs, path[i], path[i + 1])
}

/// Whether the dependencies run in a circle.
pub open spec fn has_dependency_cycle(defs: Seq<TaskDefinition>) -> bool {
    exists|path: Seq<int>| is_dependency_cycle(defs, path)
}

/// Why the tasks make no execution graph, or `None` when they make one: all
/// tasks become nodes first, so a repeated id is found first; then each
/// task's dependencies become edges, in order, so the first dependency that
/// names no task comes next; last, the whole graph is checked for a cycle.
pub open spec fn graph_defect(defs: Seq<TaskDefinition>) -> Option<GraphDefect> {
    match first_duplicate(defs, defs.len() as int) {
        Some(d) => Some(d),
        None => match first_unknown(defs, defs.len() as int) {
            Some(d) => Some(d),
            None => if has_dependency_cycle(defs) {
                Some(GraphDefect::Cycle)
            } else {
                None
            },
        },
    }
}

/// The number of dependency entries of the first `n` tasks.
pub open spec fn dependency_count(defs: Seq<TaskDefinition>, n: int) -> int
    decreases n,
{
    if n <= 0 {
        0
    } else {
        dependency_count(defs, n - 1) + defs[n - 1].depends_on@.len()
    }
}

/// The message of the error for a repeated task id.
pub open spec fn duplicate_task_message(task: u128, pipeline: u128) -> Seq<char> {
    "Duplicate task ID "@ + hyphenated_text(task) + " found in pipeline definition "@
        + hyphenated_text(pipeline) + "."@
}

/// The message of the error for a dependency on an unknown task.
pub open spec fn unknown_dependency_message(dependency: u128, pipeline: u128) -> Seq<char> {
    "Failed to find task ID "@ + hyphenated_text(dependency)
        + " in task_id_to_node_idx for pipeline definition "@ + hyphenated_text(pipeline) + "."@
}

/// The message of the error for a cyclic graph.
pub open spec fn cycle_message(pipeline: u128) -> Seq<char> {
    "Cyclic dependency graph detected for pipeline definition "@ + hyphenated_text(pipeline) + "."@
}

/// The error that reports `defect` for pipeline `pipeline`.
pub open spec fn reports_defect(e: Error, defect: GraphDefect, pipeline: u128) -> bool {
    match defect {
        GraphDefect::DuplicateTask { task } => e matches Error::Conflict(m) && m@
            == duplicate_task_message(task, pipeline),
        GraphDefect::UnknownDependency { dependency, .. } => e matches Error::Internal(m) && m@
            == unknown_dependency_message(dependency, pipeline),
        GraphDefect::Cycle => e matches Error::Conflict(m) && m@ == cycle_message(pipeline),
    }
}

/// The ids of the tasks that depend on no task.
pub open spec fn source_ids(defs: Seq<TaskDefinition>) -> Set<u128> {
    Set::new(
        |id: u128|
            exists|k: int|
                0 <= k < defs.len() && #[trigger] defs[k].id == id && defs[k].depends_on@.len()
                    == 0,
    )
}

/// The ids of the tasks on which no task depends.
pub open spec fn sink_ids(defs: Seq<TaskDefinition>) -> Set<u128> {
    Set::new(
        |id: u128|
            id_in_prefix(defs, defs.len() as int, id) && forall|m: int|
                0 <= m < defs.len() ==> !(#[trigger] defs[m].depends_on@.contains(id)),
    )
}

/// The index of the task with id `id`.
pub open spec fn task_index(defs: Seq<TaskDefinition>, id: u128) -> int {
    choose|k: int| 0 <= k < defs.len() && defs[k].id == id
}

/// Every edge runs from a task to one among the first `k` that depends on
/// it.
pub open spec fn edges_follow_dependencies(
    defs: Seq<TaskDefinition>,
    edges: Seq<(int, int)>,
    k: int,
) -> bool {
    forall|a: int, b: int|
        #[trigger] edges.contains((a, b)) ==> 0 <= a < defs.len() && 0 <= b < k && b < defs.len()
            && defs[b].depends_on@.contains(defs[a].id)
}

/// Every dependency of the first `k` tasks has its edge.
pub open spec fn dependencies_have_edges(
    defs: Seq<TaskDefinition>,
    edges: Seq<(int, int)>,
    k: int,
) -> bool {
    forall|a: int, b: int|
        0 <= a < defs.len() && 0 <= b < k && b < defs.len() && #[trigger] defs[b].depends_on@.contains(
            #[trigger] defs[a].id,
        ) ==> edges.contains((a, b))
}

// ---------------------------------------------------------------------
// Lemmas on the model.
// ---------------------------------------------------------------------

proof fn lemma_first_duplicate_stays(defs: Seq<TaskDefinition>, m: int, n: int)
    requires
        0 <= m <= n,
        first_duplicate(defs, m) is Some,
    ensures
        first_duplicate(defs, n) == first_duplicate(defs, m),
    decreases n - m,
{
    if m < n {
        lemma_first_duplicate_stays(defs, m, n - 1);
    }
}

proof fn lemma_first_unknown_stays(defs: Seq<TaskDefinition>, m: int, n: int)
    requires
        0 <= m <= n,
        first_unknown(defs, m) is Some,
    ensures
        first_unknown(defs, n) == first_unknown(defs, m),
    decreases n - m,
{
    if m < n {
        lemma_first_unknown_stays(defs, m, n - 1);
    }
}

proof fn lemma_first_unknown_found(defs: Seq<TaskDefinition>, k: int, x: int, j: int)
    requires
        0 <= k < defs.len(),
        0 <= x <= j < defs[k].depends_on@.len(),
        forall|jj: int|
            x <= jj < j ==> id_in_prefix(defs, defs.len() as int, #[trigger] defs[k].depends_on@[jj]),
        !id_in_prefix(defs, defs.len() as int, defs[k].depends_on@[j]),
    ensures
        first_unknown_dependency(defs, k, x) == Some(defs[k].depends_on@[j]),
    decreases j - x,
{
    if x < j {
        assert(id_in_prefix(defs, defs.len() as int, defs[k].depends_on@[x]));
        lemma_first_unknown_found(defs, k, x + 1, j);
    }
}

proof fn lemma_first_unknown_none(defs: Seq<TaskDefinition>, k: int, x: int)
    requires
        0 <= k < defs.len(),
        0 <= x,
        forall|jj: int|
            x <= jj < defs[k].depends_on@.len() ==> id_in_prefix(
                defs,
                defs.len() as int,
                #[trigger] defs[k].depends_on@[jj],
            ),
    ensures
        first_unknown_dependency(defs, k, x) is None,
    decreases defs[k].depends_on@.len() - x,
{
    if x < defs[k].depends_on@.len() {
        assert(id_in_prefix(defs, defs.len() as int, defs[k].depends_on@[x]));
        lemma_first_unknown_none(defs, k, x + 1);
    }
}

proof fn lemma_first_unknown_means_unknown(defs: Seq<TaskDefinition>, k: int, x: int, j: int)
    requires
        0 <= k < defs.len(),
        0 <= x <= j < defs[k].depends_on@.len(),
        first_unknown_dependency(defs, k, x) is None,
    ensures
        id_in_prefix(defs, defs.len() as int, defs[k].depends_on@[j]),
    decreases j - x,
{
    if x < j {
        lemma_first_unknown_means_unknown(defs, k, x + 1, j);
    }
}

/// Without a repeated id among the first `n` tasks, their ids are distinct.
proof fn lemma_no_duplicate(defs: Seq<TaskDefinition>, n: int)
    requires
        0 <= n <= defs.len(),
        first_duplicate(defs, n) is None,
    ensures
        forall|i: int, j: int| 0 <= i < j < n ==> defs[i].id != defs[j].id,
    decreases n,
{
    if n > 0 {
        lemma_no_duplicate(defs, n - 1);
        let k = n - 1;
        assert forall|i: int, j: int| 0 <= i < j < n implies defs[i].id != defs[j].id by {
            if j == k && defs[i].id == defs[j].id {
                assert(id_in_prefix(defs, k, defs[k].id));
            }
        }
    }
}

/// Without an unknown dependency among those of the first `n` tasks, each
/// of their dependencies names a task of the pipeline.
proof fn lemma_no_unknown(defs: Seq<TaskDefinition>, n: int)
    requires
        0 <= n <= defs.len(),
        first_unknown(defs, n) is None,
    ensures
        forall|k: int, d: u128|
            0 <= k < n && #[trigger] defs[k].depends_on@.contains(d) ==> id_in_prefix(
                defs,
                defs.len() as int,
                d,
            ),
    decreases n,
{
    if n > 0 {
        lemma_no_unknown(defs, n - 1);
        let k = n - 1;
        assert forall|kk: int, d: u128|
            0 <= kk < n && #[trigger] defs[kk].depends_on@.contains(d) implies id_in_prefix(
                defs,
                defs.len() as int,
                d,
            ) by {
            if kk == k {
                let j = choose|j: int| 0 <= j < defs[k].depends_on@.len() && defs[k].depends_on@[j] == d;
                lemma_first_unknown_means_unknown(defs, k, 0, j);
            }
        }
    }
}

/// The graph's edges go round a circle exactly when the dependencies do.
proof fn lemma_edges_cycle(defs: Seq<TaskDefinition>, edges: Seq<(int, int)>)
    requires
        edges_follow_dependencies(defs, edges, defs.len() as int),
        dependencies_have_edges(defs, edges, defs.len() as int),
    ensures
        has_cycle(edges) <==> has_dependency_cycle(defs),
{
    if has_cycle(edges) {
        let path = choose|path: Seq<int>| is_closed_walk(edges, path);
        assert forall|i: int| 0 <= i < path.len() - 1 implies #[trigger] depends_edge(
            defs,
            path[i],
            path[i + 1],
        ) by {
            assert(edges.contains((path[i], path[i + 1])));
        }
        assert(is_dependency_cycle(defs, path));
    }
    if has_dependency_cycle(defs) {
        let path = choose|path: Seq<int>| is_dependency_cycle(defs, path);
        assert forall|i: int| 0 <= i < path.len() - 1 implies #[trigger] edges.contains(
            (path[i], path[i + 1]),
        ) by {
            assert(depends_edge(defs, path[i], path[i + 1]));
        }
        assert(is_closed_walk(edges, path));
    }
}

/// A sequence holds what its initial part holds and its last element.
proof fn lemma_contains_split(edges: Seq<(int, int)>, v: (int, int))
    requires
        edges.len() > 0,
    ensures
        edges.contains(v) <==> edges.drop_last().contains(v) || edges.last() == v,
{
    let init = edges.drop_last();
    if edges.contains(v) {
        let i = choose|i: int| 0 <= i < edges.len() && edges[i] == v;
        if i < edges.len() - 1 {
            assert(init[i] == v);
        }
    }
    if init.contains(v) {
        let i = choose|i: int| 0 <= i < init.len() && init[i] == v;
        assert(edges[i] == v);
    }
    if edges.last() == v {
        assert(edges[edges.len() - 1] == v);
    }
}

/// A sequence with a first element prepended holds that element and what
/// the sequence held.
proof fn lemma_contains_prepend(x: int, rest: Seq<int>, y: int)
    ensures
        (seq![x] + rest).contains(y) <==> x == y || rest.contains(y),
{
    let s = seq![x] + rest;
    if s.contains(y) {
        let i = choose|i: int| 0 <= i < s.len() && s[i] == y;
        if i > 0 {
            assert(rest[i - 1] == y);
        }
    }
    if x == y {
        assert(s[0] == y);
    }
    if rest.contains(y) {
        let i = choose|i: int| 0 <= i < rest.len() && rest[i] == y;
        assert(s[i + 1] == y);
    }
}

proof fn lemma_incoming_sources(edges: Seq<(int, int)>, a: int)
    ensures
        forall|x: int| #[trigger] incoming_sources(edges, a).contains(x) <==> edges.contains((x, a)),
        incoming_sources(edges, a).len() == 0 <==> forall|x: int| !edges.contains((x, a)),
    decreases edges.len(),
{
    if edges.len() > 0 {
        let init = edges.drop_last();
        let e = edges.last();
        lemma_incoming_sources(init, a);
        let rest = incoming_sources(init, a);
        assert forall|x: int| #[trigger] incoming_sources(edges, a).contains(x) <==> edges.contains((x, a)) by {
            lemma_contains_split(edges, (x, a));
            if e.1 == a {
                lemma_contains_prepend(e.0, rest, x);
            }
        }
        if incoming_sources(edges, a).len() == 0 {
            assert forall|x: int| !edges.contains((x, a)) by {
                if edges.contains((x, a)) {
                    assert(!incoming_sources(edges, a).contains(x));
                }
            }
        } else {
            let x = incoming_sources(edges, a)[0];
            assert(incoming_sources(edges, a).contains(x));
        }
    } else {
        assert forall|x: int| !edges.contains((x, a)) by {}
    }
}

proof fn lemma_outgoing_targets(edges: Seq<(int, int)>, a: int)
    ensures
        forall|x: int| #[trigger] outgoing_targets(edges, a).contains(x) <==> edges.contains((a, x)),
        outgoing_targets(edges, a).len() == 0 <==> forall|x: int| !edges.contains((a, x)),
    decreases edges.len(),
{
    if edges.len() > 0 {
        let init = edges.drop_last();
        let e = edges.last();
        lemma_outgoing_targets(init, a);
        let rest = outgoing_targets(init, a);
        assert forall|x: int| #[trigger] outgoing_targets(edges, a).contains(x) <==> edges.contains((a, x)) by {
            lemma_contains_split(edges, (a, x));
            if e.0 == a {
                lemma_contains_prepend(e.1, rest, x);
            }
        }
        if outgoing_targets(edges, a).len() == 0 {
            assert forall|x: int| !edges.contains((a, x)) by {
                if edges.contains((a, x)) {
                    assert(!outgoing_targets(edges, a).contains(x));
                }
            }
        } else {
            let x = outgoing_targets(edges, a)[0];
            assert(outgoing_targets(edges, a).contains(x));
        }
    } else {
        assert forall|x: int| !edges.contains((a, x)) by {}
    }
}

} // verus!

verus! {

// ---------------------------------------------------------------------
// Error messages.
// ---------------------------------------------------------------------

fn duplicate_task_error(task: u128, pipeline: u128) -> (e: Error)
    ensures
        e matches Error::Conflict(m) && m@ == duplicate_task_message(task, pipeline),
{
    let m = "Duplicate task ID ".to_owned();
    let m = m.concat(uuid_string(task).as_str());
    let m = m.concat(" found in pipeline definition ");
    let m = m.concat(uuid_string(pipeline).as_str());
    let m = m.concat(".");
    Error::Conflict(m)
}

fn unknown_dependency_error(dependency: u128, pipeline: u128) -> (e: Error)
    ensures
        e matches Error::Internal(m) && m@ == unknown_dependency_message(dependency, pipeline),
{
    let m = "Failed to find task ID ".to_owned();
    let m = m.concat(uuid_string(dependency).as_str());
    let m = m.concat(" in task_id_to_node_idx for pipeline definition ");
    let m = m.concat(uuid_string(pipeline).as_str());
    let m = m.concat(".");
    Error::Internal(m)
}

fn cycle_error(pipeline: u128) -> (e: Error)
    ensures
        e matches Error::Conflict(m) && m@ == cycle_message(pipeline),
{
    let m = "Cyclic dependency graph detected for pipeline definition ".to_owned();
    let m = m.concat(uuid_string(pipeline).as_str());
    let m = m.concat(".");
    Error::Conflict(m)
}

} // verus!

verus! {

/// The dependency graph of one pipeline's tasks.
pub struct PipelineExecutionGraph {
    /// Node `i` stands for `task_definitions[i]` and weighs that task's id;
    /// an edge from task A to task B means that A must complete before B
    /// can start.
    graph: TaskGraph,
    /// The task definitions, in the order of their nodes.
    task_definitions: Vec<TaskDefinition>,
    /// The node of each task id.
    task_id_to_node_idx: HashMap<u128, usize>,
    /// Ids of the tasks on which no task depends.
    sink_nodes: HashSet<u128>,
    /// Ids of the tasks that depend on no task.
    source_nodes: HashSet<u128>,
}

impl PipelineExecutionGraph {
    /// The tasks of the graph, in the order of the pipeline definition.
    pub closed spec fn tasks(&self) -> Seq<TaskDefinition> {
        self.task_definitions@
    }

    /// The edges of the graph, as (source node, target node) pairs.
    pub closed spec fn edges(&self) -> Seq<(int, int)> {
        graph_edges(self.graph)
    }

    /// The graph is built from its task definitions, as `new` builds it.
    pub closed spec fn wf(&self) -> bool {
        let defs = self.task_definitions@;
        let n = defs.len() as int;
        &&& graph_defect(defs) is None
        &&& n < u32::MAX
        &&& graph_weights(self.graph) == ids_of(defs)
        &&& edges_follow_dependencies(defs, graph_edges(self.graph), n)
        &&& dependencies_have_edges(defs, graph_edges(self.graph), n)
        &&& forall|i: int|
            0 <= i < n ==> #[trigger] self.task_id_to_node_idx@.contains_key(defs[i].id)
                && self.task_id_to_node_idx@[defs[i].id] == i
        &&& forall|id: u128|
            #[trigger] self.task_id_to_node_idx@.contains_key(id) ==> id_in_prefix(defs, n, id)
        &&& self.source_nodes@ == source_ids(defs)
        &&& self.sink_nodes@ == sink_ids(defs)
    }

    /// Builds the execution graph of a pipeline: first a node for each task,
    /// in order, then an edge to each task from each task it depends on,
    /// wherever that task is listed. Fails on a repeated task id, then on a
    /// dependency that names no task, then on a cycle.
    #[verifier::spinoff_prover]
    pub fn new(pipeline_def: PipelineDefinition) -> (r: Result<PipelineExecutionGraph, Error>)
        requires
            pipeline_def.task_definitions@.len() < u32::MAX,
            dependency_count(
                pipeline_def.task_definitions@,
                pipeline_def.task_definitions@.len() as int,
            ) < u32::MAX,
        ensures
            match r {
                Ok(g) => {
                    &&& graph_defect(pipeline_def.task_definitions@) is None
                    &&& g.wf()
                    &&& g.tasks() == pipeline_def.task_definitions@
                },
                Err(err) => match graph_defect(pipeline_def.task_definitions@) {
                    Some(d) => reports_defect(err, d, pipeline_def.info.id),
                    None => false,
                },
            },
    {
        let ghost input = pipeline_def;
        let pipeline_id = pipeline_def.info.id;
        let defs = pipeline_def.task_definitions;
        let ghost sdefs = defs@;
        let mut graph = graph_new();
        let mut task_id_to_node_idx: HashMap<u128, usize> = HashMap::new();
        let n = defs.len();
        if n == 0 {
            let g = PipelineExecutionGraph {
                graph,
                task_definitions: defs,
                task_id_to_node_idx,
                sink_nodes: HashSet::new(),
                source_nodes: HashSet::new(),
            };
            proof {
                if has_dependency_cycle(sdefs) {
                    let path = choose|path: Seq<int>| is_dependency_cycle(sdefs, path);
                    assert(depends_edge(sdefs, path[0], path[1]));
                }
            }
            assert(ids_of(sdefs) =~= Seq::<u128>::empty());
            assert(source_ids(sdefs) =~= Set::<u128>::empty());
            assert(sink_ids(sdefs) =~= Set::<u128>::empty());
            return Ok(g);
        }
        // All tasks become nodes first.
        let mut k: usize = 0;
        while k < n
            invariant
                defs@ == sdefs,
                input.task_definitions@ == sdefs,
                input.info.id == pipeline_id,
                pipeline_def == input,
                n == sdefs.len(),
                n < u32::MAX,
                0 <= k <= n,
                first_duplicate(sdefs, k as int) is None,
                graph_weights(graph) == ids_of(sdefs).take(k as int),
                graph_edges(graph) == Seq::<(int, int)>::empty(),
                forall|i: int|
                    0 <= i < k ==> #[trigger] task_id_to_node_idx@.contains_key(sdefs[i].id)
                        && task_id_to_node_idx@[sdefs[i].id] == i,
                forall|id: u128|
                    #[trigger] task_id_to_node_idx@.contains_key(id) ==> id_in_prefix(
                        sdefs,
                        k as int,
                        id,
                    ),
            decreases n - k,
        {
            let task_id = defs[k].id;
            if task_id_to_node_idx.contains_key(&task_id) {
                let e = duplicate_task_error(task_id, pipeline_id);
                proof {
                    assert(id_in_prefix(sdefs, k as int, sdefs[k as int].id));
                    assert(first_duplicate(sdefs, k + 1) == Some(
                        GraphDefect::DuplicateTask { task: task_id },
                    ));
                    lemma_first_duplicate_stays(sdefs, k + 1, n as int);
                    assert(graph_defect(sdefs) == Some(GraphDefect::DuplicateTask { task: task_id }));
                }
                return Err(e);
            }
            let node_idx = graph_add_node(&mut graph, task_id);
            task_id_to_node_idx.insert(task_id, node_idx);
            proof {
                assert forall|i: int|
                    0 <= i <= k implies #[trigger] task_id_to_node_idx@.contains_key(sdefs[i].id)
                        && task_id_to_node_idx@[sdefs[i].id] == i by {
                    if i < k {
                        assert(sdefs[i].id != sdefs[k as int].id);
                    }
                }
                assert forall|id: u128| #[trigger]
                    task_id_to_node_idx@.contains_key(id) implies id_in_prefix(
                    sdefs,
                    k + 1,
                    id,
                ) by {
                    if id == task_id {
                        assert(sdefs[k as int].id == id);
                    }
                }
                assert(graph_weights(graph) =~= ids_of(sdefs).take(k + 1));
                assert(!id_in_prefix(sdefs, k as int, sdefs[k as int].id));
            }
            k += 1;
        }
        proof {
            lemma_no_duplicate(sdefs, n as int);
            assert(graph_weights(graph) =~= ids_of(sdefs));
        }
        // Then each task's dependencies become its incoming edges.
        let mut k: usize = 0;
        while k < n
            invariant
                defs@ == sdefs,
                input.task_definitions@ == sdefs,
                input.info.id == pipeline_id,
                pipeline_def == input,
                n == sdefs.len(),
                n < u32::MAX,
                dependency_count(sdefs, n as int) < u32::MAX,
                0 <= k <= n,
                first_duplicate(sdefs, n as int) is None,
                first_unknown(sdefs, k as int) is None,
                forall|i: int, j: int| 0 <= i < j < n ==> sdefs[i].id != sdefs[j].id,
                graph_weights(graph) == ids_of(sdefs),
                edges_follow_dependencies(sdefs, graph_edges(graph), k as int),
                dependencies_have_edges(sdefs, graph_edges(graph), k as int),
                graph_edges(graph).len() <= dependency_count(sdefs, k as int),
                forall|i: int|
                    0 <= i < n ==> #[trigger] task_id_to_node_idx@.contains_key(sdefs[i].id)
                        && task_id_to_node_idx@[sdefs[i].id] == i,
                forall|id: u128|
                    #[trigger] task_id_to_node_idx@.contains_key(id) ==> id_in_prefix(
                        sdefs,
                        n as int,
                        id,
                    ),
            decreases n - k,
        {
            proof {
                lemma_dependency_count_grows(sdefs, k + 1, n as int);
            }
            match add_dependency_edges(&mut graph, &task_id_to_node_idx, &defs, k) {
                Err(dep) => {
                    let e = unknown_dependency_error(dep, pipeline_id);
                    proof {
                        assert(first_unknown(sdefs, k + 1) == Some(
                            GraphDefect::UnknownDependency { task: sdefs[k as int].id, dependency: dep },
                        ));
                        lemma_first_unknown_stays(sdefs, k + 1, n as int);
                    }
                    return Err(e);
                },
                Ok(()) => {},
            }
            k += 1;
        }
        proof {
            lemma_no_unknown(sdefs, n as int);
            lemma_edges_cycle(sdefs, graph_edges(graph));
        }
        // Last, the whole graph is checked for a cycle.
        if graph_is_cyclic(&graph) {
            return Err(cycle_error(pipeline_id));
        }
        let ghost edges = graph_edges(graph);
        let mut source_nodes: HashSet<u128> = HashSet::new();
        let mut sink_nodes: HashSet<u128> = HashSet::new();
        let mut i: usize = 0;
        while i < n
            invariant
                defs@ == sdefs,
                n == sdefs.len(),
                0 <= i <= n,
                graph_defect(sdefs) is None,
                graph_weights(graph) == ids_of(sdefs),
                graph_edges(graph) == edges,
                edges_follow_dependencies(sdefs, edges, n as int),
                dependencies_have_edges(sdefs, edges, n as int),
                forall|a: int, b: int| 0 <= a < b < n ==> sdefs[a].id != sdefs[b].id,
                forall|kk: int, d: u128|
                    0 <= kk < n && #[trigger] sdefs[kk].depends_on@.contains(d) ==> id_in_prefix(
                        sdefs,
                        n as int,
                        d,
                    ),
                source_nodes@ == Set::new(
                    |id: u128|
                        exists|k: int|
                            0 <= k < i && #[trigger] sdefs[k].id == id
                                && sdefs[k].depends_on@.len() == 0,
                ),
                sink_nodes@ == Set::new(
                    |id: u128|
                        exists|k: int|
                            0 <= k < i && #[trigger] sdefs[k].id == id && forall|m: int|
                                0 <= m < n ==> !(#[trigger] sdefs[m].depends_on@.contains(id)),
                ),
            decreases n - i,
        {
            let id = defs[i].id;
            let incoming = graph_neighbors(&graph, i, true);
            let outgoing = graph_neighbors(&graph, i, false);
            proof {
                lemma_incoming_sources(edges, i as int);
                lemma_outgoing_targets(edges, i as int);
                lemma_no_edges_in_iff_no_dependencies(sdefs, edges, i as int);
                lemma_no_edges_out_iff_no_dependents(sdefs, edges, i as int);
            }
            if incoming.len() == 0 {
                source_nodes.insert(id);
            }
            if outgoing.len() == 0 {
                sink_nodes.insert(id);
            }
            proof {
                assert(sdefs[i as int].id == id);
                assert(source_nodes@ =~= Set::new(
                    |id: u128|
                        exists|k: int|
                            0 <= k < i + 1 && #[trigger] sdefs[k].id == id
                                && sdefs[k].depends_on@.len() == 0,
                ));
                assert(sink_nodes@ =~= Set::new(
                    |id: u128|
                        exists|k: int|
                            0 <= k < i + 1 && #[trigger] sdefs[k].id == id && forall|m: int|
                                0 <= m < n ==> !(#[trigger] sdefs[m].depends_on@.contains(id)),
                ));
            }
            i += 1;
        }
        proof {
            assert(source_nodes@ =~= source_ids(sdefs));
            assert(sink_nodes@ =~= sink_ids(sdefs));
        }
        Ok(
            PipelineExecutionGraph {
                graph,
                task_definitions: defs,
                task_id_to_node_idx,
                sink_nodes,
                source_nodes,
            },
        )
    }
}

/// Adds to the graph the edges into task `k` from the tasks it depends on;
/// fails with the first dependency that names no task.
fn add_dependency_edges(
    graph: &mut TaskGraph,
    task_id_to_node_idx: &HashMap<u128, usize>,
    defs: &Vec<TaskDefinition>,
    k: usize,
) -> (r: Result<(), u128>)
    requires
        0 <= k < defs@.len(),
        defs@.len() < u32::MAX,
        dependency_count(defs@, k + 1) < u32::MAX,
        forall|i: int, j: int| 0 <= i < j < defs@.len() ==> defs@[i].id != defs@[j].id,
        graph_weights(*old(graph)) == ids_of(defs@),
        edges_follow_dependencies(defs@, graph_edges(*old(graph)), k as int),
        dependencies_have_edges(defs@, graph_edges(*old(graph)), k as int),
        graph_edges(*old(graph)).len() <= dependency_count(defs@, k as int),
        forall|i: int|
            0 <= i < defs@.len() ==> #[trigger] task_id_to_node_idx@.contains_key(defs@[i].id)
                && task_id_to_node_idx@[defs@[i].id] == i,
        forall|id: u128|
            #[trigger] task_id_to_node_idx@.contains_key(id) ==> id_in_prefix(
                defs@,
                defs@.len() as int,
                id,
            ),
    ensures
        graph_weights(*final(graph)) == graph_weights(*old(graph)),
        match r {
            Ok(()) => {
                &&& first_unknown_dependency(defs@, k as int, 0) is None
                &&& edges_follow_dependencies(defs@, graph_edges(*final(graph)), k + 1)
                &&& dependencies_have_edges(defs@, graph_edges(*final(graph)), k + 1)
                &&& graph_edges(*final(graph)).len() <= dependency_count(defs@, k + 1)
            },
            Err(dep) => first_unknown_dependency(defs@, k as int, 0) == Some(dep),
        },
{
    let ghost sdefs = defs@;
    let ghost n = sdefs.len() as int;
    let deps = &defs[k].depends_on;
    let node_idx = k;
    let mut j: usize = 0;
    while j < deps.len()
        invariant
            defs@ == sdefs,
            n == sdefs.len(),
            0 <= k < n,
            n < u32::MAX,
            dependency_count(sdefs, k + 1) < u32::MAX,
            deps == &sdefs[k as int].depends_on,
            node_idx == k,
            0 <= j <= deps.len(),
            forall|i: int, jj: int| 0 <= i < jj < n ==> sdefs[i].id != sdefs[jj].id,
            graph_weights(*graph) == ids_of(sdefs),
            graph_weights(*old(graph)) == ids_of(sdefs),
            edges_follow_dependencies(sdefs, graph_edges(*graph), k + 1),
            dependencies_have_edges(sdefs, graph_edges(*graph), k as int),
            forall|a: int|
                0 <= a < n && (exists|jj: int|
                    0 <= jj < j && #[trigger] deps@[jj] == sdefs[a].id) ==> graph_edges(
                    *graph,
                ).contains((a, k as int)),
            forall|jj: int| 0 <= jj < j ==> id_in_prefix(sdefs, n, #[trigger] deps@[jj]),
            graph_edges(*graph).len() <= dependency_count(sdefs, k as int) + j,
            forall|i: int|
                0 <= i < n ==> #[trigger] task_id_to_node_idx@.contains_key(sdefs[i].id)
                    && task_id_to_node_idx@[sdefs[i].id] == i,
            forall|id: u128|
                #[trigger] task_id_to_node_idx@.contains_key(id) ==> id_in_prefix(sdefs, n, id),
        decreases deps.len() - j,
    {
        let dep = deps[j];
        match task_id_to_node_idx.get(&dep) {
            None => {
                proof {
                    if id_in_prefix(sdefs, n, dep) {
                        let i = choose|i: int| 0 <= i < n && #[trigger] sdefs[i].id == dep;
                        assert(task_id_to_node_idx@.contains_key(sdefs[i].id));
                    }
                    lemma_first_unknown_found(sdefs, k as int, 0, j as int);
                }
                return Err(dep);
            },
            Some(from) => {
                let from = *from;
                let ghost old_edges = graph_edges(*graph);
                proof {
                    let i = choose|i: int| 0 <= i < n && #[trigger] sdefs[i].id == dep;
                    assert(task_id_to_node_idx@.contains_key(sdefs[i].id));
                    assert(from == i);
                }
                graph_add_edge(graph, from, node_idx);
                proof {
                    let edges = graph_edges(*graph);
                    assert(edges == old_edges.push((from as int, k as int)));
                    assert(edges.drop_last() =~= old_edges);
                    assert forall|a: int, b: int| #[trigger] edges.contains((a, b)) implies 0 <= a < n
                        && 0 <= b < k + 1 && b < n && sdefs[b].depends_on@.contains(sdefs[a].id) by {
                        lemma_contains_split(edges, (a, b));
                        if edges.last() == (a, b) {
                            assert(deps@[j as int] == sdefs[from as int].id);
                            assert(sdefs[b].depends_on@.contains(sdefs[a].id));
                        } else {
                            assert(old_edges.contains((a, b)));
                        }
                    }
                    assert forall|a: int, b: int|
                        0 <= a < n && 0 <= b < k && b < n && #[trigger] sdefs[b].depends_on@.contains(
                            #[trigger] sdefs[a].id,
                        ) implies edges.contains((a, b)) by {
                        assert(old_edges.contains((a, b)));
                        lemma_contains_split(edges, (a, b));
                    }
                    assert forall|a: int|
                        0 <= a < n && (exists|jj: int|
                            0 <= jj < j + 1 && #[trigger] deps@[jj] == sdefs[a].id) implies edges.contains(
                        (a, k as int),
                    ) by {
                        lemma_contains_split(edges, (a, k as int));
                        let jj = choose|jj: int| 0 <= jj < j + 1 && #[trigger] deps@[jj] == sdefs[a].id;
                        if jj < j {
                            assert(old_edges.contains((a, k as int)));
                        } else if a != from {
                            assert(sdefs[a].id == sdefs[from as int].id);
                            if a < from {
                                assert(sdefs[a].id != sdefs[from as int].id);
                            } else {
                                assert(sdefs[from as int].id != sdefs[a].id);
                            }
                        }
                    }
                    assert(id_in_prefix(sdefs, n, deps@[j as int])) by {
                        assert(sdefs[from as int].id == dep);
                    }
                }
            },
        }
        j += 1;
    }
    proof {
        lemma_first_unknown_none(sdefs, k as int, 0);
        let edges = graph_edges(*graph);
        assert forall|a: int, b: int|
            0 <= a < n && 0 <= b < k + 1 && b < n && #[trigger] sdefs[b].depends_on@.contains(
                #[trigger] sdefs[a].id,
            ) implies edges.contains((a, b)) by {
            if b == k {
                let jj = choose|jj: int| 0 <= jj < deps@.len() && deps@[jj] == sdefs[a].id;
                assert(deps@[jj] == sdefs[a].id);
            }
        }
        assert(dependency_count(sdefs, k + 1) == dependency_count(sdefs, k as int) + deps@.len());
    }
    Ok(())
}

/// A task has no incoming edge exactly when it has no dependency.
proof fn lemma_no_edges_in_iff_no_dependencies(
    defs: Seq<TaskDefinition>,
    edges: Seq<(int, int)>,
    i: int,
)
    requires
        0 <= i < defs.len(),
        edges_follow_dependencies(defs, edges, defs.len() as int),
        dependencies_have_edges(defs, edges, defs.len() as int),
        forall|kk: int, d: u128|
            0 <= kk < defs.len() && #[trigger] defs[kk].depends_on@.contains(d) ==> id_in_prefix(
                defs,
                defs.len() as int,
                d,
            ),
    ensures
        (forall|x: int| !edges.contains((x, i))) <==> defs[i].depends_on@.len() == 0,
{
    if defs[i].depends_on@.len() != 0 {
        let d = defs[i].depends_on@[0];
        assert(defs[i].depends_on@.contains(d));
        let a = choose|a: int| 0 <= a < defs.len() && #[trigger] defs[a].id == d;
        assert(edges.contains((a, i)));
    }
    if exists|x: int| edges.contains((x, i)) {
        let x = choose|x: int| edges.contains((x, i));
        assert(defs[i].depends_on@.contains(defs[x].id));
    }
}

/// A task has no outgoing edge exactly when no task depends on it.
proof fn lemma_no_edges_out_iff_no_dependents(
    defs: Seq<TaskDefinition>,
    edges: Seq<(int, int)>,
    i: int,
)
    requires
        0 <= i < defs.len(),
        edges_follow_dependencies(defs, edges, defs.len() as int),
        dependencies_have_edges(defs, edges, defs.len() as int),
        forall|a: int, b: int| 0 <= a < b < defs.len() ==> defs[a].id != defs[b].id,
        forall|kk: int, d: u128|
            0 <= kk < defs.len() && #[trigger] defs[kk].depends_on@.contains(d) ==> id_in_prefix(
                defs,
                defs.len() as int,
                d,
            ),
    ensures
        (forall|x: int| !edges.contains((i, x))) <==> forall|m: int|
            0 <= m < defs.len() ==> !(#[trigger] defs[m].depends_on@.contains(defs[i].id)),
{
    if exists|m: int| 0 <= m < defs.len() && #[trigger] defs[m].depends_on@.contains(defs[i].id) {
        let m = choose|m: int| 0 <= m < defs.len() && #[trigger] defs[m].depends_on@.contains(defs[i].id);
        let a = choose|a: int| 0 <= a < defs.len() && #[trigger] defs[a].id == defs[i].id;
        if a != i {
            if a < i {
                assert(defs[a].id != defs[i].id);
            } else {
                assert(defs[i].id != defs[a].id);
            }
        }
        assert(edges.contains((i, m)));
    }
    if exists|x: int| edges.contains((i, x)) {
        let x = choose|x: int| edges.contains((i, x));
        assert(defs[x].depends_on@.contains(defs[i].id));
    }
}

/// The dependency count grows with the number of tasks counted.
proof fn lemma_dependency_count_grows(defs: Seq<TaskDefinition>, m: int, n: int)
    requires
        0 <= m <= n,
    ensures
        dependency_count(defs, m) <= dependency_count(defs, n),
    decreases n - m,
{
    if m < n {
        lemma_dependency_count_grows(defs, m, n - 1);
    }
}

} // verus!

verus! {

// ---------------------------------------------------------------------
// Readiness and completion of the tasks of a run.
// ---------------------------------------------------------------------

/// The status recorded for task `id`, if one is.
pub open spec fn state_of(states: Map<u128, TaskRunStatus>, id: u128) -> Option<TaskRunStatus> {
    if states.contains_key(id) {
        Some(states[id])
    } else {
        None
    }
}

/// A task is ready when it is pending and every task it depends on has
/// succeeded.
pub open spec fn task_is_ready(t: TaskDefinition, states: Map<u128, TaskRunStatus>) -> bool {
    &&& state_of(states, t.id) == Some(TaskRunStatus::Pending)
    &&& forall|j: int|
        0 <= j < t.depends_on@.len() ==> state_of(states, #[trigger] t.depends_on@[j]) == Some(
            TaskRunStatus::Succeeded,
        )
}

/// The ids of the ready tasks among the first `n`, in order.
pub open spec fn ready_task_ids(
    defs: Seq<TaskDefinition>,
    states: Map<u128, TaskRunStatus>,
    n: int,
) -> Seq<u128>
    decreases n,
{
    if n <= 0 {
        Seq::empty()
    } else {
        let rest = ready_task_ids(defs, states, n - 1);
        if task_is_ready(defs[n - 1], states) {
            rest.push(defs[n - 1].id)
        } else {
            rest
        }
    }
}

/// A status after which a task runs no more.
pub open spec fn is_settled(s: Option<TaskRunStatus>) -> bool {
    s == Some(TaskRunStatus::Succeeded) || s == Some(TaskRunStatus::Failed) || s == Some(
        TaskRunStatus::Cancelled,
    ) || s == Some(TaskRunStatus::Skipped)
}

/// A settled status other than success.
pub open spec fn is_unsuccessful(s: Option<TaskRunStatus>) -> bool {
    s == Some(TaskRunStatus::Failed) || s == Some(TaskRunStatus::Cancelled) || s == Some(
        TaskRunStatus::Skipped,
    )
}

/// The final status of a run whose tasks have the given statuses: none
/// while some task has not settled (or has no status), failure when some
/// task settled without success, success otherwise (and for a pipeline
/// without tasks).
pub open spec fn completion_status(
    defs: Seq<TaskDefinition>,
    states: Map<u128, TaskRunStatus>,
) -> Option<PipelineRunStatus> {
    if defs.len() == 0 {
        Some(PipelineRunStatus::Succeeded)
    } else if exists|k: int|
        0 <= k < defs.len() && !is_settled(state_of(states, #[trigger] defs[k].id)) {
        None
    } else if exists|k: int|
        0 <= k < defs.len() && is_unsuccessful(state_of(states, #[trigger] defs[k].id)) {
        Some(PipelineRunStatus::Failed)
    } else {
        Some(PipelineRunStatus::Succeeded)
    }
}

/// What the ready tasks among the first `n` are: each is the id of one of
/// those tasks whose recorded status is `Pending` and whose dependencies
/// have all recorded `Succeeded`; and each such task's id is among them.
proof fn lemma_ready_ids_prefix(defs: Seq<TaskDefinition>, states: Map<u128, TaskRunStatus>, n: int)
    requires
        0 <= n <= defs.len(),
    ensures
        forall|i: int|
            0 <= i < ready_task_ids(defs, states, n).len() ==> states.contains_key(
                #[trigger] ready_task_ids(defs, states, n)[i],
            ) && states[ready_task_ids(defs, states, n)[i]] == TaskRunStatus::Pending,
        forall|i: int|
            #![trigger ready_task_ids(defs, states, n)[i]]
            0 <= i < ready_task_ids(defs, states, n).len() ==> exists|k: int|
                0 <= k < n && #[trigger] defs[k].id == ready_task_ids(defs, states, n)[i] && forall|j: int|
                    0 <= j < defs[k].depends_on@.len() ==> states.contains_key(
                        #[trigger] defs[k].depends_on@[j],
                    ) && states[defs[k].depends_on@[j]] == TaskRunStatus::Succeeded,
        forall|k: int|
            0 <= k < n && states.contains_key(#[trigger] defs[k].id) && states[defs[k].id]
                == TaskRunStatus::Pending && (forall|j: int|
                0 <= j < defs[k].depends_on@.len() ==> states.contains_key(
                    #[trigger] defs[k].depends_on@[j],
                ) && states[defs[k].depends_on@[j]] == TaskRunStatus::Succeeded) ==> ready_task_ids(
                defs,
                states,
                n,
            ).contains(defs[k].id),
    decreases n,
{
    if n > 0 {
        lemma_ready_ids_prefix(defs, states, n - 1);
        let rest = ready_task_ids(defs, states, n - 1);
        let r = ready_task_ids(defs, states, n);
        let t = defs[n - 1];
        if task_is_ready(t, states) {
            assert(r == rest.push(t.id));
            assert forall|i: int| #![trigger r[i]] 0 <= i < r.len() implies exists|k: int|
                0 <= k < n && #[trigger] defs[k].id == r[i] && forall|j: int|
                    0 <= j < defs[k].depends_on@.len() ==> states.contains_key(
                        #[trigger] defs[k].depends_on@[j],
                    ) && states[defs[k].depends_on@[j]] == TaskRunStatus::Succeeded by {
                if i < rest.len() {
                    assert(r[i] == rest[i]);
                    let k = choose|k: int|
                        0 <= k < n - 1 && #[trigger] defs[k].id == rest[i] && forall|j: int|
                            0 <= j < defs[k].depends_on@.len() ==> states.contains_key(
                                #[trigger] defs[k].depends_on@[j],
                            ) && states[defs[k].depends_on@[j]] == TaskRunStatus::Succeeded;
                    assert(defs[k].id == r[i]);
                } else {
                    assert(r[i] == t.id);
                    assert forall|j: int| 0 <= j < t.depends_on@.len() implies states.contains_key(
                        #[trigger] t.depends_on@[j],
                    ) && states[t.depends_on@[j]] == TaskRunStatus::Succeeded by {
                        assert(state_of(states, t.depends_on@[j]) == Some(TaskRunStatus::Succeeded));
                    }
                    assert(defs[n - 1].id == r[i]);
                }
            }
            assert forall|k: int|
                0 <= k < n && states.contains_key(#[trigger] defs[k].id) && states[defs[k].id]
                    == TaskRunStatus::Pending && (forall|j: int|
                    0 <= j < defs[k].depends_on@.len() ==> states.contains_key(
                        #[trigger] defs[k].depends_on@[j],
                    ) && states[defs[k].depends_on@[j]] == TaskRunStatus::Succeeded) implies r.contains(
                defs[k].id,
            ) by {
                if k < n - 1 {
                    assert(rest.contains(defs[k].id));
                    let q = choose|q: int| 0 <= q < rest.len() && rest[q] == defs[k].id;
                    assert(r[q] == rest[q]);
                } else {
                    assert(r[rest.len() as int] == t.id);
                }
            }
        } else {
            assert(r == rest);
            assert forall|k: int|
                0 <= k < n && states.contains_key(#[trigger] defs[k].id) && states[defs[k].id]
                    == TaskRunStatus::Pending && (forall|j: int|
                    0 <= j < defs[k].depends_on@.len() ==> states.contains_key(
                        #[trigger] defs[k].depends_on@[j],
                    ) && states[defs[k].depends_on@[j]] == TaskRunStatus::Succeeded) implies r.contains(
                defs[k].id,
            ) by {
                if k == n - 1 {
                    assert(task_is_ready(t, states));
                }
            }
            assert forall|i: int| #![trigger r[i]] 0 <= i < r.len() implies exists|k: int|
                0 <= k < n && #[trigger] defs[k].id == r[i] && forall|j: int|
                    0 <= j < defs[k].depends_on@.len() ==> states.contains_key(
                        #[trigger] defs[k].depends_on@[j],
                    ) && states[defs[k].depends_on@[j]] == TaskRunStatus::Succeeded by {
                let k = choose|k: int|
                    0 <= k < n - 1 && #[trigger] defs[k].id == rest[i] && forall|j: int|
                        0 <= j < defs[k].depends_on@.len() ==> states.contains_key(
                            #[trigger] defs[k].depends_on@[j],
                        ) && states[defs[k].depends_on@[j]] == TaskRunStatus::Succeeded;
            }
        }
    }
}

/// The ready tasks of a run are exactly the tasks whose recorded status is
/// `Pending` and all of whose dependencies have recorded `Succeeded`: no
/// task in any other status (queued, running, retrying, cancelling or
/// settled) is ever ready, nor one with a dependency that has not succeeded.
pub proof fn law_ready_tasks_are_pending_with_succeeded_dependencies(
    defs: Seq<TaskDefinition>,
    states: Map<u128, TaskRunStatus>,
)
    ensures
        forall|i: int|
            0 <= i < ready_task_ids(defs, states, defs.len() as int).len() ==> states.contains_key(
                #[trigger] ready_task_ids(defs, states, defs.len() as int)[i],
            ) && states[ready_task_ids(defs, states, defs.len() as int)[i]] == TaskRunStatus::Pending,
        forall|i: int|
            #![trigger ready_task_ids(defs, states, defs.len() as int)[i]]
            0 <= i < ready_task_ids(defs, states, defs.len() as int).len() ==> exists|k: int|
                0 <= k < defs.len() && #[trigger] defs[k].id == ready_task_ids(
                    defs,
                    states,
                    defs.len() as int,
                )[i] && forall|j: int|
                    0 <= j < defs[k].depends_on@.len() ==> states.contains_key(
                        #[trigger] defs[k].depends_on@[j],
                    ) && states[defs[k].depends_on@[j]] == TaskRunStatus::Succeeded,
        forall|k: int|
            0 <= k < defs.len() && states.contains_key(#[trigger] defs[k].id) && states[defs[k].id]
                == TaskRunStatus::Pending && (forall|j: int|
                0 <= j < defs[k].depends_on@.len() ==> states.contains_key(
                    #[trigger] defs[k].depends_on@[j],
                ) && states[defs[k].depends_on@[j]] == TaskRunStatus::Succeeded) ==> ready_task_ids(
                defs,
                states,
                defs.len() as int,
            ).contains(defs[k].id),
{
    lemma_ready_ids_prefix(defs, states, defs.len() as int);
}

/// The final status of a run: `Succeeded` exactly when every task recorded
/// `Succeeded`; `Failed` exactly when every task recorded a settled status
/// (succeeded, failed, cancelled or skipped) and some task failed, was
/// cancelled or was skipped; none exactly while some task has no status or
/// one that is not settled.
pub proof fn law_run_outcome_follows_task_statuses(
    defs: Seq<TaskDefinition>,
    states: Map<u128, TaskRunStatus>,
)
    ensures
        (completion_status(defs, states) == Some(PipelineRunStatus::Succeeded)) <==> forall|k: int|
            0 <= k < defs.len() ==> states.contains_key(#[trigger] defs[k].id) && states[defs[k].id]
                == TaskRunStatus::Succeeded,
        (completion_status(defs, states) == Some(PipelineRunStatus::Failed)) <==> ((forall|k: int|
            0 <= k < defs.len() ==> states.contains_key(#[trigger] defs[k].id) && (states[defs[k].id]
                == TaskRunStatus::Succeeded || states[defs[k].id] == TaskRunStatus::Failed
                || states[defs[k].id] == TaskRunStatus::Cancelled || states[defs[k].id]
                == TaskRunStatus::Skipped)) && exists|k: int|
            0 <= k < defs.len() && states.contains_key(#[trigger] defs[k].id) && (states[defs[k].id]
                == TaskRunStatus::Failed || states[defs[k].id] == TaskRunStatus::Cancelled
                || states[defs[k].id] == TaskRunStatus::Skipped)),
        completion_status(defs, states) is None <==> exists|k: int|
            0 <= k < defs.len() && !(states.contains_key(#[trigger] defs[k].id) && (states[defs[k].id]
                == TaskRunStatus::Succeeded || states[defs[k].id] == TaskRunStatus::Failed
                || states[defs[k].id] == TaskRunStatus::Cancelled || states[defs[k].id]
                == TaskRunStatus::Skipped)),
        completion_status(defs, states) is None || completion_status(defs, states) == Some(
            PipelineRunStatus::Succeeded,
        ) || completion_status(defs, states) == Some(PipelineRunStatus::Failed),
{
    if defs.len() > 0 {
        if forall|k: int|
            0 <= k < defs.len() ==> states.contains_key(#[trigger] defs[k].id) && states[defs[k].id]
                == TaskRunStatus::Succeeded {
            assert forall|k: int| 0 <= k < defs.len() implies is_settled(
                state_of(states, #[trigger] defs[k].id),
            ) && !is_unsuccessful(state_of(states, defs[k].id)) by {
                assert(states.contains_key(defs[k].id));
            }
        }
        if completion_status(defs, states) == Some(PipelineRunStatus::Succeeded) {
            assert forall|k: int| 0 <= k < defs.len() implies states.contains_key(
                #[trigger] defs[k].id,
            ) && states[defs[k].id] == TaskRunStatus::Succeeded by {
                assert(is_settled(state_of(states, defs[k].id)));
                assert(!is_unsuccessful(state_of(states, defs[k].id)));
            }
        }
    }
}

impl PipelineExecutionGraph {
    proof fn lemma_wf_facts(&self)
        requires
            self.wf(),
        ensures
            forall|a: int, b: int|
                0 <= a < b < self.tasks().len() ==> self.tasks()[a].id != self.tasks()[b].id,
            forall|kk: int, d: u128|
                0 <= kk < self.tasks().len() && #[trigger] self.tasks()[kk].depends_on@.contains(d)
                    ==> id_in_prefix(self.tasks(), self.tasks().len() as int, d),
            !has_dependency_cycle(self.tasks()),
    {
        let defs = self.tasks();
        lemma_no_duplicate(defs, defs.len() as int);
        lemma_no_unknown(defs, defs.len() as int);
    }

    /// The definition of task `task_def_id`, if the graph has that task.
    pub fn get_task_definition(&self, task_def_id: u128) -> (r: Option<&TaskDefinition>)
        requires
            self.wf(),
        ensures
            r == if id_in_prefix(self.tasks(), self.tasks().len() as int, task_def_id) {
                Some(&self.tasks()[task_index(self.tasks(), task_def_id)])
            } else {
                None::<&TaskDefinition>
            },
    {
        proof {
            self.lemma_wf_facts();
        }
        match self.task_id_to_node_idx.get(&task_def_id) {
            Some(node_idx) => {
                let i = *node_idx;
                proof {
                    let k = task_index(self.tasks(), task_def_id);
                    assert(id_in_prefix(self.tasks(), self.tasks().len() as int, task_def_id));
                    assert(self.task_id_to_node_idx@.contains_key(self.tasks()[k].id));
                }
                Some(&self.task_definitions[i])
            },
            None => {
                proof {
                    if id_in_prefix(self.tasks(), self.tasks().len() as int, task_def_id) {
                        let k = choose|k: int|
                            0 <= k < self.tasks().len() && #[trigger] self.tasks()[k].id == task_def_id;
                        assert(self.task_id_to_node_idx@.contains_key(self.tasks()[k].id));
                    }
                }
                None
            },
        }
    }

    /// The ids of all tasks of the graph, in the order of the definition.
    pub fn get_all_task_ids(&self) -> (r: Vec<u128>)
        requires
            self.wf(),
        ensures
            r@ == ids_of(self.tasks()),
    {
        let n = graph_node_count(&self.graph);
        let mut ids: Vec<u128> = Vec::new();
        let mut i: usize = 0;
        while i < n
            invariant
                self.wf(),
                n == self.tasks().len(),
                0 <= i <= n,
                ids@ == ids_of(self.tasks()).take(i as int),
            decreases n - i,
        {
            let w = graph_node_weight(&self.graph, i);
            match w {
                Some(id) => {
                    ids.push(id);
                },
                None => {},
            }
            proof {
                assert(ids@ =~= ids_of(self.tasks()).take(i + 1));
            }
            i += 1;
        }
        proof {
            assert(ids_of(self.tasks()).take(n as int) =~= ids_of(self.tasks()));
        }
        ids
    }

    /// The ids of the tasks that depend on no task: those that can start
    /// first.
    pub fn get_source_task_ids(&self) -> (r: &HashSet<u128>)
        requires
            self.wf(),
        ensures
            r@ == source_ids(self.tasks()),
    {
        &self.source_nodes
    }

    /// The ids of the tasks that are pending and whose dependencies have all
    /// succeeded, in the order of the definition.
    pub fn get_ready_tasks(&self, current_task_states: &HashMap<u128, TaskRunStatus>) -> (r: Vec<
        u128,
    >)
        requires
            self.wf(),
        ensures
            r@ == ready_task_ids(self.tasks(), current_task_states@, self.tasks().len() as int),
            forall|i: int|
                0 <= i < r@.len() ==> current_task_states@.contains_key(#[trigger] r@[i])
                    && current_task_states@[r@[i]] == TaskRunStatus::Pending,
    {
        let ghost defs = self.tasks();
        let ghost states = current_task_states@;
        proof {
            self.lemma_wf_facts();
        }
        let n = graph_node_count(&self.graph);
        let mut ready_tasks: Vec<u128> = Vec::new();
        let mut k: usize = 0;
        while k < n
            invariant
                self.wf(),
                defs == self.tasks(),
                states == current_task_states@,
                n == defs.len(),
                0 <= k <= n,
                ready_tasks@ == ready_task_ids(defs, states, k as int),
                forall|a: int, b: int| 0 <= a < b < defs.len() ==> defs[a].id != defs[b].id,
                forall|kk: int, d: u128|
                    0 <= kk < defs.len() && #[trigger] defs[kk].depends_on@.contains(d)
                        ==> id_in_prefix(defs, defs.len() as int, d),
            decreases n - k,
        {
            let task_def_id = match graph_node_weight(&self.graph, k) {
                Some(id) => id,
                None => 0,
            };
            proof {
                assert(task_def_id == defs[k as int].id);
            }
            match current_task_states.get(&task_def_id) {
                Some(TaskRunStatus::Pending) => {
                    let predecessors = graph_neighbors(&self.graph, k, true);
                    proof {
                        lemma_incoming_sources(graph_edges(self.graph), k as int);
                    }
                    let mut dependencies_met = true;
                    let mut p: usize = 0;
                    while p < predecessors.len()
                        invariant
                            self.wf(),
                            defs == self.tasks(),
                            states == current_task_states@,
                            n == defs.len(),
                            0 <= k < n,
                            0 <= p <= predecessors.len(),
                            predecessors@.map_values(|i: usize| i as int) == incoming_sources(
                                graph_edges(self.graph),
                                k as int,
                            ),
                            dependencies_met ==> forall|q: int|
                                0 <= q < p ==> state_of(
                                    states,
                                    defs[#[trigger] predecessors@[q] as int].id,
                                ) == Some(TaskRunStatus::Succeeded),
                            !dependencies_met ==> exists|q: int|
                                0 <= q < predecessors@.len() && state_of(
                                    states,
                                    defs[#[trigger] predecessors@[q] as int].id,
                                ) != Some(TaskRunStatus::Succeeded),
                        ensures
                            dependencies_met ==> forall|q: int|
                                0 <= q < predecessors@.len() ==> state_of(
                                    states,
                                    defs[#[trigger] predecessors@[q] as int].id,
                                ) == Some(TaskRunStatus::Succeeded),
                            !dependencies_met ==> exists|q: int|
                                0 <= q < predecessors@.len() && state_of(
                                    states,
                                    defs[#[trigger] predecessors@[q] as int].id,
                                ) != Some(TaskRunStatus::Succeeded),
                        decreases predecessors.len() - p,
                    {
                        let pred = predecessors[p];
                        proof {
                            lemma_incoming_sources(graph_edges(self.graph), k as int);
                            let x = pred as int;
                            assert(incoming_sources(graph_edges(self.graph), k as int)[p as int] == x);
                            assert(incoming_sources(graph_edges(self.graph), k as int).contains(x));
                            assert(graph_edges(self.graph).contains((x, k as int)));
                        }
                        let dep_task_id = match graph_node_weight(&self.graph, pred) {
                            Some(id) => id,
                            None => 0,
                        };
                        match current_task_states.get(&dep_task_id) {
                            Some(TaskRunStatus::Succeeded) => {},
                            _ => {
                                dependencies_met = false;
                                break;
                            },
                        }
                        p += 1;
                    }
                    proof {
                        self.lemma_readiness_by_predecessors(states, k as int, predecessors@, dependencies_met);
                    }
                    if dependencies_met {
                        ready_tasks.push(task_def_id);
                    }
                },
                _ => {},
            }
            k += 1;
        }
        proof {
            law_ready_tasks_are_pending_with_succeeded_dependencies(defs, states);
        }
        ready_tasks
    }

    /// Whether all predecessors of node `k` succeeded decides whether task
    /// `k` is ready (given that it is pending).
    proof fn lemma_readiness_by_predecessors(
        &self,
        states: Map<u128, TaskRunStatus>,
        k: int,
        predecessors: Seq<usize>,
        all_succeeded: bool,
    )
        requires
            self.wf(),
            0 <= k < self.tasks().len(),
            state_of(states, self.tasks()[k].id) == Some(TaskRunStatus::Pending),
            predecessors.map_values(|i: usize| i as int) == incoming_sources(graph_edges(self.graph), k),
            all_succeeded ==> forall|q: int|
                0 <= q < predecessors.len() ==> state_of(
                    states,
                    self.tasks()[#[trigger] predecessors[q] as int].id,
                ) == Some(TaskRunStatus::Succeeded),
            !all_succeeded ==> exists|q: int|
                0 <= q < predecessors.len() && state_of(
                    states,
                    self.tasks()[#[trigger] predecessors[q] as int].id,
                ) != Some(TaskRunStatus::Succeeded),
        ensures
            task_is_ready(self.tasks()[k], states) == all_succeeded,
    {
        let defs = self.tasks();
        let edges = graph_edges(self.graph);
        self.lemma_wf_facts();
        lemma_incoming_sources(edges, k);
        let inc = incoming_sources(edges, k);
        let t = defs[k];
        if all_succeeded {
            assert forall|j: int| 0 <= j < t.depends_on@.len() implies state_of(
                states,
                #[trigger] t.depends_on@[j],
            ) == Some(TaskRunStatus::Succeeded) by {
                let d = t.depends_on@[j];
                assert(t.depends_on@.contains(d));
                let a = choose|a: int| 0 <= a < defs.len() && #[trigger] defs[a].id == d;
                assert(edges.contains((a, k)));
                assert(inc.contains(a));
                let q = choose|q: int| 0 <= q < inc.len() && inc[q] == a;
                assert(predecessors[q] as int == a);
            }
        } else {
            let q = choose|q: int|
                0 <= q < predecessors.len() && state_of(
                    states,
                    defs[#[trigger] predecessors[q] as int].id,
                ) != Some(TaskRunStatus::Succeeded);
            let a = predecessors[q] as int;
            assert(inc[q] == a);
            assert(inc.contains(a));
            assert(edges.contains((a, k)));
            assert(t.depends_on@.contains(defs[a].id));
            let j = choose|j: int| 0 <= j < t.depends_on@.len() && t.depends_on@[j] == defs[a].id;
            assert(state_of(states, t.depends_on@[j]) != Some(TaskRunStatus::Succeeded));
        }
    }

    /// The final status of the run, once every task has settled: `Failed`
    /// when some task failed, was cancelled or was skipped, `Succeeded`
    /// otherwise; `None` while some task has not settled.
    pub fn is_pipeline_complete(&self, current_task_states: &HashMap<u128, TaskRunStatus>) -> (r:
        Option<PipelineRunStatus>)
        requires
            self.wf(),
        ensures
            r == completion_status(self.tasks(), current_task_states@),
            (r == Some(PipelineRunStatus::Succeeded)) <==> forall|k: int|
                0 <= k < self.tasks().len() ==> current_task_states@.contains_key(
                    #[trigger] self.tasks()[k].id,
                ) && current_task_states@[self.tasks()[k].id] == TaskRunStatus::Succeeded,
    {
        proof {
            law_run_outcome_follows_task_statuses(self.tasks(), current_task_states@);
        }
        let ghost defs = self.tasks();
        let ghost states = current_task_states@;
        let n = graph_node_count(&self.graph);
        if n == 0 {
            return Some(PipelineRunStatus::Succeeded);
        }
        let mut all_tasks_accounted_for = true;
        let mut any_task_failed = false;
        let mut k: usize = 0;
        while k < n
            invariant
                self.wf(),
                defs == self.tasks(),
                states == current_task_states@,
                n == defs.len(),
                0 <= k <= n,
                all_tasks_accounted_for ==> forall|kk: int|
                    0 <= kk < k ==> is_settled(state_of(states, #[trigger] defs[kk].id)),
                !all_tasks_accounted_for ==> exists|kk: int|
                    0 <= kk < n && !is_settled(state_of(states, #[trigger] defs[kk].id)),
                any_task_failed == exists|kk: int|
                    0 <= kk < k && is_unsuccessful(state_of(states, #[trigger] defs[kk].id)),
            ensures
                all_tasks_accounted_for ==> forall|kk: int|
                    0 <= kk < n ==> is_settled(state_of(states, #[trigger] defs[kk].id)),
                !all_tasks_accounted_for ==> exists|kk: int|
                    0 <= kk < n && !is_settled(state_of(states, #[trigger] defs[kk].id)),
                all_tasks_accounted_for ==> (any_task_failed == exists|kk: int|
                    0 <= kk < n && is_unsuccessful(state_of(states, #[trigger] defs[kk].id))),
            decreases n - k,
        {
            let task_def_id = match graph_node_weight(&self.graph, k) {
                Some(id) => id,
                None => 0,
            };
            proof {
                assert(task_def_id == defs[k as int].id);
            }
            match current_task_states.get(&task_def_id) {
                Some(TaskRunStatus::Succeeded) => {},
                Some(TaskRunStatus::Failed) | Some(TaskRunStatus::Cancelled) | Some(
                    TaskRunStatus::Skipped,
                ) => {
                    any_task_failed = true;
                },
                _ => {
                    all_tasks_accounted_for = false;
                    break;
                },
            }
            k += 1;
        }
        if all_tasks_accounted_for {
            if any_task_failed {
                Some(PipelineRunStatus::Failed)
            } else {
                Some(PipelineRunStatus::Succeeded)
            }
        } else {
            None
        }
    }
}

} // verus!

verus! {

// ---------------------------------------------------------------------
// Laws of the execution graph.
// ---------------------------------------------------------------------

/// A task id is among the ready ones exactly when its task is ready.
proof fn lemma_ready_membership(
    defs: Seq<TaskDefinition>,
    states: Map<u128, TaskRunStatus>,
    n: int,
    k: int,
)
    requires
        0 <= k < n <= defs.len(),
        forall|a: int, b: int| 0 <= a < b < defs.len() ==> defs[a].id != defs[b].id,
    ensures
        ready_task_ids(defs, states, n).contains(defs[k].id) <==> task_is_ready(defs[k], states),
    decreases n,
{
    let rest = ready_task_ids(defs, states, n - 1);
    if k < n - 1 {
        lemma_ready_membership(defs, states, n - 1, k);
        if task_is_ready(defs[n - 1], states) {
            assert(rest.push(defs[n - 1].id).drop_last() =~= rest);
            lemma_push_contains(rest, defs[n - 1].id, defs[k].id);
        }
    } else {
        if rest.contains(defs[k].id) {
            lemma_ready_ids_from_prefix(defs, states, n - 1, defs[k].id);
            let i = choose|i: int| 0 <= i < n - 1 && #[trigger] defs[i].id == defs[k].id;
            assert(defs[i].id != defs[k].id);
        }
        if task_is_ready(defs[n - 1], states) {
            lemma_push_contains(rest, defs[n - 1].id, defs[k].id);
        }
    }
}

/// The ready ids among the first `n` tasks are ids of those tasks.
proof fn lemma_ready_ids_from_prefix(
    defs: Seq<TaskDefinition>,
    states: Map<u128, TaskRunStatus>,
    n: int,
    id: u128,
)
    requires
        0 <= n <= defs.len(),
        ready_task_ids(defs, states, n).contains(id),
    ensures
        id_in_prefix(defs, n, id),
    decreases n,
{
    if n > 0 {
        let rest = ready_task_ids(defs, states, n - 1);
        if task_is_ready(defs[n - 1], states) {
            lemma_push_contains(rest, defs[n - 1].id, id);
            if id != defs[n - 1].id {
                lemma_ready_ids_from_prefix(defs, states, n - 1, id);
            }
        } else {
            lemma_ready_ids_from_prefix(defs, states, n - 1, id);
        }
    }
}

proof fn lemma_push_contains(s: Seq<u128>, x: u128, y: u128)
    ensures
        s.push(x).contains(y) <==> s.contains(y) || x == y,
{
    if s.push(x).contains(y) {
        let i = choose|i: int| 0 <= i < s.push(x).len() && s.push(x)[i] == y;
        if i < s.len() {
            assert(s[i] == y);
        }
    }
    if s.contains(y) {
        let i = choose|i: int| 0 <= i < s.len() && s[i] == y;
        assert(s.push(x)[i] == y);
    }
    if x == y {
        assert(s.push(x)[s.len() as int] == y);
    }
}

/// The execution graph follows the dependencies and has no cycle: every
/// edge runs from a task to a task that depends on it, and no walk along
/// the edges comes back to where it started.
pub proof fn law_execution_graph_is_acyclic(g: &PipelineExecutionGraph)
    requires
        g.wf(),
    ensures
        forall|a: int, b: int| #[trigger] g.edges().contains((a, b)) ==> depends_edge(g.tasks(), a, b),
        !has_cycle(g.edges()),
{
    g.lemma_wf_facts();
    let defs = g.tasks();
    let edges = g.edges();
    lemma_edges_cycle(defs, edges);
}

/// A list of task definitions builds an execution graph exactly when its
/// ids are distinct, every dependency names one of its tasks, and the
/// dependencies run in no circle, whatever the order of the list; a list
/// whose only fault is a repeated id is refused for that id.
pub proof fn law_graph_defect_characterized(defs: Seq<TaskDefinition>)
    ensures
        graph_defect(defs) is None <==> {
            &&& forall|i: int, j: int| 0 <= i < j < defs.len() ==> defs[i].id != defs[j].id
            &&& forall|k: int, d: u128|
                0 <= k < defs.len() && #[trigger] defs[k].depends_on@.contains(d) ==> id_in_prefix(
                    defs,
                    defs.len() as int,
                    d,
                )
            &&& !has_dependency_cycle(defs)
        },
        first_duplicate(defs, defs.len() as int) is Some ==> graph_defect(defs) matches Some(
            GraphDefect::DuplicateTask { .. },
        ),
{
    let n = defs.len() as int;
    if first_duplicate(defs, n) is None {
        lemma_no_duplicate(defs, n);
        if first_unknown(defs, n) is None {
            lemma_no_unknown(defs, n);
        } else {
            lemma_unknown_found_somewhere(defs, n);
        }
    } else {
        lemma_duplicate_found_somewhere(defs, n);
    }
}

/// A repeated id among the first `n` tasks is a pair of tasks with one id.
proof fn lemma_duplicate_found_somewhere(defs: Seq<TaskDefinition>, n: int)
    requires
        0 <= n <= defs.len(),
        first_duplicate(defs, n) is Some,
    ensures
        first_duplicate(defs, n) matches Some(GraphDefect::DuplicateTask { .. }),
        exists|i: int, j: int| 0 <= i < j < n && defs[i].id == defs[j].id,
    decreases n,
{
    if first_duplicate(defs, n - 1) is Some {
        lemma_duplicate_found_somewhere(defs, n - 1);
    } else {
        let i = choose|i: int| 0 <= i < n - 1 && #[trigger] defs[i].id == defs[n - 1].id;
        assert(defs[i].id == defs[n - 1].id);
    }
}

/// An unknown dependency among those of the first `n` tasks is one that
/// names no task.
proof fn lemma_unknown_found_somewhere(defs: Seq<TaskDefinition>, n: int)
    requires
        0 <= n <= defs.len(),
        first_unknown(defs, n) is Some,
    ensures
        exists|k: int, d: u128|
            0 <= k < n && #[trigger] defs[k].depends_on@.contains(d) && !id_in_prefix(
                defs,
                defs.len() as int,
                d,
            ),
    decreases n,
{
    if first_unknown(defs, n - 1) is Some {
        lemma_unknown_found_somewhere(defs, n - 1);
    } else {
        lemma_first_unknown_witness(defs, n - 1, 0);
    }
}

proof fn lemma_first_unknown_witness(defs: Seq<TaskDefinition>, k: int, x: int)
    requires
        0 <= k < defs.len(),
        0 <= x,
        first_unknown_dependency(defs, k, x) is Some,
    ensures
        defs[k].depends_on@.contains(first_unknown_dependency(defs, k, x)->0),
        !id_in_prefix(defs, defs.len() as int, first_unknown_dependency(defs, k, x)->0),
    decreases defs[k].depends_on@.len() - x,
{
    if !id_in_prefix(defs, defs.len() as int, defs[k].depends_on@[x]) {
        assert(defs[k].depends_on@.contains(defs[k].depends_on@[x]));
    } else {
        lemma_first_unknown_witness(defs, k, x + 1);
    }
}

/// A pending task that depends on no task is always ready.
pub proof fn law_pending_source_is_ready(
    g: &PipelineExecutionGraph,
    states: Map<u128, TaskRunStatus>,
    id: u128,
)
    requires
        g.wf(),
        source_ids(g.tasks()).contains(id),
        state_of(states, id) == Some(TaskRunStatus::Pending),
    ensures
        ready_task_ids(g.tasks(), states, g.tasks().len() as int).contains(id),
{
    g.lemma_wf_facts();
    let defs = g.tasks();
    let k = choose|k: int|
        0 <= k < defs.len() && #[trigger] defs[k].id == id && defs[k].depends_on@.len() == 0;
    assert(task_is_ready(defs[k], states));
    lemma_ready_membership(defs, states, defs.len() as int, k);
}

/// When a run has a final status, no task is ready to start.
pub proof fn law_completed_run_has_no_ready_task(
    g: &PipelineExecutionGraph,
    states: Map<u128, TaskRunStatus>,
)
    requires
        g.wf(),
        completion_status(g.tasks(), states) is Some,
    ensures
        ready_task_ids(g.tasks(), states, g.tasks().len() as int).len() == 0,
{
    g.lemma_wf_facts();
    let defs = g.tasks();
    let ready = ready_task_ids(defs, states, defs.len() as int);
    if ready.len() > 0 {
        let id = ready[0];
        assert(ready.contains(id));
        lemma_ready_ids_from_prefix(defs, states, defs.len() as int, id);
        let k = choose|k: int| 0 <= k < defs.len() && #[trigger] defs[k].id == id;
        lemma_ready_membership(defs, states, defs.len() as int, k);
        assert(!is_settled(state_of(states, defs[k].id)));
    }
}

/// Whether task `k` is pending.
pub open spec fn is_pending(defs: Seq<TaskDefinition>, states: Map<u128, TaskRunStatus>, k: int) -> bool {
    state_of(states, defs[k].id) == Some(TaskRunStatus::Pending)
}

/// Whether task `k` depends on a task that has not succeeded.
pub open spec fn is_blocked(defs: Seq<TaskDefinition>, states: Map<u128, TaskRunStatus>, k: int) -> bool {
    exists|a: int|
        #[trigger] depends_edge(defs, a, k) && state_of(states, defs[a].id) != Some(
            TaskRunStatus::Succeeded,
        )
}

/// A task that blocks task `k`.
spec fn blocking_dependency(defs: Seq<TaskDefinition>, states: Map<u128, TaskRunStatus>, k: int) -> int {
    choose|a: int|
        #[trigger] depends_edge(defs, a, k) && state_of(states, defs[a].id) != Some(
            TaskRunStatus::Succeeded,
        )
}

/// The walk from task `k0` that steps, `m` times, to a task blocking the
/// current one.
spec fn blocked_walk(
    defs: Seq<TaskDefinition>,
    states: Map<u128, TaskRunStatus>,
    k0: int,
    m: nat,
) -> int
    decreases m,
{
    if m == 0 {
        k0
    } else {
        blocking_dependency(defs, states, blocked_walk(defs, states, k0, (m - 1) as nat))
    }
}

/// When every pending task is blocked and every task is pending or
/// succeeded, the blocked walk stays on pending tasks, each step going from
/// a task to one of its dependencies.
proof fn lemma_blocked_walk(
    defs: Seq<TaskDefinition>,
    states: Map<u128, TaskRunStatus>,
    k0: int,
    m: nat,
)
    requires
        0 <= k0 < defs.len(),
        is_pending(defs, states, k0),
        forall|k: int| 0 <= k < defs.len() && #[trigger] is_pending(defs, states, k) ==> is_blocked(defs, states, k),
        forall|k: int|
            0 <= k < defs.len() ==> #[trigger] is_pending(defs, states, k) || state_of(
                states,
                defs[k].id,
            ) == Some(TaskRunStatus::Succeeded),
    ensures
        0 <= blocked_walk(defs, states, k0, m) < defs.len(),
        is_pending(defs, states, blocked_walk(defs, states, k0, m)),
        m > 0 ==> depends_edge(
            defs,
            blocked_walk(defs, states, k0, m),
            blocked_walk(defs, states, k0, (m - 1) as nat),
        ),
    decreases m,
{
    if m > 0 {
        lemma_blocked_walk(defs, states, k0, (m - 1) as nat);
        let prev = blocked_walk(defs, states, k0, (m - 1) as nat);
        assert(is_blocked(defs, states, prev));
        let next = blocking_dependency(defs, states, prev);
        assert(depends_edge(defs, next, prev));
        assert(is_pending(defs, states, next) || state_of(states, defs[next].id) == Some(
            TaskRunStatus::Succeeded,
        ));
    }
}

/// With no circle of dependencies, some pending task is not blocked.
proof fn lemma_unblocked_pending_task(
    defs: Seq<TaskDefinition>,
    states: Map<u128, TaskRunStatus>,
    k0: int,
) -> (k: int)
    requires
        !has_dependency_cycle(defs),
        0 <= k0 < defs.len(),
        is_pending(defs, states, k0),
        forall|k: int|
            0 <= k < defs.len() ==> #[trigger] is_pending(defs, states, k) || state_of(
                states,
                defs[k].id,
            ) == Some(TaskRunStatus::Succeeded),
    ensures
        0 <= k < defs.len(),
        is_pending(defs, states, k),
        !is_blocked(defs, states, k),
{
    if exists|k: int| 0 <= k < defs.len() && #[trigger] is_pending(defs, states, k) && !is_blocked(defs, states, k) {
        choose|k: int| 0 <= k < defs.len() && #[trigger] is_pending(defs, states, k) && !is_blocked(defs, states, k)
    } else {
        let n = defs.len() as int;
        let walk = Seq::new((n + 1) as nat, |i: int| blocked_walk(defs, states, k0, i as nat));
        if walk.no_duplicates() {
            walk.unique_seq_to_set();
            assert forall|x: int| walk.to_set().contains(x) implies set_int_range(0, n).contains(x) by {
                let i = choose|i: int| 0 <= i < walk.len() && walk[i] == x;
                lemma_blocked_walk(defs, states, k0, i as nat);
            }
            lemma_int_range(0, n);
            lemma_len_subset(walk.to_set(), set_int_range(0, n));
            assert(false);
        }
        let (i, j) = choose|i: int, j: int|
            0 <= i < walk.len() && 0 <= j < walk.len() && i != j && walk[i] == walk[j];
        let (lo, hi) = if i < j { (i, j) } else { (j, i) };
        let path = Seq::new(
            (hi - lo + 1) as nat,
            |t: int| blocked_walk(defs, states, k0, (hi - t) as nat),
        );
        assert forall|t: int| 0 <= t < path.len() - 1 implies #[trigger] depends_edge(
            defs,
            path[t],
            path[t + 1],
        ) by {
            lemma_blocked_walk(defs, states, k0, (hi - t) as nat);
        }
        assert(path[0] == walk[hi]);
        assert(path.last() == walk[lo]);
        assert(is_dependency_cycle(defs, path));
        assert(false);
        k0
    }
}

/// A run cannot get stuck: while its tasks are all pending or succeeded and
/// one of them is pending, some task is ready to start.
pub proof fn law_pending_run_makes_progress(
    g: &PipelineExecutionGraph,
    states: Map<u128, TaskRunStatus>,
)
    requires
        g.wf(),
        forall|k: int|
            0 <= k < g.tasks().len() ==> state_of(states, #[trigger] g.tasks()[k].id) == Some(
                TaskRunStatus::Pending,
            ) || state_of(states, g.tasks()[k].id) == Some(TaskRunStatus::Succeeded),
        exists|k: int|
            0 <= k < g.tasks().len() && state_of(states, #[trigger] g.tasks()[k].id) == Some(
                TaskRunStatus::Pending,
            ),
    ensures
        ready_task_ids(g.tasks(), states, g.tasks().len() as int).len() > 0,
{
    g.lemma_wf_facts();
    let defs = g.tasks();
    let k0 = choose|k: int|
        0 <= k < defs.len() && state_of(states, #[trigger] defs[k].id) == Some(TaskRunStatus::Pending);
    assert forall|k: int|
        0 <= k < defs.len() implies #[trigger] is_pending(defs, states, k) || state_of(
        states,
        defs[k].id,
    ) == Some(TaskRunStatus::Succeeded) by {
        assert(state_of(states, defs[k].id) == Some(TaskRunStatus::Pending) || state_of(
            states,
            defs[k].id,
        ) == Some(TaskRunStatus::Succeeded));
    }
    let k = lemma_unblocked_pending_task(defs, states, k0);
    assert forall|j: int| 0 <= j < defs[k].depends_on@.len() implies state_of(
        states,
        #[trigger] defs[k].depends_on@[j],
    ) == Some(TaskRunStatus::Succeeded) by {
        let d = defs[k].depends_on@[j];
        assert(defs[k].depends_on@.contains(d));
        let a = choose|a: int| 0 <= a < defs.len() && #[trigger] defs[a].id == d;
        assert(depends_edge(defs, a, k));
        if state_of(states, defs[a].id) != Some(TaskRunStatus::Succeeded) {
            assert(is_blocked(defs, states, k));
        }
    }
    assert(task_is_ready(defs[k], states));
    lemma_ready_membership(defs, states, defs.len() as int, k);
}

/// At the start of a run, when every task is pending, the ready tasks are
/// exactly the tasks that depend on no task.
pub proof fn law_initially_ready_tasks_are_sources(
    g: &PipelineExecutionGraph,
    states: Map<u128, TaskRunStatus>,
)
    requires
        g.wf(),
        forall|k: int|
            0 <= k < g.tasks().len() ==> state_of(states, #[trigger] g.tasks()[k].id) == Some(
                TaskRunStatus::Pending,
            ),
    ensures
        ready_task_ids(g.tasks(), states, g.tasks().len() as int).to_set() == source_ids(g.tasks()),
{
    g.lemma_wf_facts();
    let defs = g.tasks();
    let n = defs.len() as int;
    let ready = ready_task_ids(defs, states, n);
    assert forall|id: u128| ready.to_set().contains(id) <==> source_ids(defs).contains(id) by {
        if ready.contains(id) {
            lemma_ready_ids_from_prefix(defs, states, n, id);
            let k = choose|k: int| 0 <= k < n && #[trigger] defs[k].id == id;
            lemma_ready_membership(defs, states, n, k);
            if defs[k].depends_on@.len() > 0 {
                let d = defs[k].depends_on@[0];
                assert(defs[k].depends_on@.contains(d));
                let a = choose|a: int| 0 <= a < n && #[trigger] defs[a].id == d;
                assert(state_of(states, defs[a].id) == Some(TaskRunStatus::Pending));
            }
        }
        if source_ids(defs).contains(id) {
            let k = choose|k: int|
                0 <= k < n && #[trigger] defs[k].id == id && defs[k].depends_on@.len() == 0;
            assert(task_is_ready(defs[k], states));
            lemma_ready_membership(defs, states, n, k);
        }
    }
    assert(ready.to_set() =~= source_ids(defs));
}

} // verus!
