//! The messages that the pipeline registry exchanges with the scheduler, and
//! how the scheduler turns them into its own definitions.

use std::collections::HashMap;

use vstd::prelude::*;

use crate::error::Error;
use crate::ids::{parse_result_view, uuid_parse, uuid_parse_outcome};
use crate::code_registry::{CodeRegistrySource, PipelineRegistry};
use crate::pipeline::{PipelineDefinition, PipelineInfo, UtcTimestamp};
use crate::status::PipelineBackend;
use crate::task::{ExecutionContext, LocalProcessExecutionContext, TaskDefinition, TimeSpan};

verus! {

/// A span of time, as the wire format carries it.
#[derive(Clone, Copy, Debug, PartialEq, Eq, Structural)]
pub struct ProtoDuration {
    pub seconds: i64,
    pub nanos: i32,
}

/// How a task's process is started, as the wire format carries it.
pub struct LocalProcessContextDataProto {
    pub entry_point: Vec<String>,
    pub args: Vec<String>,
    pub env_vars: HashMap<String, String>,
    pub exec_timeout: Option<ProtoDuration>,
}

/// The kinds of execution context that the wire format carries.
pub enum ContextVariant {
    LocalProcess(LocalProcessContextDataProto),
}

/// An execution context, as the wire format carries it.
pub struct ExecutionContextProto {
    pub context_variant: Option<ContextVariant>,
}

/// A task definition, as the wire format carries it; ids are texts.
pub struct TaskDefinitionProto {
    pub id: String,
    pub name: String,
    pub description: String,
    pub execution_context: Option<ExecutionContextProto>,
    pub max_attempts: Option<i32>,
    pub depends_on: Vec<String>,
}

/// A pipeline definition, as the wire format carries it. Its structured
/// fields hold the JSON object that the wire's `Struct` stands for.
pub struct PipelineDefinitionProto {
    pub id: String,
    pub name: String,
    pub description: String,
    pub default_backend: Option<serde_json::Value>,
    pub default_tags: Option<serde_json::Value>,
    pub metadata: Option<serde_json::Value>,
    pub task_definitions: Vec<TaskDefinitionProto>,
}

/// The registry's answer to a metadata request.
pub struct GetRegistryMetadataResponse {
    pub registry_id: String,
    pub registry_metadata: Option<serde_json::Value>,
}

/// The registry's answer to a definitions request.
pub struct GetPipelineDefinitionsResponse {
    pub registry_id: String,
    pub registry_metadata: Option<serde_json::Value>,
    pub pipeline_definitions: Vec<PipelineDefinitionProto>,
    pub success: bool,
    pub error_message: String,
}

/// The execution context that a local-process context of the wire format
/// stands for: the same program, arguments and environment, and a time limit
/// of the whole seconds that the wire carries (its nanoseconds are dropped).
pub open spec fn domain_context(p: LocalProcessContextDataProto) -> ExecutionContext {
    ExecutionContext::LocalProcess(
        LocalProcessExecutionContext {
            entry_point: p.entry_point,
            args: p.args,
            env_vars: p.env_vars,
            exec_timeout: match p.exec_timeout {
                Some(d) => Some(TimeSpan { secs: d.seconds as u64, nanos: 0 }),
                None => None,
            },
        },
    )
}

/// Turns an execution context of the wire format into the scheduler's own.
pub fn map_exec_ctx_to_domain(exec_ctx: ExecutionContextProto) -> (ctx: ExecutionContext)
    requires
        exec_ctx.context_variant is Some,
    ensures
        exec_ctx.context_variant matches Some(ContextVariant::LocalProcess(p)) ==> ctx
            == domain_context(p),
{
    let ContextVariant::LocalProcess(local_process) = exec_ctx.context_variant.unwrap();
    let exec_timeout = match local_process.exec_timeout {
        Some(t) => Some(TimeSpan::from_secs(t.seconds as u64)),
        None => None,
    };
    ExecutionContext::LocalProcess(
        LocalProcessExecutionContext {
            entry_point: local_process.entry_point,
            args: local_process.args,
            env_vars: local_process.env_vars,
            exec_timeout,
        },
    )
}

/// Whether a task definition of the wire format says how the task runs.
pub open spec fn has_context(t: TaskDefinitionProto) -> bool {
    t.execution_context matches Some(c) && c.context_variant is Some
}

/// The error text of the first of the first `n` ids that does not parse.
pub open spec fn first_id_failure(ids: Seq<String>, n: int) -> Option<Seq<char>>
    decreases n,
{
    if n <= 0 {
        None
    } else {
        match first_id_failure(ids, n - 1) {
            Some(e) => Some(e),
            None => match uuid_parse_outcome(ids[n - 1]@) {
                Err(e) => Some(e),
                Ok(_) => None,
            },
        }
    }
}

/// The UUID that a text denotes, where it denotes one.
pub open spec fn parsed_id(text: String) -> u128 {
    uuid_parse_outcome(text@)->Ok_0
}

/// Why a task definition of the wire format cannot be taken in, if it cannot.
pub open spec fn task_proto_failure(t: TaskDefinitionProto) -> Option<Seq<char>> {
    match uuid_parse_outcome(t.id@) {
        Err(e) => Some("Failed to parse task ID: "@ + e),
        Ok(_) => match first_id_failure(t.depends_on@, t.depends_on.len() as int) {
            Some(e) => Some("Failed to parse task ID: "@ + e),
            None => if has_context(t) {
                None
            } else {
                Some("Missing execution context for task "@ + t.id@)
            },
        },
    }
}

/// Why the first `n` task definitions cannot all be taken in: the first
/// failure among them.
pub open spec fn first_task_failure(ts: Seq<TaskDefinitionProto>, n: int) -> Option<Seq<char>>
    decreases n,
{
    if n <= 0 {
        None
    } else {
        match first_task_failure(ts, n - 1) {
            Some(e) => Some(e),
            None => task_proto_failure(ts[n - 1]),
        }
    }
}

/// Why a pipeline definition of the wire format cannot be taken in, if it
/// cannot.
pub open spec fn pipeline_proto_failure(p: PipelineDefinitionProto) -> Option<Seq<char>> {
    match uuid_parse_outcome(p.id@) {
        Err(e) => Some("Failed to parse pipeline ID: "@ + e),
        Ok(_) => first_task_failure(p.task_definitions@, p.task_definitions.len() as int),
    }
}

/// Why the first `n` pipeline definitions cannot all be taken in: the first
/// failure among them.
pub open spec fn first_pipeline_failure(ps: Seq<PipelineDefinitionProto>, n: int) -> Option<
    Seq<char>,
>
    decreases n,
{
    if n <= 0 {
        None
    } else {
        match first_pipeline_failure(ps, n - 1) {
            Some(e) => Some(e),
            None => pipeline_proto_failure(ps[n - 1]),
        }
    }
}

/// Whether `t` is the task definition that the wire's `tp` stands for, in the
/// pipeline `pipeline_id`.
pub open spec fn task_from_proto(t: TaskDefinition, tp: TaskDefinitionProto, pipeline_id: u128) -> bool {
    &&& t.id == parsed_id(tp.id)
    &&& t.pipeline_def_id == pipeline_id
    &&& t.name == tp.name
    &&& t.description == Some(tp.description)
    &&& t.max_attempts == tp.max_attempts
    &&& t.depends_on@ == tp.depends_on@.map_values(|s: String| parsed_id(s))
    &&& (tp.execution_context matches Some(c) && c.context_variant matches Some(
        ContextVariant::LocalProcess(p),
    ) && t.execution_ctx == domain_context(p))
}

/// Whether `d` is the pipeline definition that the wire's `p` stands for,
/// taken in at `now`.
pub open spec fn definition_from_proto(
    d: PipelineDefinition,
    p: PipelineDefinitionProto,
    now: UtcTimestamp,
) -> bool {
    &&& d.info.id == parsed_id(p.id)
    &&& d.info.name == p.name
    &&& d.info.description == p.description
    &&& d.info.default_backend == PipelineBackend::Local
    &&& d.info.default_tags == p.default_tags
    &&& d.info.metadata == p.metadata
    &&& d.info.created_at == now
    &&& d.info.updated_at == now
    &&& d.task_definitions.len() == p.task_definitions.len()
    &&& forall|j: int|
        0 <= j < d.task_definitions.len() ==> task_from_proto(
            #[trigger] d.task_definitions[j],
            p.task_definitions[j],
            d.info.id,
        )
}

/// The definitions taken in keep what the wire carried: each pipeline keeps
/// its name and description and gets the id its text names, the local
/// backend and `now` as its creation and update time; each of its tasks, in
/// the same order, keeps its name, description, attempt limit, program,
/// arguments and environment, gets the ids its texts name and the whole
/// seconds of its time limit, and belongs to that pipeline.
pub proof fn law_taken_in_definitions_keep_the_wire_fields(
    v: Seq<PipelineDefinition>,
    defs: Seq<PipelineDefinitionProto>,
    now: UtcTimestamp,
)
    requires
        v.len() == defs.len(),
        forall|i: int| 0 <= i < v.len() ==> definition_from_proto(#[trigger] v[i], defs[i], now),
    ensures
        forall|i: int|
            0 <= i < v.len() ==> (#[trigger] v[i]).info.name@ == defs[i].name@
                && v[i].info.description@ == defs[i].description@ && v[i].info.id
                == uuid_parse_outcome(defs[i].id@)->Ok_0 && v[i].info.default_backend
                == PipelineBackend::Local && v[i].info.created_at == now && v[i].info.updated_at == now
                && v[i].task_definitions.len() == defs[i].task_definitions.len(),
        forall|i: int, j: int|
            0 <= i < v.len() && 0 <= j < v[i].task_definitions.len() ==> {
                let t = #[trigger] v[i].task_definitions[j];
                let tp = defs[i].task_definitions[j];
                &&& t.name@ == tp.name@
                &&& t.description matches Some(d) && d@ == tp.description@
                &&& t.max_attempts == tp.max_attempts
                &&& t.id == uuid_parse_outcome(tp.id@)->Ok_0
                &&& t.pipeline_def_id == v[i].info.id
                &&& t.depends_on.len() == tp.depends_on.len()
                &&& forall|k: int|
                    0 <= k < t.depends_on.len() ==> #[trigger] t.depends_on@[k]
                        == uuid_parse_outcome(tp.depends_on@[k]@)->Ok_0
                &&& tp.execution_context matches Some(c) && c.context_variant matches Some(
                    ContextVariant::LocalProcess(lp),
                ) && t.execution_ctx matches ExecutionContext::LocalProcess(ec)
                    && ec.entry_point@ == lp.entry_point@ && ec.args@ == lp.args@ && ec.env_vars@
                    == lp.env_vars@ && (lp.exec_timeout is None ==> ec.exec_timeout is None) && (
                lp.exec_timeout matches Some(w) ==> ec.exec_timeout == Some(
                    TimeSpan { secs: w.seconds as u64, nanos: 0 },
                ))
            },
{
    assert forall|i: int, j: int| 0 <= i < v.len() && 0 <= j < v[i].task_definitions.len() implies {
        let t = #[trigger] v[i].task_definitions[j];
        let tp = defs[i].task_definitions[j];
        forall|k: int|
            0 <= k < t.depends_on.len() ==> #[trigger] t.depends_on@[k] == uuid_parse_outcome(
                tp.depends_on@[k]@,
            )->Ok_0
    } by {
        assert(definition_from_proto(v[i], defs[i], now));
        assert(task_from_proto(v[i].task_definitions[j], defs[i].task_definitions[j], v[i].info.id));
    }
}

/// Parses a list of ids, stopping at the first that does not parse.
fn parse_ids(ids: &Vec<String>) -> (r: Result<Vec<u128>, String>)
    ensures
        match first_id_failure(ids@, ids.len() as int) {
            Some(e) => r is Err && r->Err_0@ == e,
            None => r is Ok && r->Ok_0@ == ids@.map_values(|s: String| parsed_id(s)),
        },
{
    let mut out: Vec<u128> = Vec::new();
    let mut i: usize = 0;
    while i < ids.len()
        invariant
            i <= ids.len(),
            first_id_failure(ids@, i as int) is None,
            out@ == ids@.subrange(0, i as int).map_values(|s: String| parsed_id(s)),
        decreases ids.len() - i,
    {
        match uuid_parse(ids[i].as_str()) {
            Ok(id) => {
                out.push(id);
                assert(ids@.subrange(0, i + 1).map_values(|s: String| parsed_id(s))
                    =~= ids@.subrange(0, i as int).map_values(|s: String| parsed_id(s)).push(id));
            },
            Err(e) => {
                assert(first_id_failure(ids@, i + 1) == Some(e@));
                proof {
                    lemma_first_failure_stays(ids@, i + 1, ids.len() as int);
                }
                return Err(e);
            },
        }
        i = i + 1;
    }
    assert(ids@.subrange(0, ids.len() as int) =~= ids@);
    Ok(out)
}

/// Takes in one task definition of the wire format.
fn task_definition_from_proto(tp: TaskDefinitionProto, pipeline_id: u128) -> (r: Result<
    TaskDefinition,
    String,
>)
    ensures
        match task_proto_failure(tp) {
            Some(e) => r is Err && r->Err_0@ == e,
            None => r is Ok && task_from_proto(r->Ok_0, tp, pipeline_id),
        },
{
    let ghost orig = tp;
    let id = match uuid_parse(tp.id.as_str()) {
        Ok(id) => id,
        Err(e) => {
            return Err(String::from_str("Failed to parse task ID: ").concat(e.as_str()));
        },
    };
    let depends_on = match parse_ids(&tp.depends_on) {
        Ok(ids) => ids,
        Err(e) => {
            return Err(String::from_str("Failed to parse task ID: ").concat(e.as_str()));
        },
    };
    let has_variant = match &tp.execution_context {
        Some(c) => c.context_variant.is_some(),
        None => false,
    };
    if !has_variant {
        return Err(String::from_str("Missing execution context for task ").concat(tp.id.as_str()));
    }
    let TaskDefinitionProto { id: _, name, description, execution_context, max_attempts, .. } = tp;
    let execution_ctx = map_exec_ctx_to_domain(execution_context.unwrap());
    Ok(
        TaskDefinition {
            id,
            pipeline_def_id: pipeline_id,
            name,
            description: Some(description),
            execution_ctx,
            max_attempts,
            depends_on,
        },
    )
}

/// Takes in the task definitions of one pipeline, stopping at the first
/// that cannot be taken in.
fn task_definitions_from_protos(ts: Vec<TaskDefinitionProto>, pipeline_id: u128) -> (r: Result<
    Vec<TaskDefinition>,
    String,
>)
    ensures
        match first_task_failure(ts@, ts.len() as int) {
            Some(e) => r is Err && r->Err_0@ == e,
            None => r is Ok && r->Ok_0.len() == ts.len() && forall|j: int|
                0 <= j < ts.len() ==> task_from_proto(#[trigger] r->Ok_0[j], ts[j], pipeline_id),
        },
{
    let ghost orig = ts@;
    let n = ts.len();
    let mut rest = ts;
    let mut out: Vec<TaskDefinition> = Vec::new();
    while rest.len() > 0
        invariant
            out.len() + rest.len() == n,
            n == orig.len(),
            orig == ts@,
            rest@ == orig.subrange(out.len() as int, n as int),
            first_task_failure(orig, out.len() as int) is None,
            forall|j: int| 0 <= j < out.len() ==> task_from_proto(#[trigger] out[j], orig[j], pipeline_id),
        decreases rest.len(),
    {
        let k = out.len();
        let tp = rest.remove(0);
        assert(tp == orig[k as int]);
        match task_definition_from_proto(tp, pipeline_id) {
            Ok(t) => {
                out.push(t);
            },
            Err(e) => {
                assert(first_task_failure(orig, k + 1) == Some(e@));
                proof {
                    lemma_first_task_failure_stays(orig, k + 1, n as int);
                }
                return Err(e);
            },
        }
    }
    Ok(out)
}

/// Takes in the pipeline definitions that a registry serves, as the
/// scheduler's own definitions stamped with `now`. Fails with an internal
/// error on the first id that does not parse or task that does not say
/// how it runs.
pub fn definitions_from_protos(defs: Vec<PipelineDefinitionProto>, now: UtcTimestamp) -> (r: Result<
    Vec<PipelineDefinition>,
    Error,
>)
    ensures
        r is Err <==> first_pipeline_failure(defs@, defs.len() as int) is Some,
        r matches Err(e) ==> e.is_internal_with(first_pipeline_failure(defs@, defs.len() as int)->Some_0),
        r matches Ok(v) ==> v.len() == defs.len() && forall|i: int|
            0 <= i < v.len() ==> definition_from_proto(#[trigger] v[i], defs[i], now),
        r matches Ok(v) ==> forall|i: int, j: int|
            0 <= i < v.len() && 0 <= j < v[i].task_definitions.len() ==> (
            #[trigger] v[i].task_definitions[j]).name@ == defs[i].task_definitions[j].name@,
{
    let ghost orig = defs@;
    let n = defs.len();
    let mut rest = defs;
    let mut out: Vec<PipelineDefinition> = Vec::new();
    while rest.len() > 0
        invariant
            out.len() + rest.len() == n,
            n == orig.len(),
            orig == defs@,
            rest@ == orig.subrange(out.len() as int, n as int),
            first_pipeline_failure(orig, out.len() as int) is None,
            forall|i: int| 0 <= i < out.len() ==> definition_from_proto(#[trigger] out[i], orig[i], now),
        decreases rest.len(),
    {
        let k = out.len();
        let d = rest.remove(0);
        assert(d == orig[k as int]);
        let pipeline_id = match uuid_parse(d.id.as_str()) {
            Ok(id) => id,
            Err(e) => {
                let m = String::from_str("Failed to parse pipeline ID: ").concat(e.as_str());
                assert(first_pipeline_failure(orig, k + 1) == Some(m@));
                proof {
                    lemma_first_pipeline_failure_stays(orig, k + 1, n as int);
                }
                return Err(Error::Internal(m));
            },
        };
        let PipelineDefinitionProto {
            id: _,
            name,
            description,
            default_backend: _,
            default_tags,
            metadata,
            task_definitions,
        } = d;
        let task_defs = match task_definitions_from_protos(task_definitions, pipeline_id) {
            Ok(ts) => ts,
            Err(e) => {
                assert(first_pipeline_failure(orig, k + 1) is Some);
                proof {
                    lemma_first_pipeline_failure_stays(orig, k + 1, n as int);
                }
                return Err(Error::Internal(e));
            },
        };
        let def = PipelineDefinition {
            info: PipelineInfo {
                id: pipeline_id,
                name,
                description,
                default_backend: PipelineBackend::Local,
                default_tags,
                metadata,
                created_at: now,
                updated_at: now,
            },
            task_definitions: task_defs,
        };
        out.push(def);
    }
    proof {
        law_taken_in_definitions_keep_the_wire_fields(out@, orig, now);
    }
    Ok(out)
}

/// JSON's `null`. Nothing is stated of the value.
#[verifier::external_body]
fn json_null() -> serde_json::Value {
    serde_json::Value::Null
}

/// What the scheduler records of a registry that answered a metadata
/// request from `registry_address`: the id that the registry gave, and its
/// metadata (JSON `null` where it gave none). Fails with an internal error
/// where the id does not parse.
pub fn registry_from_metadata(res: GetRegistryMetadataResponse, registry_address: String) -> (r:
    Result<PipelineRegistry, Error>)
    ensures
        match uuid_parse_outcome(res.registry_id@) {
            Err(e) => r is Err && r->Err_0.is_internal_with("Failed to parse registry ID: "@ + e),
            Ok(id) => r is Ok && r->Ok_0.id == id && r->Ok_0.name@ == "Registry"@
                && r->Ok_0.source_type == CodeRegistrySource::Registry && r->Ok_0.address
                == registry_address && (res.registry_metadata matches Some(m) ==> r->Ok_0.metadata
                == m),
        },
{
    let registry_id = match uuid_parse(res.registry_id.as_str()) {
        Ok(id) => id,
        Err(e) => {
            return Err(
                Error::Internal(String::from_str("Failed to parse registry ID: ").concat(e.as_str())),
            );
        },
    };
    let metadata = match res.registry_metadata {
        Some(m) => m,
        None => json_null(),
    };
    Ok(
        PipelineRegistry {
            id: registry_id,
            name: String::from_str("Registry"),
            source_type: CodeRegistrySource::Registry,
            metadata,
            address: registry_address,
        },
    )
}

/// Once a failure is met among the first `m` ids, it stays the first one.
proof fn lemma_first_failure_stays(ids: Seq<String>, m: int, n: int)
    requires
        0 <= m <= n,
        first_id_failure(ids, m) is Some,
    ensures
        first_id_failure(ids, n) == first_id_failure(ids, m),
    decreases n - m,
{
    if n > m {
        lemma_first_failure_stays(ids, m, n - 1);
    }
}

/// Once a failure is met among the first `m` tasks, it stays the first one.
proof fn lemma_first_task_failure_stays(ts: Seq<TaskDefinitionProto>, m: int, n: int)
    requires
        0 <= m <= n,
        first_task_failure(ts, m) is Some,
    ensures
        first_task_failure(ts, n) == first_task_failure(ts, m),
    decreases n - m,
{
    if n > m {
        lemma_first_task_failure_stays(ts, m, n - 1);
    }
}

/// Once a failure is met among the first `m` pipelines, it stays the first
/// one.
proof fn lemma_first_pipeline_failure_stays(ps: Seq<PipelineDefinitionProto>, m: int, n: int)
    requires
        0 <= m <= n,
        first_pipeline_failure(ps, m) is Some,
    ensures
        first_pipeline_failure(ps, n) == first_pipeline_failure(ps, m),
    decreases n - m,
{
    if n > m {
        lemma_first_pipeline_failure_stays(ps, m, n - 1);
    }
}

} // verus!
