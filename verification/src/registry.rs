//! The pipeline registry: the schema of its configuration file, the errors
//! met reading it, and the definitions and identity that it serves.

use std::collections::HashMap;

use vstd::prelude::*;
use vstd::utf8::encode_utf8;

use crate::error::Error;
use crate::ids::{hyphenated_text, uuid_parse_outcome, uuid_string, uuid_v5, uuid_v5_of};
use crate::proto::{
    first_pipeline_failure, first_task_failure, has_context, parsed_id, task_proto_failure,
    ContextVariant, ExecutionContextProto, GetPipelineDefinitionsResponse,
    GetRegistryMetadataResponse, LocalProcessContextDataProto, PipelineDefinitionProto,
    ProtoDuration, TaskDefinitionProto,
};
use crate::text::{decimal_string, decimal_text};
use vstd::std_specs::hash::obeys_key_model;

verus! {

/// The namespace in which a registry's identifier names its id.
pub const MASTER_SYSTEM_NAMESPACE: u128 = 0x1d33bb48_4746_4e0b_b93f_f9eebe90e1cb;

/// The registry's configuration file.
#[derive(Debug)]
pub struct RegistryConfig {
    pub version: String,
    pub registry_identifier: String,
    pub pipelines: Vec<Pipeline>,
}

/// A pipeline of the configuration file.
#[derive(Debug)]
pub struct Pipeline {
    pub name: String,
    pub description: String,
    pub steps: Vec<Step>,
}

/// A step (a task) of a pipeline of the configuration file.
#[derive(Debug)]
pub struct Step {
    pub name: String,
    pub description: String,
    pub environment: Vec<KvPair>,
    pub labels: Vec<KvPair>,
    pub executor_config: ExecutorConfig,
    pub working_directory: String,
    pub entrypoint: String,
}

/// Where a step runs.
#[derive(Debug)]
pub enum ExecutorConfig {
    LocalProcess(LocalProcessConfig),
    Docker(DockerConfig),
    CloudRunJob(CloudRunJobConfig),
}

/// A step run as a process on the local machine.
#[derive(Debug)]
pub struct LocalProcessConfig {
    pub cpu_request: Option<String>,
    pub memory_request: Option<String>,
    pub timeout_seconds: Option<u64>,
}

/// A step run in a Docker container.
#[derive(Debug)]
pub struct DockerConfig {
    pub image_uri: String,
    pub entrypoint: Vec<String>,
    pub timeout_seconds: Option<u64>,
}

/// A step run as a Cloud Run job.
#[derive(Debug)]
pub struct CloudRunJobConfig {
    pub region: String,
    pub project_id: String,
    pub job_name: String,
    pub timeout_seconds: Option<u64>,
}

/// A key and its value.
#[derive(Debug)]
pub struct KvPair {
    pub key: String,
    pub value: String,
}

/// Why the configuration file could not be read.
#[derive(Debug)]
pub enum ParseError {
    InvalidYaml { line: usize, column: usize, message: String },
    InvalidYamlNoLocation { message: String },
}

impl ParseError {
    /// The text that the error displays.
    pub open spec fn spec_text(&self) -> Seq<char> {
        match self {
            ParseError::InvalidYaml { line, column, message } => "Invalid YAML config at line "@
                + decimal_text(*line as nat) + ", column "@ + decimal_text(*column as nat) + ": "@
                + message@,
            ParseError::InvalidYamlNoLocation { message } => "Invalid YAML config: "@ + message@,
        }
    }

    /// The error for a YAML text that did not read as a configuration: with
    /// the line and column where the reader stopped, where it gave them.
    pub fn from_yaml_failure(location: Option<(usize, usize)>, message: String) -> (e: ParseError)
        ensures
            match location {
                Some((line, column)) => e == (ParseError::InvalidYaml { line, column, message }),
                None => e == (ParseError::InvalidYamlNoLocation { message }),
            },
    {
        match location {
            Some((line, column)) => ParseError::InvalidYaml { line, column, message },
            None => ParseError::InvalidYamlNoLocation { message },
        }
    }

    /// The text that the error displays.
    pub fn to_string(&self) -> (s: String)
        ensures
            s@ == self.spec_text(),
    {
        match self {
            ParseError::InvalidYaml { line, column, message } => {
                let line_text = decimal_string(*line as u64);
                let column_text = decimal_string(*column as u64);
                String::from_str("Invalid YAML config at line ").concat(line_text.as_str()).concat(
                    ", column ",
                ).concat(column_text.as_str()).concat(": ").concat(message.as_str())
            },
            ParseError::InvalidYamlNoLocation { message } => String::from_str(
                "Invalid YAML config: ",
            ).concat(message.as_str()),
        }
    }

    /// The scheduler's error for this one: an internal error with its text.
    pub fn into_error(self) -> (e: Error)
        ensures
            e.is_internal_with(self.spec_text()),
    {
        Error::Internal(self.to_string())
    }
}

/// The id of the registry that a configuration file's identifier names.
pub open spec fn registry_id_of(identifier: Seq<char>) -> u128 {
    uuid_v5_of(MASTER_SYSTEM_NAMESPACE, encode_utf8(identifier))
}

/// The name under which a pipeline of the configuration is served.
pub open spec fn pipeline_name_text(p: Pipeline) -> Seq<char> {
    "pipe-"@ + p.name@
}

/// The id under which a pipeline of the configuration is served.
pub open spec fn pipeline_id_in(registry_id: u128, p: Pipeline) -> u128 {
    uuid_v5_of(registry_id, encode_utf8(pipeline_name_text(p)))
}

/// The name under which a step of a pipeline is served.
pub open spec fn task_name_text(p: Pipeline, s: Step) -> Seq<char> {
    p.name@ + "-"@ + s.name@
}

/// The id under which a step of a pipeline is served.
pub open spec fn task_id_in(registry_id: u128, p: Pipeline, s: Step) -> u128 {
    uuid_v5_of(pipeline_id_in(registry_id, p), encode_utf8(task_name_text(p, s)))
}

/// Whether every step of the configuration runs as a local process, the only
/// executor that the registry serves.
pub open spec fn serves_locally(config: RegistryConfig) -> bool {
    forall|i: int, j: int|
        0 <= i < config.pipelines.len() && 0 <= j < config.pipelines[i].steps.len()
            ==> (#[trigger] config.pipelines[i].steps[j]).executor_config is LocalProcess
}

/// The time limit that a step's local-process executor carries on the wire.
pub open spec fn step_timeout(s: Step) -> Option<ProtoDuration> {
    match s.executor_config {
        ExecutorConfig::LocalProcess(l) => match l.timeout_seconds {
            Some(t) => Some(ProtoDuration { seconds: t as i64, nanos: 0 }),
            None => None,
        },
        _ => None,
    }
}

/// The environment that a list of key-value pairs sets: each key to its
/// value, a later pair of a key overriding an earlier one.
pub open spec fn environment_map(kvs: Seq<KvPair>) -> Map<String, String>
    decreases kvs.len(),
{
    if kvs.len() == 0 {
        Map::empty()
    } else {
        environment_map(kvs.drop_last()).insert(kvs.last().key, kvs.last().value)
    }
}

/// Whether `tp` is the task definition that the registry serves for step `s`
/// of pipeline `p`: its id and name, its description, no attempt limit and no
/// dependency, and a local process that runs the step's entry point with no
/// further argument within the step's time limit, in the step's environment.
/// The environment is stated where `String` keys follow the key model under
/// which the standard library's hash map is specified.
pub open spec fn serves_step(tp: TaskDefinitionProto, registry_id: u128, p: Pipeline, s: Step) -> bool {
    &&& tp.id@ == hyphenated_text(task_id_in(registry_id, p, s))
    &&& uuid_parse_outcome(tp.id@) == Ok::<u128, Seq<char>>(task_id_in(registry_id, p, s))
    &&& tp.name@ == task_name_text(p, s)
    &&& tp.description == s.description
    &&& tp.max_attempts is None
    &&& tp.depends_on.len() == 0
    &&& tp.execution_context matches Some(c) && c.context_variant matches Some(
        ContextVariant::LocalProcess(lp),
    ) && lp.entry_point@ == seq![s.entrypoint] && lp.args.len() == 0 && lp.exec_timeout
        == step_timeout(s) && (obeys_key_model::<String>() ==> lp.env_vars@ == environment_map(
        s.environment@,
    ))
}

/// Whether `dp` is the pipeline definition that the registry serves for
/// pipeline `p`.
pub open spec fn serves_pipeline(dp: PipelineDefinitionProto, registry_id: u128, p: Pipeline) -> bool {
    &&& dp.id@ == hyphenated_text(pipeline_id_in(registry_id, p))
    &&& uuid_parse_outcome(dp.id@) == Ok::<u128, Seq<char>>(pipeline_id_in(registry_id, p))
    &&& dp.name@ == pipeline_name_text(p)
    &&& dp.description == p.description
    &&& dp.default_backend is None
    &&& dp.default_tags is None
    &&& dp.metadata is Some
    &&& dp.task_definitions.len() == p.steps.len()
    &&& forall|j: int|
        0 <= j < p.steps.len() ==> serves_step(
            #[trigger] dp.task_definitions[j],
            registry_id,
            p,
            p.steps[j],
        )
}

/// The registry's gRPC service: its id and the configuration it serves.
#[derive(Debug)]
pub struct GrpcPipelineRegistryService {
    pub registry_id: u128,
    pub config: RegistryConfig,
}

/// An empty JSON object. Nothing is stated of the value.
#[verifier::external_body]
fn empty_json_object() -> serde_json::Value {
    serde_json::Value::Object(serde_json::Map::new())
}

impl GrpcPipelineRegistryService {
    /// The service for a configuration that was read: its id is the one that
    /// the configuration's identifier names.
    pub fn from_config(config: RegistryConfig) -> (s: Self)
        ensures
            s.registry_id == registry_id_of(config.registry_identifier@),
            s.config == config,
    {
        let registry_id = uuid_v5(
            MASTER_SYSTEM_NAMESPACE,
            config.registry_identifier.as_str().as_bytes(),
        );
        GrpcPipelineRegistryService { registry_id, config }
    }

    /// The answer to a metadata request: the registry's id, and no metadata.
    pub fn get_registry_metadata(&self) -> (r: GetRegistryMetadataResponse)
        ensures
            r.registry_id@ == hyphenated_text(self.registry_id),
            r.registry_metadata is None,
    {
        GetRegistryMetadataResponse {
            registry_id: uuid_string(self.registry_id),
            registry_metadata: None,
        }
    }

    /// The task definition served for one step.
    fn step_definition(&self, p: &Pipeline, pipeline_id: u128, s: &Step) -> (tp: TaskDefinitionProto)
        requires
            pipeline_id == pipeline_id_in(self.registry_id, *p),
            s.executor_config is LocalProcess,
        ensures
            serves_step(tp, self.registry_id, *p, *s),
    {
        let task_name = p.name.clone().concat("-").concat(s.name.as_str());
        let task_def_id = uuid_v5(pipeline_id, task_name.as_str().as_bytes());
        let exec_timeout = match &s.executor_config {
            ExecutorConfig::LocalProcess(local_proc) => match local_proc.timeout_seconds {
                Some(t) => Some(ProtoDuration { seconds: t as i64, nanos: 0 }),
                None => None,
            },
            _ => None,
        };
        let mut env_vars: HashMap<String, String> = HashMap::new();
        let mut k: usize = 0;
        while k < s.environment.len()
            invariant
                k <= s.environment.len(),
                obeys_key_model::<String>() ==> env_vars@ == environment_map(
                    s.environment@.subrange(0, k as int),
                ),
            decreases s.environment.len() - k,
        {
            let kv = &s.environment[k];
            assert(s.environment@.subrange(0, k + 1).drop_last() =~= s.environment@.subrange(
                0,
                k as int,
            ));
            env_vars.insert(kv.key.clone(), kv.value.clone());
            k = k + 1;
        }
        assert(s.environment@.subrange(0, s.environment.len() as int) =~= s.environment@);
        let entry_point = vec![s.entrypoint.clone()];
        assert(entry_point@ == seq![s.entrypoint]);
        let exec_ctx = ExecutionContextProto {
            context_variant: Some(
                ContextVariant::LocalProcess(
                    LocalProcessContextDataProto {
                        entry_point,
                        args: Vec::new(),
                        env_vars,
                        exec_timeout,
                    },
                ),
            ),
        };
        assert(exec_timeout == step_timeout(*s));
        assert(task_name@ == task_name_text(*p, *s));
        TaskDefinitionProto {
            id: uuid_string(task_def_id),
            name: task_name,
            description: s.description.clone(),
            execution_context: Some(exec_ctx),
            max_attempts: None,
            depends_on: Vec::new(),
        }
    }

    /// The pipeline definition served for one pipeline.
    fn pipeline_definition(&self, p: &Pipeline) -> (dp: PipelineDefinitionProto)
        requires
            forall|j: int| 0 <= j < p.steps.len() ==> (#[trigger] p.steps[j]).executor_config is LocalProcess,
        ensures
            serves_pipeline(dp, self.registry_id, *p),
    {
        let pipeline_name = String::from_str("pipe-").concat(p.name.as_str());
        let pipeline_id = uuid_v5(self.registry_id, pipeline_name.as_str().as_bytes());
        let mut task_defs: Vec<TaskDefinitionProto> = Vec::new();
        let mut j: usize = 0;
        while j < p.steps.len()
            invariant
                j <= p.steps.len(),
                pipeline_id == pipeline_id_in(self.registry_id, *p),
                forall|i: int| 0 <= i < p.steps.len() ==> (#[trigger] p.steps[i]).executor_config is LocalProcess,
                task_defs.len() == j,
                forall|i: int|
                    0 <= i < j ==> serves_step(#[trigger] task_defs[i], self.registry_id, *p, p.steps[i]),
            decreases p.steps.len() - j,
        {
            let tp = self.step_definition(p, pipeline_id, &p.steps[j]);
            task_defs.push(tp);
            j = j + 1;
        }
        PipelineDefinitionProto {
            id: uuid_string(pipeline_id),
            name: pipeline_name,
            description: p.description.clone(),
            default_backend: None,
            default_tags: None,
            metadata: Some(empty_json_object()),
            task_definitions: task_defs,
        }
    }

    /// The answer to a definitions request: one definition for each pipeline
    /// of the configuration, in order, under the registry's id.
    pub fn get_pipeline_definitions(&self) -> (r: GetPipelineDefinitionsResponse)
        requires
            serves_locally(self.config),
        ensures
            r.registry_id@ == hyphenated_text(self.registry_id),
            r.registry_metadata is None,
            r.success,
            r.error_message@.len() == 0,
            r.pipeline_definitions.len() == self.config.pipelines.len(),
            forall|i: int|
                0 <= i < self.config.pipelines.len() ==> serves_pipeline(
                    #[trigger] r.pipeline_definitions[i],
                    self.registry_id,
                    self.config.pipelines[i],
                ),
    {
        let mut def_protos: Vec<PipelineDefinitionProto> = Vec::new();
        let mut i: usize = 0;
        while i < self.config.pipelines.len()
            invariant
                i <= self.config.pipelines.len(),
                serves_locally(self.config),
                def_protos.len() == i,
                forall|k: int|
                    0 <= k < i ==> serves_pipeline(
                        #[trigger] def_protos[k],
                        self.registry_id,
                        self.config.pipelines[k],
                    ),
            decreases self.config.pipelines.len() - i,
        {
            let p = &self.config.pipelines[i];
            assert forall|j: int| 0 <= j < p.steps.len() implies (
            #[trigger] p.steps[j]).executor_config is LocalProcess by {
                assert(self.config.pipelines[i as int].steps[j] == p.steps[j]);
            }
            def_protos.push(self.pipeline_definition(p));
            i = i + 1;
        }
        GetPipelineDefinitionsResponse {
            registry_id: uuid_string(self.registry_id),
            registry_metadata: None,
            pipeline_definitions: def_protos,
            success: true,
            error_message: String::new(),
        }
    }
}

/// The task definitions served for the first `n` steps of a pipeline all
/// read back.
proof fn lemma_served_steps_read_back(
    registry_id: u128,
    p: Pipeline,
    ts: Seq<TaskDefinitionProto>,
    n: int,
)
    requires
        0 <= n <= ts.len(),
        ts.len() == p.steps.len(),
        forall|j: int| 0 <= j < p.steps.len() ==> serves_step(#[trigger] ts[j], registry_id, p, p.steps[j]),
    ensures
        first_task_failure(ts, n) is None,
    decreases n,
{
    if n > 0 {
        lemma_served_steps_read_back(registry_id, p, ts, n - 1);
        assert(serves_step(ts[n - 1], registry_id, p, p.steps[n - 1]));
        assert(task_proto_failure(ts[n - 1]) is None);
    }
}

/// The pipeline definitions served for the first `n` pipelines all read
/// back.
proof fn lemma_served_pipelines_read_back(
    registry_id: u128,
    config: RegistryConfig,
    defs: Seq<PipelineDefinitionProto>,
    n: int,
)
    requires
        0 <= n <= defs.len(),
        defs.len() == config.pipelines.len(),
        forall|i: int|
            0 <= i < defs.len() ==> serves_pipeline(#[trigger] defs[i], registry_id, config.pipelines[i]),
    ensures
        first_pipeline_failure(defs, n) is None,
    decreases n,
{
    if n > 0 {
        lemma_served_pipelines_read_back(registry_id, config, defs, n - 1);
        let dp = defs[n - 1];
        let p = config.pipelines[n - 1];
        assert(serves_pipeline(dp, registry_id, p));
        lemma_served_steps_read_back(registry_id, p, dp.task_definitions@, dp.task_definitions.len() as int);
    }
}

/// What the registry serves, the scheduler takes in: the definitions served
/// for a configuration's pipelines read back without failure, under the
/// ids that the registry gave each pipeline and each step, and every task
/// says how it runs.
pub proof fn law_served_definitions_read_back(
    registry_id: u128,
    config: RegistryConfig,
    defs: Seq<PipelineDefinitionProto>,
)
    requires
        defs.len() == config.pipelines.len(),
        forall|i: int|
            0 <= i < defs.len() ==> serves_pipeline(#[trigger] defs[i], registry_id, config.pipelines[i]),
    ensures
        first_pipeline_failure(defs, defs.len() as int) is None,
        forall|i: int|
            0 <= i < defs.len() ==> parsed_id(#[trigger] defs[i].id) == pipeline_id_in(
                registry_id,
                config.pipelines[i],
            ),
        forall|i: int, j: int|
            0 <= i < defs.len() && 0 <= j < defs[i].task_definitions.len() ==> has_context(
                #[trigger] defs[i].task_definitions[j],
            ) && parsed_id(defs[i].task_definitions[j].id) == task_id_in(
                registry_id,
                config.pipelines[i],
                config.pipelines[i].steps[j],
            ),
{
    lemma_served_pipelines_read_back(registry_id, config, defs, defs.len() as int);
    assert forall|i: int, j: int|
        0 <= i < defs.len() && 0 <= j < defs[i].task_definitions.len() implies has_context(
        #[trigger] defs[i].task_definitions[j],
    ) && parsed_id(defs[i].task_definitions[j].id) == task_id_in(
        registry_id,
        config.pipelines[i],
        config.pipelines[i].steps[j],
    ) by {
        assert(serves_pipeline(defs[i], registry_id, config.pipelines[i]));
        assert(serves_step(
            defs[i].task_definitions[j],
            registry_id,
            config.pipelines[i],
            config.pipelines[i].steps[j],
        ));
    }
}

} // verus!
