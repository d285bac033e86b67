use std::collections::HashMap;

use iodine::code_registry::CodeRegistrySource;
use iodine::error::Error;
use iodine::pipeline::UtcTimestamp;
use iodine::proto::{
    definitions_from_protos, map_exec_ctx_to_domain, registry_from_metadata, ContextVariant,
    ExecutionContextProto, GetRegistryMetadataResponse, LocalProcessContextDataProto,
    PipelineDefinitionProto, ProtoDuration, TaskDefinitionProto,
};
use iodine::registry::{
    CloudRunJobConfig, ExecutorConfig, GrpcPipelineRegistryService, KvPair, LocalProcessConfig,
    ParseError, Pipeline, RegistryConfig, Step, MASTER_SYSTEM_NAMESPACE,
};
use iodine::status::PipelineBackend;
use iodine::task::{ExecutionContext, TimeSpan};
use uuid::Uuid;

fn step(name: &str, timeout: Option<u64>) -> Step {
    Step {
        name: name.to_string(),
        description: format!("{} step", name),
        environment: vec![
            KvPair { key: "A".to_string(), value: "1".to_string() },
            KvPair { key: "B".to_string(), value: "2".to_string() },
            KvPair { key: "A".to_string(), value: "3".to_string() },
        ],
        labels: vec![],
        executor_config: ExecutorConfig::LocalProcess(LocalProcessConfig {
            cpu_request: None,
            memory_request: None,
            timeout_seconds: timeout,
        }),
        working_directory: ".".to_string(),
        entrypoint: format!("./{}.sh", name),
    }
}

fn config() -> RegistryConfig {
    RegistryConfig {
        version: "1".to_string(),
        registry_identifier: "main-registry".to_string(),
        pipelines: vec![
            Pipeline {
                name: "etl".to_string(),
                description: "nightly load".to_string(),
                steps: vec![step("extract", Some(30)), step("load", None)],
            },
            Pipeline { name: "empty".to_string(), description: String::new(), steps: vec![] },
        ],
    }
}

fn v5(namespace: u128, name: &str) -> u128 {
    Uuid::new_v5(&Uuid::from_u128(namespace), name.as_bytes()).as_u128()
}

#[test]
fn the_registry_id_is_named_by_its_identifier() {
    let service = GrpcPipelineRegistryService::from_config(config());
    assert_eq!(
        MASTER_SYSTEM_NAMESPACE,
        Uuid::parse_str("1d33bb48-4746-4e0b-b93f-f9eebe90e1cb").unwrap().as_u128()
    );
    assert_eq!(service.registry_id, v5(MASTER_SYSTEM_NAMESPACE, "main-registry"));
    let meta = service.get_registry_metadata();
    assert_eq!(meta.registry_id, Uuid::from_u128(service.registry_id).to_string());
    assert!(meta.registry_metadata.is_none());
}

#[test]
fn the_registry_serves_each_pipeline_with_name_based_ids() {
    let service = GrpcPipelineRegistryService::from_config(config());
    let res = service.get_pipeline_definitions();
    assert!(res.success);
    assert_eq!(res.error_message, "");
    assert_eq!(res.registry_id, Uuid::from_u128(service.registry_id).to_string());
    assert_eq!(res.pipeline_definitions.len(), 2);

    let etl = &res.pipeline_definitions[0];
    let pipeline_id = v5(service.registry_id, "pipe-etl");
    assert_eq!(etl.id, Uuid::from_u128(pipeline_id).to_string());
    assert_eq!(etl.name, "pipe-etl");
    assert_eq!(etl.description, "nightly load");
    assert!(etl.default_backend.is_none());
    assert!(etl.default_tags.is_none());
    assert_eq!(etl.metadata, Some(serde_json::Value::Object(serde_json::Map::new())));
    assert_eq!(etl.task_definitions.len(), 2);

    let extract = &etl.task_definitions[0];
    assert_eq!(extract.id, Uuid::from_u128(v5(pipeline_id, "etl-extract")).to_string());
    assert_eq!(extract.name, "etl-extract");
    assert_eq!(extract.description, "extract step");
    assert_eq!(extract.max_attempts, None);
    assert!(extract.depends_on.is_empty());
    let ctx = extract.execution_context.as_ref().unwrap();
    let Some(ContextVariant::LocalProcess(lp)) = &ctx.context_variant else {
        panic!("expected a local process");
    };
    assert_eq!(lp.entry_point, vec!["./extract.sh"]);
    assert!(lp.args.is_empty());
    assert_eq!(lp.exec_timeout, Some(ProtoDuration { seconds: 30, nanos: 0 }));
    assert_eq!(lp.env_vars.len(), 2);
    assert_eq!(lp.env_vars.get("A").map(|s| s.as_str()), Some("3"));
    assert_eq!(lp.env_vars.get("B").map(|s| s.as_str()), Some("2"));

    let load = &etl.task_definitions[1];
    assert_eq!(load.name, "etl-load");
    let Some(ContextVariant::LocalProcess(lp)) = &load.execution_context.as_ref().unwrap().context_variant else {
        panic!("expected a local process");
    };
    assert_eq!(lp.exec_timeout, None);

    assert_eq!(res.pipeline_definitions[1].name, "pipe-empty");
    assert!(res.pipeline_definitions[1].task_definitions.is_empty());
}

#[test]
fn what_the_registry_serves_the_scheduler_reads_back() {
    let service = GrpcPipelineRegistryService::from_config(config());
    let res = service.get_pipeline_definitions();
    let now = UtcTimestamp { unix_nanos: 1_700_000_000_000_000_000 };
    let defs = match definitions_from_protos(res.pipeline_definitions, now) {
        Ok(d) => d,
        Err(_) => panic!("served definitions must read back"),
    };
    assert_eq!(defs.len(), 2);
    let pipeline_id = v5(service.registry_id, "pipe-etl");
    let etl = &defs[0];
    assert_eq!(etl.info.id, pipeline_id);
    assert_eq!(etl.info.name, "pipe-etl");
    assert_eq!(etl.info.default_backend, PipelineBackend::Local);
    assert_eq!(etl.info.created_at, now);
    assert_eq!(etl.info.updated_at, now);
    assert_eq!(etl.task_definitions.len(), 2);
    let t = &etl.task_definitions[0];
    assert_eq!(t.id, v5(pipeline_id, "etl-extract"));
    assert_eq!(t.pipeline_def_id, pipeline_id);
    assert_eq!(t.description.as_deref(), Some("extract step"));
    assert!(t.depends_on.is_empty());
    let ExecutionContext::LocalProcess(c) = &t.execution_ctx;
    assert_eq!(c.entry_point, vec!["./extract.sh"]);
    assert_eq!(c.exec_timeout, Some(TimeSpan { secs: 30, nanos: 0 }));
    assert_eq!(c.env_vars.get("A").map(|s| s.as_str()), Some("3"));
}

fn task_proto(id: &str, deps: &[&str]) -> TaskDefinitionProto {
    TaskDefinitionProto {
        id: id.to_string(),
        name: "t".to_string(),
        description: "d".to_string(),
        execution_context: Some(ExecutionContextProto {
            context_variant: Some(ContextVariant::LocalProcess(LocalProcessContextDataProto {
                entry_point: vec!["sh".to_string()],
                args: vec![],
                env_vars: HashMap::new(),
                exec_timeout: None,
            })),
        }),
        max_attempts: Some(4),
        depends_on: deps.iter().map(|s| s.to_string()).collect(),
    }
}

fn pipeline_proto(id: &str, tasks: Vec<TaskDefinitionProto>) -> PipelineDefinitionProto {
    PipelineDefinitionProto {
        id: id.to_string(),
        name: "p".to_string(),
        description: "d".to_string(),
        default_backend: None,
        default_tags: None,
        metadata: None,
        task_definitions: tasks,
    }
}

const A: &str = "67e55044-10b1-426f-9247-bb680e5fe0c8";
const B: &str = "a1a2a3a4-b1b2-c1c2-d1d2-d3d4d5d6d7d8";

#[test]
fn dependencies_are_read_as_ids() {
    let defs = definitions_from_protos(
        vec![pipeline_proto(A, vec![task_proto(B, &[A, "67E55044-10B1-426F-9247-BB680E5FE0C8"])])],
        UtcTimestamp { unix_nanos: 0 },
    );
    let defs = match defs {
        Ok(d) => d,
        Err(_) => panic!("expected definitions"),
    };
    let a = Uuid::parse_str(A).unwrap().as_u128();
    assert_eq!(defs[0].task_definitions[0].depends_on, vec![a, a]);
    assert_eq!(defs[0].task_definitions[0].max_attempts, Some(4));
}

#[test]
fn a_bad_pipeline_id_fails_the_read() {
    let err = Uuid::parse_str("nope").unwrap_err().to_string();
    match definitions_from_protos(vec![pipeline_proto("nope", vec![])], UtcTimestamp { unix_nanos: 0 }) {
        Err(Error::Internal(m)) => assert_eq!(m, format!("Failed to parse pipeline ID: {}", err)),
        _ => panic!("expected an error"),
    }
}

#[test]
fn a_task_without_an_execution_context_fails_the_read() {
    let mut bare = task_proto(A, &[]);
    bare.execution_context = None;
    let mut empty = task_proto(B, &[]);
    empty.execution_context = Some(ExecutionContextProto { context_variant: None });
    match definitions_from_protos(
        vec![pipeline_proto(A, vec![task_proto(B, &[]), bare])],
        UtcTimestamp { unix_nanos: 0 },
    ) {
        Err(Error::Internal(m)) => assert_eq!(m, format!("Missing execution context for task {}", A)),
        _ => panic!("expected an error"),
    }
    match definitions_from_protos(vec![pipeline_proto(A, vec![empty])], UtcTimestamp { unix_nanos: 0 }) {
        Err(Error::Internal(m)) => assert_eq!(m, format!("Missing execution context for task {}", B)),
        _ => panic!("expected an error"),
    }
}

#[test]
fn the_first_bad_task_id_fails_the_read() {
    let err = Uuid::parse_str("zzz").unwrap_err().to_string();
    let defs = vec![
        pipeline_proto(A, vec![task_proto(B, &[])]),
        pipeline_proto(B, vec![task_proto(A, &["zzz"]), task_proto("also-bad", &[])]),
    ];
    match definitions_from_protos(defs, UtcTimestamp { unix_nanos: 0 }) {
        Err(Error::Internal(m)) => assert_eq!(m, format!("Failed to parse task ID: {}", err)),
        _ => panic!("expected an error"),
    }
}

#[test]
fn wire_contexts_become_local_process_contexts() {
    let ctx = map_exec_ctx_to_domain(ExecutionContextProto {
        context_variant: Some(ContextVariant::LocalProcess(LocalProcessContextDataProto {
            entry_point: vec!["python".to_string()],
            args: vec!["main.py".to_string()],
            env_vars: HashMap::from([("K".to_string(), "V".to_string())]),
            exec_timeout: Some(ProtoDuration { seconds: 12, nanos: 500 }),
        })),
    });
    let ExecutionContext::LocalProcess(c) = ctx;
    assert_eq!(c.entry_point, vec!["python"]);
    assert_eq!(c.args, vec!["main.py"]);
    assert_eq!(c.env_vars.get("K").map(|s| s.as_str()), Some("V"));
    assert_eq!(c.exec_timeout, Some(TimeSpan { secs: 12, nanos: 0 }));
}

#[test]
fn a_registry_is_recorded_from_its_metadata() {
    let r = registry_from_metadata(
        GetRegistryMetadataResponse { registry_id: A.to_string(), registry_metadata: None },
        "http://[::1]:50051".to_string(),
    );
    let r = match r {
        Ok(r) => r,
        Err(_) => panic!("expected a registry"),
    };
    assert_eq!(r.id, Uuid::parse_str(A).unwrap().as_u128());
    assert_eq!(r.name, "Registry");
    assert_eq!(r.source_type, CodeRegistrySource::Registry);
    assert_eq!(r.address, "http://[::1]:50051");
    assert_eq!(r.metadata, serde_json::Value::Null);

    let err = Uuid::parse_str("x").unwrap_err().to_string();
    match registry_from_metadata(
        GetRegistryMetadataResponse { registry_id: "x".to_string(), registry_metadata: None },
        String::new(),
    ) {
        Err(Error::Internal(m)) => assert_eq!(m, format!("Failed to parse registry ID: {}", err)),
        _ => panic!("expected an error"),
    }
}

#[test]
fn yaml_errors_read_with_and_without_a_location() {
    let e = ParseError::from_yaml_failure(Some((3, 17)), "mapping values are not allowed".to_string());
    assert_eq!(
        e.to_string(),
        "Invalid YAML config at line 3, column 17: mapping values are not allowed"
    );
    match e.into_error() {
        Error::Internal(m) => {
            assert_eq!(m, "Invalid YAML config at line 3, column 17: mapping values are not allowed")
        }
        _ => panic!("expected an internal error"),
    }
    let e = ParseError::from_yaml_failure(None, "EOF".to_string());
    assert_eq!(e.to_string(), "Invalid YAML config: EOF");
}

#[test]
fn other_executors_are_part_of_the_schema() {
    let c = ExecutorConfig::CloudRunJob(CloudRunJobConfig {
        region: "europe-west1".to_string(),
        project_id: "p".to_string(),
        job_name: "j".to_string(),
        timeout_seconds: Some(60),
    });
    assert!(matches!(c, ExecutorConfig::CloudRunJob(ref j) if j.timeout_seconds == Some(60)));
}
