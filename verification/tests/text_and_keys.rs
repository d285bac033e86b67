use std::collections::HashMap;

use iodine::local_process::clone_status;
use iodine::resource_manager::ProvisionedWorkerStatus;
use iodine::router::{KeySet, RoutingKey};
use iodine::task::{ExecutionContext, ExecutionContextKind, LocalProcessExecutionContext, TimeSpan};
use iodine::text::{decimal_string, same_text, signed_decimal_string};

#[test]
fn numbers_are_written_in_decimal() {
    assert_eq!(decimal_string(0), "0");
    assert_eq!(decimal_string(7), "7");
    assert_eq!(decimal_string(10), "10");
    assert_eq!(decimal_string(4242), "4242");
    assert_eq!(decimal_string(u64::MAX), "18446744073709551615");
    assert_eq!(signed_decimal_string(-45), "-45");
    assert_eq!(signed_decimal_string(i32::MAX), "2147483647");
}

#[test]
fn texts_compare_by_their_characters() {
    assert!(same_text("RUNNING", "RUNNING"));
    assert!(!same_text("RUNNING", "Running"));
    assert!(!same_text("", "X"));
}

#[test]
fn key_sets_hold_each_key_once() {
    let mut s = KeySet::new();
    let a = RoutingKey::Singleton(1);
    let b = RoutingKey::Instanced(1, 2);
    assert!(!s.contains(&a));
    s.insert(a);
    s.insert(a);
    s.insert(b);
    assert!(s.contains(&a));
    assert!(s.contains(&b));
    assert!(s.remove(&a));
    assert!(!s.contains(&a));
    assert!(!s.remove(&a));
    assert!(s.contains(&b));
}

#[test]
fn a_context_knows_its_kind() {
    let c = ExecutionContext::LocalProcess(LocalProcessExecutionContext {
        entry_point: vec!["true".to_string()],
        args: vec![],
        env_vars: HashMap::new(),
        exec_timeout: Some(TimeSpan::from_secs(1)),
    });
    assert_eq!(c.kind(), ExecutionContextKind::LocalProcess);
}

#[test]
fn a_status_copy_keeps_its_message() {
    let s = ProvisionedWorkerStatus::Unknown(Some("lost".to_string()));
    assert!(matches!(clone_status(&s), ProvisionedWorkerStatus::Unknown(Some(m)) if m == "lost"));
    assert!(matches!(clone_status(&ProvisionedWorkerStatus::Pending), ProvisionedWorkerStatus::Pending));
}
