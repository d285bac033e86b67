use iodine::exec_mgr_registry::ExecutionManagerRegistry;
use iodine::task::ExecutionContextKind;

#[test]
fn an_empty_registry_has_no_manager() {
    let r: ExecutionManagerRegistry<&str> = ExecutionManagerRegistry::new();
    assert!(r.get_manager(ExecutionContextKind::LocalProcess).is_none());
    assert!(r.get_manager_by_id(1).is_none());
}

#[test]
fn managers_are_found_by_id_and_by_kind() {
    let mut r = ExecutionManagerRegistry::new();
    r.register_manager(1, ExecutionContextKind::LocalProcess, "first");
    r.register_manager(2, ExecutionContextKind::LocalProcess, "second");
    assert_eq!(r.get_manager_by_id(2), Some(&"second"));
    assert_eq!(r.get_manager_by_id(1), Some(&"first"));
    assert!(r.get_manager_by_id(3).is_none());
    let found = r.get_manager(ExecutionContextKind::LocalProcess);
    assert!(found == Some(&"first") || found == Some(&"second"));
}

#[test]
fn registering_an_id_again_replaces_its_manager() {
    let mut r = ExecutionManagerRegistry::new();
    r.register_manager(1, ExecutionContextKind::LocalProcess, "old");
    r.register_manager(1, ExecutionContextKind::LocalProcess, "new");
    assert_eq!(r.get_manager_by_id(1), Some(&"new"));
    assert_eq!(r.get_manager(ExecutionContextKind::LocalProcess), Some(&"new"));
}
