use iodine::router::{get_routing_key, DiscoveryCommand, RouteRefusal, RoutingKey, RoutingTable};

#[test]
fn routing_keys_name_the_instance_when_there_is_one() {
    assert_eq!(get_routing_key(3, None), RoutingKey::Singleton(3));
    assert_eq!(get_routing_key(3, Some(77)), RoutingKey::Instanced(3, 77));
}

#[test]
fn a_registered_handler_is_subscribed_once_and_reached() {
    let mut t = RoutingTable::new();
    let k = RoutingKey::Singleton(1);
    assert_eq!(t.dispatch_target(&k), Err(RouteRefusal::NoHandler));
    assert_eq!(t.subscribe(k), Err(RouteRefusal::NoReceiver));
    assert_eq!(t.register(k), Ok(()));
    assert_eq!(t.dispatch_target(&k), Ok(()));
    assert_eq!(t.subscribe(k), Ok(()));
    assert_eq!(t.subscribe(k), Err(RouteRefusal::AlreadySubscribed));
    assert_eq!(t.dispatch_target(&k), Ok(()));
}

#[test]
fn registering_twice_is_refused() {
    let mut t = RoutingTable::new();
    let k = RoutingKey::Instanced(2, 9);
    assert_eq!(t.register(k), Ok(()));
    assert_eq!(t.register(k), Err(RouteRefusal::AlreadyRegistered));
    // Another instance of the same command type is a different key.
    assert_eq!(t.register(RoutingKey::Instanced(2, 10)), Ok(()));
}

#[test]
fn deregistering_removes_the_handler() {
    let mut t = RoutingTable::new();
    let k = RoutingKey::Singleton(4);
    assert_eq!(t.deregister(&k), (false, false));
    t.register(k).unwrap();
    assert_eq!(t.deregister(&k), (true, true));
    assert_eq!(t.dispatch_target(&k), Err(RouteRefusal::NoHandler));
    t.register(k).unwrap();
    t.subscribe(k).unwrap();
    // The receiver was handed out: only the sender is left to remove.
    assert_eq!(t.deregister(&k), (true, false));
}

#[test]
fn a_handed_out_receiver_is_not_handed_out_again_after_reregistering() {
    let mut t = RoutingTable::new();
    let k = RoutingKey::Singleton(5);
    t.register(k).unwrap();
    t.subscribe(k).unwrap();
    t.deregister(&k);
    t.register(k).unwrap();
    assert_eq!(t.subscribe(k), Err(RouteRefusal::AlreadySubscribed));
}

#[test]
fn subscribing_needs_a_live_registration_and_no_earlier_subscription() {
    let mut t = RoutingTable::new();
    let k = RoutingKey::Instanced(3, 9);
    let other = RoutingKey::Singleton(4);
    assert_eq!(t.subscribe(k), Err(RouteRefusal::NoReceiver));
    t.register(k).unwrap();
    t.deregister(&k);
    assert_eq!(t.subscribe(k), Err(RouteRefusal::NoReceiver));
    t.register(k).unwrap();
    t.register(other).unwrap();
    t.subscribe(other).unwrap();
    assert_eq!(t.register(k), Err(RouteRefusal::AlreadyRegistered));
    assert_eq!(t.subscribe(k), Ok(()));
    assert_eq!(t.subscribe(k), Err(RouteRefusal::AlreadySubscribed));
}

#[test]
fn discovery_commands_carry_their_registry() {
    let c = DiscoveryCommand::ReloadRegistry { registry_id: 12 };
    assert_eq!(c, DiscoveryCommand::ReloadRegistry { registry_id: 12 });
    assert_ne!(c, DiscoveryCommand::RemoveTrackedRegistry { registry_id: 12 });
}
