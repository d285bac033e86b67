//! The routing table of the command router: which command channels are
//! registered, which receivers are still to be handed out, and which have
//! been handed out. The channels themselves live with the router; the
//! table decides every registration, dispatch and subscription.

use vstd::prelude::*;

verus! {

/// Commands of the registry discovery service.
#[derive(Debug, Clone, Copy, PartialEq, Eq, Structural)]
#[non_exhaustive]
pub enum DiscoveryCommand {
    InitRegistries,
    ReloadRegistries,
    ReloadRegistry { registry_id: u128 },
    RemoveTrackedRegistry { registry_id: u128 },
}

/// Identifies a channel: a singleton service by the type of its commands,
/// an instanced service also by the instance's id. The type of the commands
/// is given as a tag that the router assigns to each command type.
#[derive(Clone, Copy, Debug, PartialEq, Eq, Hash, Structural)]
pub enum RoutingKey {
    Singleton(u64),
    Instanced(u64, u128),
}

/// The key under which commands of type `type_tag` reach their handler:
/// the instance's channel when an instance is named, the singleton's
/// otherwise.
pub open spec fn spec_routing_key(type_tag: u64, target_instance_id: Option<u128>) -> RoutingKey {
    match target_instance_id {
        Some(id) => RoutingKey::Instanced(type_tag, id),
        None => RoutingKey::Singleton(type_tag),
    }
}

/// The key under which commands of type `type_tag` reach their handler.
pub fn get_routing_key(type_tag: u64, target_instance_id: Option<u128>) -> (k: RoutingKey)
    ensures
        k == spec_routing_key(type_tag, target_instance_id),
{
    match target_instance_id {
        Some(id) => RoutingKey::Instanced(type_tag, id),
        None => RoutingKey::Singleton(type_tag),
    }
}

/// A finite set of routing keys.
pub struct KeySet {
    keys: Vec<RoutingKey>,
}

impl View for KeySet {
    type V = Set<RoutingKey>;

    closed spec fn view(&self) -> Set<RoutingKey> {
        Set::new(|k: RoutingKey| self.keys@.contains(k))
    }
}

impl KeySet {
    /// The empty set.
    pub fn new() -> (s: KeySet)
        ensures
            s@ == Set::<RoutingKey>::empty(),
    {
        let s = KeySet { keys: Vec::new() };
        assert(s@ =~= Set::<RoutingKey>::empty());
        s
    }

    /// Whether `k` is in the set.
    pub fn contains(&self, k: &RoutingKey) -> (b: bool)
        ensures
            b == self@.contains(*k),
    {
        let mut i: usize = 0;
        while i < self.keys.len()
            invariant
                0 <= i <= self.keys@.len(),
                forall|j: int| 0 <= j < i ==> self.keys@[j] != *k,
            decreases self.keys@.len() - i,
        {
            if self.keys[i] == *k {
                return true;
            }
            i += 1;
        }
        false
    }

    /// Adds `k` to the set.
    pub fn insert(&mut self, k: RoutingKey)
        ensures
            final(self)@ == old(self)@.insert(k),
    {
        if !self.contains(&k) {
            let ghost old_keys = self.keys@;
            self.keys.push(k);
            proof {
                assert forall|x: RoutingKey| self.keys@.contains(x) <==> old_keys.contains(x) || x == k by {
                    if self.keys@.contains(x) {
                        let i = choose|i: int| 0 <= i < self.keys@.len() && self.keys@[i] == x;
                        if i < old_keys.len() {
                            assert(old_keys[i] == x);
                        }
                    }
                    if old_keys.contains(x) {
                        let i = choose|i: int| 0 <= i < old_keys.len() && old_keys[i] == x;
                        assert(self.keys@[i] == x);
                    }
                    if x == k {
                        assert(self.keys@[old_keys.len() as int] == x);
                    }
                }
            }
        }
        assert(self@ =~= old(self)@.insert(k));
    }

    /// Takes `k` out of the set; tells whether it was in.
    pub fn remove(&mut self, k: &RoutingKey) -> (was_in: bool)
        ensures
            was_in == old(self)@.contains(*k),
            final(self)@ == old(self)@.remove(*k),
    {
        let was_in = self.contains(k);
        let ghost old_keys = self.keys@;
        let mut kept: Vec<RoutingKey> = Vec::new();
        let mut i: usize = 0;
        while i < self.keys.len()
            invariant
                self.keys@ == old_keys,
                0 <= i <= old_keys.len(),
                forall|x: RoutingKey|
                    kept@.contains(x) <==> (exists|j: int|
                        0 <= j < i && #[trigger] old_keys[j] == x) && x != *k,
            decreases old_keys.len() - i,
        {
            let x = self.keys[i];
            if x != *k {
                let ghost before = kept@;
                kept.push(x);
                proof {
                    assert forall|y: RoutingKey| kept@.contains(y) <==> before.contains(y) || y == x by {
                        if kept@.contains(y) {
                            let m = choose|m: int| 0 <= m < kept@.len() && kept@[m] == y;
                            if m < before.len() {
                                assert(before[m] == y);
                            }
                        }
                        if before.contains(y) {
                            let m = choose|m: int| 0 <= m < before.len() && before[m] == y;
                            assert(kept@[m] == y);
                        }
                        if y == x {
                            assert(kept@[before.len() as int] == y);
                        }
                    }
                    assert forall|y: RoutingKey|
                        kept@.contains(y) <==> (exists|j: int|
                            0 <= j < i + 1 && #[trigger] old_keys[j] == y) && y != *k by {
                        if y == x {
                            assert(old_keys[i as int] == y);
                        }
                        if before.contains(y) {
                            let j = choose|j: int| 0 <= j < i && #[trigger] old_keys[j] == y;
                            assert(0 <= j < i + 1 && old_keys[j] == y);
                        }
                        if (exists|j: int| 0 <= j < i + 1 && #[trigger] old_keys[j] == y) && y != *k {
                            let j = choose|j: int| 0 <= j < i + 1 && #[trigger] old_keys[j] == y;
                            if j < i {
                                assert(before.contains(y));
                            }
                        }
                    }
                }
            } else {
                proof {
                    assert forall|y: RoutingKey|
                        kept@.contains(y) <==> (exists|j: int|
                            0 <= j < i + 1 && #[trigger] old_keys[j] == y) && y != *k by {
                        if (exists|j: int| 0 <= j < i + 1 && #[trigger] old_keys[j] == y) && y != *k {
                            let j = choose|j: int| 0 <= j < i + 1 && #[trigger] old_keys[j] == y;
                            assert(j < i);
                        }
                    }
                }
            }
            i += 1;
        }
        self.keys = kept;
        proof {
            assert forall|y: RoutingKey| self@.contains(y) <==> old(self)@.remove(*k).contains(y) by {
                if old_keys.contains(y) {
                    let j = choose|j: int| 0 <= j < old_keys.len() && old_keys[j] == y;
                    assert(old_keys[j] == y);
                }
            }
            assert(self@ =~= old(self)@.remove(*k));
        }
        was_in
    }
}

/// Why the router refuses a request.
#[derive(Clone, Copy, Debug, PartialEq, Eq, Structural)]
pub enum RouteRefusal {
    /// A handler is already registered under the key.
    AlreadyRegistered,
    /// The key's receiver has already been handed out.
    AlreadySubscribed,
    /// No receiver waits under the key.
    NoReceiver,
    /// No handler is registered under the key.
    NoHandler,
}

/// The routing table as sets of keys.
pub struct RoutingView {
    /// Keys with a registered sender.
    pub senders: Set<RoutingKey>,
    /// Keys whose receiver waits to be handed out.
    pub receivers: Set<RoutingKey>,
    /// Keys whose receiver has been handed out.
    pub subscribed: Set<RoutingKey>,
}

/// The table after registering a handler under `key`: refused when a
/// sender is already there.
pub open spec fn after_register(t: RoutingView, key: RoutingKey) -> (RoutingView, Result<
    (),
    RouteRefusal,
>) {
    if t.senders.contains(key) || t.receivers.contains(key) {
        (t, Err(RouteRefusal::AlreadyRegistered))
    } else {
        (
            RoutingView {
                senders: t.senders.insert(key),
                receivers: t.receivers.insert(key),
                subscribed: t.subscribed,
            },
            Ok(()),
        )
    }
}

/// The table after deregistering the handler under `key`.
pub open spec fn after_deregister(t: RoutingView, key: RoutingKey) -> RoutingView {
    RoutingView {
        senders: t.senders.remove(key),
        receivers: t.receivers.remove(key),
        subscribed: t.subscribed,
    }
}

/// The table after handing out the receiver under `key`: refused when it
/// was handed out before or none waits.
pub open spec fn after_subscribe(t: RoutingView, key: RoutingKey) -> (RoutingView, Result<
    (),
    RouteRefusal,
>) {
    if t.subscribed.contains(key) {
        (t, Err(RouteRefusal::AlreadySubscribed))
    } else if !t.receivers.contains(key) {
        (t, Err(RouteRefusal::NoReceiver))
    } else {
        (
            RoutingView {
                senders: t.senders,
                receivers: t.receivers.remove(key),
                subscribed: t.subscribed.insert(key),
            },
            Ok(()),
        )
    }
}

/// The table keeps a receiver only where it keeps a sender.
pub open spec fn routing_invariant(t: RoutingView) -> bool {
    t.receivers.subset_of(t.senders)
}

/// The routing table of a command router.
pub struct RoutingTable {
    senders: KeySet,
    receivers: KeySet,
    subscribed: KeySet,
}

impl View for RoutingTable {
    type V = RoutingView;

    closed spec fn view(&self) -> RoutingView {
        RoutingView {
            senders: self.senders@,
            receivers: self.receivers@,
            subscribed: self.subscribed@,
        }
    }
}

impl RoutingTable {
    /// The table keeps a receiver only where it keeps a sender.
    #[verifier::type_invariant]
    closed spec fn keeps_receivers_with_senders(self) -> bool {
        routing_invariant(self@)
    }

    /// Takes the three sets out of the table, leaving it empty.
    fn take_sets(&mut self) -> (r: (KeySet, KeySet, KeySet))
        ensures
            r.0@ == old(self)@.senders,
            r.1@ == old(self)@.receivers,
            r.2@ == old(self)@.subscribed,
            routing_invariant(old(self)@),
    {
        proof {
            use_type_invariant(&*self);
        }
        let mut t = RoutingTable::new();
        std::mem::swap(self, &mut t);
        let RoutingTable { senders, receivers, subscribed } = t;
        (senders, receivers, subscribed)
    }

    /// An empty table.
    pub fn new() -> (t: RoutingTable)
        ensures
            t@.senders == Set::<RoutingKey>::empty(),
            t@.receivers == Set::<RoutingKey>::empty(),
            t@.subscribed == Set::<RoutingKey>::empty(),
            routing_invariant(t@),
    {
        RoutingTable { senders: KeySet::new(), receivers: KeySet::new(), subscribed: KeySet::new() }
    }

    /// Registers a handler under `key`, refused when one is registered.
    pub fn register(&mut self, key: RoutingKey) -> (r: Result<(), RouteRefusal>)
        ensures
            (final(self)@, r) == after_register(old(self)@, key),
            r is Err <==> old(self)@.senders.contains(key),
            routing_invariant(final(self)@),
    {
        proof {
            use_type_invariant(&*self);
        }
        if self.senders.contains(&key) {
            return Err(RouteRefusal::AlreadyRegistered);
        }
        if self.receivers.contains(&key) {
            return Err(RouteRefusal::AlreadyRegistered);
        }
        let (mut senders, mut receivers, subscribed) = self.take_sets();
        senders.insert(key);
        receivers.insert(key);
        *self = RoutingTable { senders, receivers, subscribed };
        Ok(())
    }

    /// Removes the handler under `key`, if any; tells whether a sender and
    /// a receiver were removed.
    pub fn deregister(&mut self, key: &RoutingKey) -> (r: (bool, bool))
        ensures
            final(self)@ == after_deregister(old(self)@, *key),
            r == (old(self)@.senders.contains(*key), old(self)@.receivers.contains(*key)),
            routing_invariant(final(self)@),
    {
        proof {
            use_type_invariant(&*self);
        }
        let (mut senders, mut receivers, subscribed) = self.take_sets();
        let rcv = receivers.remove(key);
        let s = senders.remove(key);
        *self = RoutingTable { senders, receivers, subscribed };
        (s, rcv)
    }

    /// Whether a command sent under `key` has a handler to reach.
    pub fn dispatch_target(&self, key: &RoutingKey) -> (r: Result<(), RouteRefusal>)
        ensures
            r == if self@.senders.contains(*key) {
                Ok::<(), RouteRefusal>(())
            } else {
                Err(RouteRefusal::NoHandler)
            },
    {
        if self.senders.contains(key) {
            Ok(())
        } else {
            Err(RouteRefusal::NoHandler)
        }
    }

    /// Hands out the receiver under `key`, refused when it was handed out
    /// before or none waits.
    pub fn subscribe(&mut self, key: RoutingKey) -> (r: Result<(), RouteRefusal>)
        ensures
            (final(self)@, r) == after_subscribe(old(self)@, key),
            routing_invariant(final(self)@),
    {
        proof {
            use_type_invariant(&*self);
        }
        if self.subscribed.contains(&key) {
            return Err(RouteRefusal::AlreadySubscribed);
        }
        if !self.receivers.contains(&key) {
            return Err(RouteRefusal::NoReceiver);
        }
        let (senders, mut receivers, mut subscribed) = self.take_sets();
        receivers.remove(&key);
        subscribed.insert(key);
        *self = RoutingTable { senders, receivers, subscribed };
        Ok(())
    }
}

// ---------------------------------------------------------------------
// Laws of the routing table.
// ---------------------------------------------------------------------

/// Registering, deregistering and subscribing keep a receiver only where a
/// sender is.
pub proof fn law_routing_invariant_is_kept(t: RoutingView, key: RoutingKey)
    requires
        routing_invariant(t),
    ensures
        routing_invariant(after_register(t, key).0),
        routing_invariant(after_deregister(t, key)),
        routing_invariant(after_subscribe(t, key).0),
{
}

/// A receiver is handed out at most once: after a subscription under a key,
/// every later subscription under it is refused, whatever registrations
/// and deregistrations come between.
pub proof fn law_receiver_handed_out_once(t: RoutingView, key: RoutingKey, other: RoutingKey)
    requires
        after_subscribe(t, key).1 is Ok,
    ensures
        after_subscribe(after_subscribe(t, key).0, key).1 == Err::<(), RouteRefusal>(
            RouteRefusal::AlreadySubscribed,
        ),
        after_register(after_subscribe(t, key).0, other).0.subscribed.contains(key),
        after_deregister(after_subscribe(t, key).0, other).subscribed.contains(key),
        after_subscribe(after_subscribe(t, key).0, other).0.subscribed.contains(key),
{
}

/// A handler registered under a fresh key can be subscribed to and reached
/// by dispatch; once deregistered, dispatch no longer reaches it.
pub proof fn law_register_then_subscribe(t: RoutingView, key: RoutingKey)
    requires
        !t.senders.contains(key),
        !t.receivers.contains(key),
        !t.subscribed.contains(key),
    ensures
        after_register(t, key).1 is Ok,
        after_register(t, key).0.senders.contains(key),
        after_subscribe(after_register(t, key).0, key).1 is Ok,
        after_subscribe(after_register(t, key).0, key).0.senders.contains(key),
        !after_deregister(after_register(t, key).0, key).senders.contains(key),
        after_register(after_register(t, key).0, key).1 == Err::<(), RouteRefusal>(
            RouteRefusal::AlreadyRegistered,
        ),
{
}

/// One request to the routing table.
pub enum RouteOp {
    Register(RoutingKey),
    Deregister(RoutingKey),
    Subscribe(RoutingKey),
}

/// The table after one request.
pub open spec fn after_op(t: RoutingView, op: RouteOp) -> RoutingView {
    match op {
        RouteOp::Register(key) => after_register(t, key).0,
        RouteOp::Deregister(key) => after_deregister(t, key),
        RouteOp::Subscribe(key) => after_subscribe(t, key).0,
    }
}

/// The table of a new router after the first `n` requests of `ops`.
pub open spec fn table_after(ops: Seq<RouteOp>, n: int) -> RoutingView
    decreases n,
{
    if n <= 0 {
        RoutingView {
            senders: Set::empty(),
            receivers: Set::empty(),
            subscribed: Set::empty(),
        }
    } else {
        after_op(table_after(ops, n - 1), ops[n - 1])
    }
}

/// Whether request `i` of `ops` registered a handler under `key`, and was
/// not refused.
pub open spec fn registered_at(ops: Seq<RouteOp>, i: int, key: RoutingKey) -> bool {
    &&& ops[i] == RouteOp::Register(key)
    &&& after_register(table_after(ops, i), key).1 is Ok
}

/// Whether request `i` of `ops` subscribed under `key`, and was not refused.
pub open spec fn subscribed_at(ops: Seq<RouteOp>, i: int, key: RoutingKey) -> bool {
    &&& ops[i] == RouteOp::Subscribe(key)
    &&& after_subscribe(table_after(ops, i), key).1 is Ok
}

/// Whether a request strictly between `i` and `n` deregistered `key`.
pub open spec fn deregistered_between(ops: Seq<RouteOp>, i: int, n: int, key: RoutingKey) -> bool {
    exists|j: int| i < j < n && #[trigger] ops[j] == RouteOp::Deregister(key)
}

/// Whether among the first `n` requests a registration under `key`
/// succeeded and no deregistration of `key` came after it.
pub open spec fn live_registration(ops: Seq<RouteOp>, n: int, key: RoutingKey) -> bool {
    exists|i: int|
        0 <= i < n && #[trigger] registered_at(ops, i, key) && !deregistered_between(ops, i, n, key)
}

/// Whether among the first `n` requests a subscription under `key`
/// succeeded.
pub open spec fn ever_subscribed(ops: Seq<RouteOp>, n: int, key: RoutingKey) -> bool {
    exists|j: int| 0 <= j < n && #[trigger] subscribed_at(ops, j, key)
}

/// What the first `n` requests leave of `key` in the table: a sender
/// exactly while a registration is live, the key among the subscribed
/// exactly once a subscription succeeded, and, until then, a receiver
/// exactly where a sender is.
proof fn lemma_history(ops: Seq<RouteOp>, n: int, key: RoutingKey)
    requires
        0 <= n <= ops.len(),
    ensures
        routing_invariant(table_after(ops, n)),
        table_after(ops, n).subscribed.contains(key) <==> ever_subscribed(ops, n, key),
        table_after(ops, n).senders.contains(key) <==> live_registration(ops, n, key),
        !ever_subscribed(ops, n, key) ==> (table_after(ops, n).receivers.contains(key)
            <==> table_after(ops, n).senders.contains(key)),
    decreases n,
{
    if n > 0 {
        lemma_history(ops, n - 1, key);
        let t = table_after(ops, n - 1);
        let op = ops[n - 1];
        match op {
            RouteOp::Register(k) => law_routing_invariant_is_kept(t, k),
            RouteOp::Deregister(k) => law_routing_invariant_is_kept(t, k),
            RouteOp::Subscribe(k) => law_routing_invariant_is_kept(t, k),
        }
        assert(ever_subscribed(ops, n, key) <==> ever_subscribed(ops, n - 1, key) || subscribed_at(
            ops,
            n - 1,
            key,
        )) by {
            if ever_subscribed(ops, n, key) {
                let j = choose|j: int| 0 <= j < n && #[trigger] subscribed_at(ops, j, key);
                if j < n - 1 {
                    assert(ever_subscribed(ops, n - 1, key));
                }
            }
            if ever_subscribed(ops, n - 1, key) {
                let j = choose|j: int| 0 <= j < n - 1 && #[trigger] subscribed_at(ops, j, key);
                assert(0 <= j < n && subscribed_at(ops, j, key));
            }
            if subscribed_at(ops, n - 1, key) {
                assert(0 <= n - 1 < n && subscribed_at(ops, n - 1, key));
            }
        }
        assert(live_registration(ops, n, key) <==> registered_at(ops, n - 1, key) || (
        live_registration(ops, n - 1, key) && op != RouteOp::Deregister(key))) by {
            if live_registration(ops, n, key) {
                let i = choose|i: int|
                    0 <= i < n && #[trigger] registered_at(ops, i, key) && !deregistered_between(
                        ops,
                        i,
                        n,
                        key,
                    );
                if i < n - 1 {
                    assert(!deregistered_between(ops, i, n - 1, key));
                    assert(live_registration(ops, n - 1, key));
                    if op == RouteOp::Deregister(key) {
                        assert(i < n - 1 < n && ops[n - 1] == RouteOp::Deregister(key));
                    }
                }
            }
            if registered_at(ops, n - 1, key) {
                assert(!deregistered_between(ops, n - 1, n, key));
            }
            if live_registration(ops, n - 1, key) && op != RouteOp::Deregister(key) {
                let i = choose|i: int|
                    0 <= i < n - 1 && #[trigger] registered_at(ops, i, key) && !deregistered_between(
                        ops,
                        i,
                        n - 1,
                        key,
                    );
                assert(!deregistered_between(ops, i, n, key));
            }
        }
    }
}

/// Subscribing succeeds exactly when a handler was registered under the key
/// and not deregistered since, and no subscription under the key succeeded
/// before, on a router that starts empty, whatever requests came between.
pub proof fn law_subscription_follows_history(ops: Seq<RouteOp>, key: RoutingKey)
    ensures
        after_subscribe(table_after(ops, ops.len() as int), key).1 is Ok <==> (live_registration(
            ops,
            ops.len() as int,
            key,
        ) && !ever_subscribed(ops, ops.len() as int, key)),
{
    lemma_history(ops, ops.len() as int, key);
}

} // verus!
