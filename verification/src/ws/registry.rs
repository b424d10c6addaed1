use vstd::prelude::*;

use dashmap::DashMap;
use tokio::sync::mpsc::UnboundedSender;
use uuid::Uuid;

verus! {

#[verifier::external_type_specification]
#[verifier::external_body]
#[verifier::reject_recursive_types(K)]
#[verifier::reject_recursive_types(V)]
#[verifier::reject_recursive_types(S)]
pub struct ExDashMap<K, V, S>(DashMap<K, V, S>);

#[verifier::external_type_specification]
#[verifier::external_body]
#[verifier::reject_recursive_types(T)]
pub struct ExUnboundedSender<T>(UnboundedSender<T>);

#[verifier::external_type_specification]
#[verifier::external_body]
pub struct ExUuid(Uuid);

/// A message for one device, already encoded as the JSON text that goes out
/// in a WebSocket text frame.
#[derive(Clone, Debug)]
pub struct ServerMessage {
    pub text: String,
}

/// The sending half of a device's outgoing message queue.
pub type WsSender = UnboundedSender<ServerMessage>;

/// The devices a connection map holds a sender for, each device id taken as
/// the `u128` of its UUID (`Uuid::as_u128`).
pub uninterp spec fn connected_devices(map: DashMap<Uuid, UnboundedSender<ServerMessage>>) -> Set<
    u128,
>;

/// `DashMap::new`: a map with no entries.
#[verifier::external_body]
fn devices_new() -> (map: DashMap<Uuid, WsSender>)
    ensures
        connected_devices(map) == Set::<u128>::empty(),
{
    DashMap::new()
}

/// `DashMap::insert` under the key `Uuid::from_u128(device_id)`: afterwards
/// the map holds that device (a sender it held before is replaced) and every
/// other entry is unchanged.
#[verifier::external_body]
fn devices_insert(map: &mut DashMap<Uuid, WsSender>, device_id: u128, sender: WsSender)
    ensures
        connected_devices(*final(map)) == connected_devices(*old(map)).insert(device_id),
{
    map.insert(Uuid::from_u128(device_id), sender);
}

/// `DashMap::remove` of the key `Uuid::from_u128(device_id)`: afterwards the
/// map no longer holds that device and every other entry is unchanged.
#[verifier::external_body]
fn devices_remove(map: &mut DashMap<Uuid, WsSender>, device_id: u128)
    ensures
        connected_devices(*final(map)) == connected_devices(*old(map)).remove(device_id),
{
    map.remove(&Uuid::from_u128(device_id));
}

/// `DashMap::get` of the key `Uuid::from_u128(device_id)`, handing out a
/// clone of the sender found (a clone feeds the same queue). The contract
/// claims only that a sender is found exactly when the map holds the device;
/// which sender it is stays unsaid.
#[verifier::external_body]
fn devices_get(map: &DashMap<Uuid, WsSender>, device_id: u128) -> (sender: Option<WsSender>)
    ensures
        sender is Some <==> connected_devices(*map).contains(device_id),
{
    map.get(&Uuid::from_u128(device_id)).map(|entry| entry.value().clone())
}

/// `DashMap::contains_key` of the key `Uuid::from_u128(device_id)`.
#[verifier::external_body]
fn devices_contains(map: &DashMap<Uuid, WsSender>, device_id: u128) -> (found: bool)
    ensures
        found == connected_devices(*map).contains(device_id),
{
    map.contains_key(&Uuid::from_u128(device_id))
}

/// `DashMap::len`: the number of entries.
#[verifier::external_body]
fn devices_len(map: &DashMap<Uuid, WsSender>) -> (n: usize)
    ensures
        n == connected_devices(*map).len(),
{
    map.len()
}

/// `UnboundedSender::send`, telling whether the message was queued. Whether
/// it is depends on whether the receiving half is still open, which nothing
/// here can see, so the contract claims nothing of the result.
#[verifier::external_body]
fn sender_send(sender: &WsSender, msg: ServerMessage) -> (queued: bool) {
    sender.send(msg).is_ok()
}

/// The live WebSocket connections, one outgoing queue per device.
pub struct ConnectionRegistry {
    connections: DashMap<Uuid, WsSender>,
}

impl View for ConnectionRegistry {
    /// The ids of the connected devices.
    type V = Set<u128>;

    closed spec fn view(&self) -> Set<u128> {
        connected_devices(self.connections)
    }
}

impl ConnectionRegistry {
    /// A registry holds finitely many connections.
    #[verifier::type_invariant]
    spec fn holds_finitely_many(self) -> bool {
        connected_devices(self.connections).finite()
    }

    /// A registry with no connected device.
    pub fn new() -> (r: Self)
        ensures
            r@ == Set::<u128>::empty(),
    {
        ConnectionRegistry { connections: devices_new() }
    }

    /// Records the queue of a device that has connected, replacing the one it
    /// had if it was connected already.
    pub fn register(&mut self, device_id: u128, sender: WsSender)
        ensures
            final(self)@ == old(self)@.insert(device_id),
            final(self)@.contains(device_id),
            forall|other: u128|
                other != device_id ==> (#[trigger] final(self)@.contains(other) == old(
                    self,
                )@.contains(other)),
            final(self)@.finite(),
            final(self)@.len() == if old(self)@.contains(device_id) {
                old(self)@.len()
            } else {
                old(self)@.len() + 1
            },
    {
        proof {
            use_type_invariant(&*self);
        }
        // The map is taken out while it changes, so that the registry stays
        // well formed should the insertion unwind.
        let mut map = devices_new();
        std::mem::swap(&mut map, &mut self.connections);
        devices_insert(&mut map, device_id, sender);
        self.connections = map;
    }

    /// Forgets a device that has disconnected.
    pub fn unregister(&mut self, device_id: u128)
        ensures
            final(self)@ == old(self)@.remove(device_id),
            !final(self)@.contains(device_id),
            forall|other: u128|
                other != device_id ==> (#[trigger] final(self)@.contains(other) == old(
                    self,
                )@.contains(other)),
            final(self)@.finite(),
            final(self)@.len() == if old(self)@.contains(device_id) {
                old(self)@.len() - 1
            } else {
                old(self)@.len() as int
            },
    {
        proof {
            use_type_invariant(&*self);
        }
        // The map is taken out while it changes, as in `register`.
        let mut map = devices_new();
        std::mem::swap(&mut map, &mut self.connections);
        devices_remove(&mut map, device_id);
        self.connections = map;
    }

    /// Queues a message for one device. Returns whether it was queued: never
    /// for a device that is not connected; for a connected one, as long as
    /// its connection is still reading.
    pub fn send_to_device(&self, device_id: u128, msg: ServerMessage) -> (queued: bool)
        ensures
            queued ==> self@.contains(device_id),
    {
        match devices_get(&self.connections, device_id) {
            Some(sender) => sender_send(&sender, msg),
            None => false,
        }
    }

    /// Queues a copy of a message for each of a user's devices that is
    /// connected; the others are skipped. Every listed device is tried, in
    /// order, whatever the devices before it gave. Returns, for each listed
    /// device, whether a copy was queued for it: never for a device that is not
    /// connected; for a connected one, as long as its connection is still
    /// reading.
    pub fn send_to_user_devices(&self, user_devices: &[u128], msg: &ServerMessage) -> (queued: Vec<
        bool,
    >)
        ensures
            queued@.len() == user_devices@.len(),
            forall|i: int|
                0 <= i < user_devices@.len() && #[trigger] queued@[i] ==> self@.contains(
                    user_devices@[i],
                ),
    {
        let mut queued: Vec<bool> = Vec::new();
        let n = user_devices.len();
        for i in 0..n
            invariant
                n == user_devices@.len(),
                queued@.len() == i,
                forall|j: int|
                    0 <= j < i && #[trigger] queued@[j] ==> self@.contains(user_devices@[j]),
        {
            let sent = self.send_to_device(user_devices[i], msg.clone());
            queued.push(sent);
        }
        queued
    }

    /// Whether a device is connected.
    pub fn is_connected(&self, device_id: u128) -> (connected: bool)
        ensures
            connected == self@.contains(device_id),
    {
        devices_contains(&self.connections, device_id)
    }

    /// How many devices are connected.
    pub fn connected_count(&self) -> (n: usize)
        ensures
            self@.finite(),
            n == self@.len(),
    {
        proof {
            use_type_invariant(self);
        }
        devices_len(&self.connections)
    }
}

impl Default for ConnectionRegistry {
    fn default() -> (r: Self)
        ensures
            r@ == Set::<u128>::empty(),
    {
        ConnectionRegistry::new()
    }
}

/// Unregistering a device that had just connected leaves the registry as it
/// was before: `between` is `before` after `register(device_id, _)` and
/// `after` is `between` after `unregister(device_id)`.
pub proof fn law_unregister_undoes_register(
    before: ConnectionRegistry,
    between: ConnectionRegistry,
    after: ConnectionRegistry,
    device_id: u128,
)
    requires
        !before@.contains(device_id),
        between@ == before@.insert(device_id),
        after@ == between@.remove(device_id),
    ensures
        after@ == before@,
{
    assert(before@.insert(device_id).remove(device_id) =~= before@);
}

} // verus!
