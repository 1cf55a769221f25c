//! The registry of connected devices: which device key holds which
//! connection, which devices belong to which gateway, and what was last
//! known of each device.

use vstd::prelude::*;
use crate::protocol::{DisconnectMessage, DisconnectReason, TunnelMessage};
use dashmap::DashMap;
use crate::http::UtcTime;

verus! {

/// The key a device authenticates with.
pub struct DeviceKey(pub String);

impl DeviceKey {
    /// The key with the given text.
    pub fn new(key: &str) -> (k: DeviceKey)
        ensures
            k.0@ == key@,
    {
        DeviceKey(key.to_string())
    }
}

/// A live device connection.  `channel` names the outbound queue that the
/// caller keeps for this connection.
#[derive(Debug)]
pub struct ConnectionHandle {
    pub session_id: String,
    pub device_id: String,
    pub gateway_id: String,
    pub device_alias: String,
    /// Connection time.
    pub connected_at_utc: UtcTime,
    pub device_name: Option<String>,
    pub channel: u64,
    /// Last time the device was heard from, in seconds since the Unix epoch.
    pub last_seen: u64,
}

/// What is remembered of a device, also after it disconnected.
#[derive(Debug)]
pub struct DeviceInfo {
    pub device_id: String,
    pub alias: String,
    pub device_name: Option<String>,
    /// Last time the device was heard from.
    pub last_seen: UtcTime,
}

/// A copy of an optional text.
pub fn copy_opt(o: &Option<String>) -> (r: Option<String>)
    ensures
        r == *o,
{
    match o {
        Some(s) => Some(s.clone()),
        None => None,
    }
}

impl Clone for ConnectionHandle {
    fn clone(&self) -> (r: Self)
        ensures
            r == *self,
    {
        ConnectionHandle {
            session_id: self.session_id.clone(),
            device_id: self.device_id.clone(),
            gateway_id: self.gateway_id.clone(),
            device_alias: self.device_alias.clone(),
            connected_at_utc: self.connected_at_utc,
            device_name: copy_opt(&self.device_name),
            channel: self.channel,
            last_seen: self.last_seen,
        }
    }
}

impl Clone for DeviceInfo {
    fn clone(&self) -> (r: Self)
        ensures
            r == *self,
    {
        DeviceInfo {
            device_id: self.device_id.clone(),
            alias: self.alias.clone(),
            device_name: copy_opt(&self.device_name),
            last_seen: self.last_seen,
        }
    }
}

/// The mathematical content of a connection handle.
pub struct HandleView {
    pub session_id: Seq<char>,
    pub device_id: Seq<char>,
    pub gateway_id: Seq<char>,
    pub device_alias: Seq<char>,
    pub connected_at_utc: UtcTime,
    pub device_name: Option<Seq<char>>,
    pub channel: u64,
    pub last_seen: u64,
}

/// The mathematical content of device information.
pub struct InfoView {
    pub device_id: Seq<char>,
    pub alias: Seq<char>,
    pub device_name: Option<Seq<char>>,
    pub last_seen: UtcTime,
}

impl View for ConnectionHandle {
    type V = HandleView;

    open spec fn view(&self) -> HandleView {
        HandleView {
            session_id: self.session_id@,
            device_id: self.device_id@,
            gateway_id: self.gateway_id@,
            device_alias: self.device_alias@,
            connected_at_utc: self.connected_at_utc,
            device_name: self.device_name.deep_view(),
            channel: self.channel,
            last_seen: self.last_seen,
        }
    }
}

impl View for DeviceInfo {
    type V = InfoView;

    open spec fn view(&self) -> InfoView {
        InfoView {
            device_id: self.device_id@,
            alias: self.alias@,
            device_name: self.device_name.deep_view(),
            last_seen: self.last_seen,
        }
    }
}

/// The registry as maps: device key to connection, gateway to the device
/// keys registered under it (in registration order), device id to
/// device information.
pub struct RegistryView {
    pub connections: Map<Seq<char>, HandleView>,
    pub gateways: Map<Seq<char>, Seq<Seq<char>>>,
    pub device_info: Map<Seq<char>, InfoView>,
}

/// `k` added at the end of gateway `g`'s list, unless it is there already.
pub open spec fn add_member(
    gws: Map<Seq<char>, Seq<Seq<char>>>,
    g: Seq<char>,
    k: Seq<char>,
) -> Map<Seq<char>, Seq<Seq<char>>> {
    if gws.contains_key(g) {
        if gws[g].contains(k) {
            gws
        } else {
            gws.insert(g, gws[g].push(k))
        }
    } else {
        gws.insert(g, seq![k])
    }
}

/// `s` without the element `k`.
pub open spec fn without(s: Seq<Seq<char>>, k: Seq<char>) -> Seq<Seq<char>> {
    if s.contains(k) {
        s.remove(s.index_of(k))
    } else {
        s
    }
}

/// `k` taken out of gateway `g`'s list.
pub open spec fn drop_member(
    gws: Map<Seq<char>, Seq<Seq<char>>>,
    g: Seq<char>,
    k: Seq<char>,
) -> Map<Seq<char>, Seq<Seq<char>>> {
    if gws.contains_key(g) {
        gws.insert(g, without(gws[g], k))
    } else {
        gws
    }
}

/// The connections of the keys in `keys` that are connected, in the order of `keys`.
pub open spec fn present_handles(keys: Seq<Seq<char>>, conns: Map<Seq<char>, HandleView>) -> Seq<
    HandleView,
>
    decreases keys.len(),
{
    if keys.len() == 0 {
        Seq::empty()
    } else {
        let rest = present_handles(keys.drop_last(), conns);
        if conns.contains_key(keys.last()) {
            rest.push(conns[keys.last()])
        } else {
            rest
        }
    }
}

/// How many keys of `keys` are connected.
pub open spec fn online_count(keys: Seq<Seq<char>>, conns: Map<Seq<char>, HandleView>) -> nat
    decreases keys.len(),
{
    if keys.len() == 0 {
        0
    } else {
        online_count(keys.drop_last(), conns) + if conns.contains_key(keys.last()) {
            1nat
        } else {
            0nat
        }
    }
}

/// The keys registered under gateway `g`, empty for an unknown gateway.
pub open spec fn gateway_keys(v: RegistryView, g: Seq<char>) -> Seq<Seq<char>> {
    if v.gateways.contains_key(g) {
        v.gateways[g]
    } else {
        Seq::empty()
    }
}

/// The device information recorded for a connection that was just made or ended.
pub open spec fn info_for(device_id: Seq<char>, alias: Seq<char>, name: Option<Seq<char>>, now: UtcTime) -> InfoView {
    InfoView { device_id, alias, device_name: name, last_seen: now }
}

/// The notice a connection is sent when a new connection of the same
/// device key replaces it: a disconnect for a revoked token, "New
/// connection established".
pub open spec fn is_replacement_notice(m: TunnelMessage) -> bool {
    m matches TunnelMessage::Disconnect(d) && d.reason == DisconnectReason::TokenRevoked
        && d.message.deep_view() == Some("New connection established"@)
}

/// The notice for a connection that a new one replaced.
pub fn replacement_notice() -> (m: TunnelMessage)
    ensures
        is_replacement_notice(m),
{
    TunnelMessage::Disconnect(DisconnectMessage {
        reason: DisconnectReason::TokenRevoked,
        message: Some("New connection established".to_string()),
    })
}

/// The connections held in a table, by device key.
pub uninterp spec fn held_connections(m: DashMap<String, ConnectionHandle>) -> Map<Seq<char>, ConnectionHandle>;

/// The device keys listed under each gateway in a table, by gateway id.
pub uninterp spec fn held_gateway_lists(m: DashMap<String, Vec<String>>) -> Map<Seq<char>, Vec<String>>;

/// The device information held in a table, by device id.
pub uninterp spec fn held_device_info(m: DashMap<String, DeviceInfo>) -> Map<Seq<char>, DeviceInfo>;

/// `DashMap::new`: a table of no connections.
#[verifier::external_body]
fn connections_new() -> (m: DashMap<String, ConnectionHandle>)
    ensures
        held_connections(m).dom() == Set::<Seq<char>>::empty(),
{
    DashMap::new()
}

/// `DashMap::get`, the value cloned out: the connection held under `key`.
#[verifier::external_body]
fn connections_get(m: &DashMap<String, ConnectionHandle>, key: &str) -> (r: Option<ConnectionHandle>)
    ensures
        match r {
            Some(h) => held_connections(*m).contains_key(key@) && held_connections(*m)[key@] == h,
            None => !held_connections(*m).contains_key(key@),
        },
{
    m.get(key).map(|r| r.value().clone())
}

/// `DashMap::insert`: `handle` is held under `key` afterwards, in place of
/// what was there.
#[verifier::external_body]
fn connections_insert(m: &mut DashMap<String, ConnectionHandle>, key: &str, handle: ConnectionHandle)
    ensures
        held_connections(*final(m)) == held_connections(*old(m)).insert(key@, handle),
{
    m.insert(key.to_string(), handle);
}

/// `DashMap::remove`: the connection held under `key` leaves the table and
/// is handed back.
#[verifier::external_body]
fn connections_remove(m: &mut DashMap<String, ConnectionHandle>, key: &str) -> (r: Option<ConnectionHandle>)
    ensures
        match r {
            Some(h) => held_connections(*old(m)).contains_key(key@) && held_connections(*old(m))[key@] == h,
            None => !held_connections(*old(m)).contains_key(key@),
        },
        held_connections(*final(m)) == held_connections(*old(m)).remove(key@),
{
    m.remove(key).map(|(_, h)| h)
}

/// `DashMap::len`: the number of connections held.
#[verifier::external_body]
fn connections_len(m: &DashMap<String, ConnectionHandle>) -> (n: usize)
    ensures
        n == held_connections(*m).dom().len(),
{
    m.len()
}

/// `DashMap::new`: a table of no gateways.
#[verifier::external_body]
fn gateway_lists_new() -> (m: DashMap<String, Vec<String>>)
    ensures
        held_gateway_lists(m).dom() == Set::<Seq<char>>::empty(),
{
    DashMap::new()
}

/// `DashMap::get`, the value cloned out: the keys listed under `gateway_id`.
#[verifier::external_body]
fn gateway_lists_get(m: &DashMap<String, Vec<String>>, gateway_id: &str) -> (r: Option<Vec<String>>)
    ensures
        match r {
            Some(l) => held_gateway_lists(*m).contains_key(gateway_id@)
                && held_gateway_lists(*m)[gateway_id@]@ == l@,
            None => !held_gateway_lists(*m).contains_key(gateway_id@),
        },
{
    m.get(gateway_id).map(|r| r.value().clone())
}

/// `DashMap::insert`: `keys` is listed under `gateway_id` afterwards.
#[verifier::external_body]
fn gateway_lists_insert(m: &mut DashMap<String, Vec<String>>, gateway_id: &str, keys: Vec<String>)
    ensures
        held_gateway_lists(*final(m)) == held_gateway_lists(*old(m)).insert(gateway_id@, keys),
{
    m.insert(gateway_id.to_string(), keys);
}

/// `DashMap::new`: a table of no devices.
#[verifier::external_body]
fn device_info_new() -> (m: DashMap<String, DeviceInfo>)
    ensures
        held_device_info(m).dom() == Set::<Seq<char>>::empty(),
{
    DashMap::new()
}

/// `DashMap::get`, the value cloned out: what is held for `device_id`.
#[verifier::external_body]
fn device_info_get(m: &DashMap<String, DeviceInfo>, device_id: &str) -> (r: Option<DeviceInfo>)
    ensures
        match r {
            Some(d) => held_device_info(*m).contains_key(device_id@) && held_device_info(*m)[device_id@] == d,
            None => !held_device_info(*m).contains_key(device_id@),
        },
{
    m.get(device_id).map(|r| r.value().clone())
}

/// `DashMap::insert`: `info` is held for `device_id` afterwards.
#[verifier::external_body]
fn device_info_insert(m: &mut DashMap<String, DeviceInfo>, device_id: &str, info: DeviceInfo)
    ensures
        held_device_info(*final(m)) == held_device_info(*old(m)).insert(device_id@, info),
{
    m.insert(device_id.to_string(), info);
}

/// Device connections, grouped by gateway, in three `dashmap::DashMap`s:
/// device key to connection, gateway to the keys registered under it (in
/// registration order, none twice), device id to what is known of it.
///
/// A gateway's keys are a `Vec<String>`, not a `HashSet<String>`: vstd's
/// specification of `std::collections::HashSet` says nothing that can be
/// used of a set of `String`s (its key model covers integer keys), so the
/// set is a vector with the invariant that no key occurs twice (in `wf`).
pub struct ConnectionRegistry {
    connections: DashMap<String, ConnectionHandle>,
    gateway_devices: DashMap<String, Vec<String>>,
    device_info: DashMap<String, DeviceInfo>,
}

impl View for ConnectionRegistry {
    type V = RegistryView;

    closed spec fn view(&self) -> RegistryView {
        RegistryView {
            connections: held_connections(self.connections).map_values(|h: ConnectionHandle| h@),
            gateways: held_gateway_lists(self.gateway_devices).map_values(|v: Vec<String>| v.deep_view()),
            device_info: held_device_info(self.device_info).map_values(|d: DeviceInfo| d@),
        }
    }
}

impl ConnectionRegistry {
    /// The registry's tables are finite and no gateway lists a key twice.
    pub closed spec fn wf(&self) -> bool {
        &&& held_connections(self.connections).dom().finite()
        &&& held_gateway_lists(self.gateway_devices).dom().finite()
        &&& held_device_info(self.device_info).dom().finite()
        &&& forall|g: Seq<char>|
            #[trigger] held_gateway_lists(self.gateway_devices).contains_key(g)
                ==> held_gateway_lists(self.gateway_devices)[g].deep_view().no_duplicates()
    }

    /// Each gateway's list of keys has no repetition.
    pub proof fn lemma_lists_unique(&self, g: Seq<char>)
        requires
            self.wf(),
        ensures
            gateway_keys(self@, g).no_duplicates(),
    {
        if self@.gateways.contains_key(g) {
            assert(held_gateway_lists(self.gateway_devices).contains_key(g));
        }
    }

    /// A registry holds finitely many connections, gateways and devices.
    pub proof fn lemma_finite(&self)
        requires
            self.wf(),
        ensures
            self@.connections.dom().finite(),
            self@.gateways.dom().finite(),
            self@.device_info.dom().finite(),
    {
        assert(self@.connections.dom() =~= held_connections(self.connections).dom());
        assert(self@.gateways.dom() =~= held_gateway_lists(self.gateway_devices).dom());
        assert(self@.device_info.dom() =~= held_device_info(self.device_info).dom());
    }

    /// An empty registry.
    pub fn new() -> (r: ConnectionRegistry)
        ensures
            r.wf(),
            r@.connections == Map::<Seq<char>, HandleView>::empty(),
            r@.gateways == Map::<Seq<char>, Seq<Seq<char>>>::empty(),
            r@.device_info == Map::<Seq<char>, InfoView>::empty(),
    {
        let r = ConnectionRegistry {
            connections: connections_new(),
            gateway_devices: gateway_lists_new(),
            device_info: device_info_new(),
        };
        assert(r@.connections =~= Map::<Seq<char>, HandleView>::empty());
        assert(r@.gateways =~= Map::<Seq<char>, Seq<Seq<char>>>::empty());
        assert(r@.device_info =~= Map::<Seq<char>, InfoView>::empty());
        r
    }
}

impl Default for ConnectionRegistry {
    fn default() -> (r: Self)
        ensures
            r.wf(),
            r@.connections == Map::<Seq<char>, HandleView>::empty(),
            r@.gateways == Map::<Seq<char>, Seq<Seq<char>>>::empty(),
            r@.device_info == Map::<Seq<char>, InfoView>::empty(),
    {
        ConnectionRegistry::new()
    }
}

/// Whether `list` holds the text `key`.
pub fn position_of(list: &Vec<String>, key: &str) -> (r: Option<usize>)
    ensures
        match r {
            Some(j) => j < list@.len() && list@[j as int]@ == key@,
            None => !list.deep_view().contains(key@),
        },
{
    let wanted = key.to_string();
    let mut j: usize = 0;
    while j < list.len()
        invariant
            j <= list.len(),
            wanted@ == key@,
            forall|x: int| 0 <= x < j ==> #[trigger] list@[x]@ != key@,
        decreases list.len() - j,
    {
        if list[j] == wanted {
            return Some(j);
        }
        j = j + 1;
    }
    proof {
        if list.deep_view().contains(key@) {
            let x = choose|x: int| 0 <= x < list.deep_view().len() && list.deep_view()[x] == key@;
            assert(list@[x]@ == key@);
        }
    }
    None
}

impl ConnectionRegistry {
    /// Whether a device is connected under `device_key`.
    pub fn is_online(&self, device_key: &str) -> (b: bool)
        requires
            self.wf(),
        ensures
            b == self@.connections.contains_key(device_key@),
    {
        connections_get(&self.connections, device_key).is_some()
    }

    /// The connection of `device_key`.
    pub fn get(&self, device_key: &str) -> (r: Option<ConnectionHandle>)
        requires
            self.wf(),
        ensures
            match r {
                Some(h) => self@.connections.contains_key(device_key@) && self@.connections[device_key@]
                    == h@,
                None => !self@.connections.contains_key(device_key@),
            },
    {
        connections_get(&self.connections, device_key)
    }

    /// What is known of device `device_id`.
    pub fn get_device_info(&self, device_id: &str) -> (r: Option<DeviceInfo>)
        requires
            self.wf(),
        ensures
            match r {
                Some(d) => self@.device_info.contains_key(device_id@) && self@.device_info[device_id@]
                    == d@,
                None => !self@.device_info.contains_key(device_id@),
            },
    {
        device_info_get(&self.device_info, device_id)
    }

    /// The number of connected devices.
    pub fn connection_count(&self) -> (n: usize)
        requires
            self.wf(),
        ensures
            n == self@.connections.dom().len(),
    {
        proof {
            assert(self@.connections.dom() =~= held_connections(self.connections).dom());
        }
        connections_len(&self.connections)
    }

    /// Adds `device_key` to gateway `gateway_id`'s list.
    fn add_to_gateway(&mut self, gateway_id: &str, device_key: &str)
        requires
            old(self).wf(),
        ensures
            final(self).wf(),
            final(self).connections == old(self).connections,
            final(self).device_info == old(self).device_info,
            final(self)@.gateways == add_member(old(self)@.gateways, gateway_id@, device_key@),
    {
        let ghost lists = held_gateway_lists(self.gateway_devices);
        let ghost gws = old(self)@.gateways;
        match gateway_lists_get(&self.gateway_devices, gateway_id) {
            Some(mut list) => {
                let ghost old_list = list;
                assert(lists.contains_key(gateway_id@));
                assert(old_list.deep_view().no_duplicates());
                let pos = position_of(&list, device_key);
                let present = pos.is_some();
                if !present {
                    list.push(device_key.to_string());
                    assert(list.deep_view() =~= old_list.deep_view().push(device_key@));
                }
                let ghost new_list = list;
                gateway_lists_insert(&mut self.gateway_devices, gateway_id, list);
                proof {
                    assert(gws.contains_key(gateway_id@));
                    assert(gws[gateway_id@] == old_list.deep_view());
                    if present {
                        assert(new_list.deep_view() =~= old_list.deep_view());
                        let j = pos.unwrap();
                        assert(old_list.deep_view()[j as int] == device_key@);
                        assert(gws[gateway_id@].contains(device_key@));
                        assert(self@.gateways =~= gws);
                    } else {
                        assert(self@.gateways =~= gws.insert(gateway_id@, old_list.deep_view().push(device_key@)));
                    }
                    assert(self@.gateways =~= add_member(gws, gateway_id@, device_key@));
                    assert(held_gateway_lists(self.gateway_devices).dom() =~= lists.dom().insert(gateway_id@));
                    assert forall|g: Seq<char>| #[trigger] held_gateway_lists(self.gateway_devices).contains_key(g)
                        implies held_gateway_lists(self.gateway_devices)[g].deep_view().no_duplicates() by {
                        if g != gateway_id@ {
                            assert(lists.contains_key(g));
                        }
                    }
                }
            },
            None => {
                let mut list: Vec<String> = Vec::new();
                list.push(device_key.to_string());
                proof {
                    assert(list.deep_view() =~= seq![device_key@]);
                    assert(!gws.contains_key(gateway_id@));
                }
                let ghost new_list = list;
                gateway_lists_insert(&mut self.gateway_devices, gateway_id, list);
                proof {
                    assert(self@.gateways =~= add_member(gws, gateway_id@, device_key@));
                    assert(held_gateway_lists(self.gateway_devices).dom() =~= lists.dom().insert(gateway_id@));
                    assert forall|g: Seq<char>| #[trigger] held_gateway_lists(self.gateway_devices).contains_key(g)
                        implies held_gateway_lists(self.gateway_devices)[g].deep_view().no_duplicates() by {
                        if g != gateway_id@ {
                            assert(lists.contains_key(g));
                        } else {
                            assert(held_gateway_lists(self.gateway_devices)[g] == new_list);
                        }
                    }
                }
            },
        }
    }

    /// Takes `device_key` out of gateway `gateway_id`'s list.
    fn remove_from_gateway(&mut self, gateway_id: &str, device_key: &str)
        requires
            old(self).wf(),
        ensures
            final(self).wf(),
            final(self).connections == old(self).connections,
            final(self).device_info == old(self).device_info,
            final(self)@.gateways == drop_member(old(self)@.gateways, gateway_id@, device_key@),
    {
        let ghost lists = held_gateway_lists(self.gateway_devices);
        let ghost gws = old(self)@.gateways;
        match gateway_lists_get(&self.gateway_devices, gateway_id) {
            Some(mut list) => {
                let ghost old_list = list;
                assert(lists.contains_key(gateway_id@));
                assert(old_list.deep_view().no_duplicates());
                match position_of(&list, device_key) {
                    Some(j) => {
                        list.remove(j);
                        proof {
                            let dv = old_list.deep_view();
                            assert(dv[j as int] == device_key@);
                            assert(dv.contains(device_key@));
                            let c = dv.index_of(device_key@);
                            assert(dv[c] == device_key@);
                            assert(c == j);
                            assert(list.deep_view() =~= dv.remove(j as int));
                            assert(list.deep_view().no_duplicates());
                        }
                    },
                    None => {},
                }
                let ghost new_list = list;
                gateway_lists_insert(&mut self.gateway_devices, gateway_id, list);
                proof {
                    assert(gws[gateway_id@] == old_list.deep_view());
                    assert(new_list.deep_view() =~= without(old_list.deep_view(), device_key@));
                    assert(self@.gateways =~= drop_member(gws, gateway_id@, device_key@));
                    assert(held_gateway_lists(self.gateway_devices).dom() =~= lists.dom().insert(gateway_id@));
                    assert forall|g: Seq<char>| #[trigger] held_gateway_lists(self.gateway_devices).contains_key(g)
                        implies held_gateway_lists(self.gateway_devices)[g].deep_view().no_duplicates() by {
                        if g != gateway_id@ {
                            assert(lists.contains_key(g));
                        }
                    }
                }
            },
            None => {
                assert(self@.gateways =~= drop_member(gws, gateway_id@, device_key@));
            },
        }
    }

    /// Registers the connection `handle` of device `device_id` under
    /// `device_key` in gateway `gateway_id`.  A connection already held
    /// under the same key is replaced and handed back, so that the caller
    /// can send it the `replacement_notice` on its queue.  `now` is the
    /// current time.
    pub fn register(
        &mut self,
        device_key: &str,
        device_id: &str,
        gateway_id: &str,
        device_alias: &str,
        handle: ConnectionHandle,
        now: UtcTime,
    ) -> (replaced: Option<ConnectionHandle>)
        requires
            old(self).wf(),
        ensures
            final(self).wf(),
            match replaced {
                Some(h) => old(self)@.connections.contains_key(device_key@)
                    && old(self)@.connections[device_key@] == h@,
                None => !old(self)@.connections.contains_key(device_key@),
            },
            final(self)@.connections == old(self)@.connections.insert(device_key@, handle@),
            final(self)@.gateways == add_member(old(self)@.gateways, gateway_id@, device_key@),
            final(self)@.device_info == old(self)@.device_info.insert(
                device_id@,
                info_for(device_id@, device_alias@, handle.device_name.deep_view(), now),
            ),
            final(self)@.connections.dom().len() == old(self)@.connections.dom().len() + if replaced is None {
                1int
            } else {
                0int
            },
    {
        proof { old(self).lemma_finite(); }
        let ghost v0 = self@;
        let ghost c0 = held_connections(self.connections);
        let ghost d0 = held_device_info(self.device_info);
        let replaced = connections_remove(&mut self.connections, device_key);
        let info = DeviceInfo {
            device_id: device_id.to_string(),
            alias: device_alias.to_string(),
            device_name: copy_opt(&handle.device_name),
            last_seen: now,
        };
        let ghost info_g = info;
        device_info_insert(&mut self.device_info, device_id, info);
        self.add_to_gateway(gateway_id, device_key);
        let ghost h = handle;
        connections_insert(&mut self.connections, device_key, handle);
        proof {
            assert(held_connections(self.connections) =~= c0.insert(device_key@, h));
            assert(self@.connections =~= v0.connections.insert(device_key@, h@));
            assert(self@.device_info =~= v0.device_info.insert(
                device_id@,
                info_for(device_id@, device_alias@, h.device_name.deep_view(), now),
            ));
            assert(held_device_info(self.device_info).dom() =~= d0.dom().insert(device_id@));
            assert(held_connections(self.connections).dom() =~= c0.dom().insert(device_key@));
        }
        replaced
    }

    /// Forgets the connection held under `device_key`, if any: the key
    /// leaves its gateway's list and the device's information records
    /// `now` as the time it was last seen.
    pub fn unregister(&mut self, device_key: &str, now: UtcTime)
        requires
            old(self).wf(),
        ensures
            final(self).wf(),
            old(self)@.connections.contains_key(device_key@) ==> {
                let h = old(self)@.connections[device_key@];
                &&& final(self)@.connections == old(self)@.connections.remove(device_key@)
                &&& final(self)@.gateways == drop_member(old(self)@.gateways, h.gateway_id, device_key@)
                &&& final(self)@.device_info == old(self)@.device_info.insert(
                    h.device_id,
                    info_for(h.device_id, h.device_alias, h.device_name, now),
                )
                &&& final(self)@.connections.dom().len() == old(self)@.connections.dom().len() - 1
            },
            !old(self)@.connections.contains_key(device_key@) ==> final(self)@ == old(self)@,
    {
        proof { old(self).lemma_finite(); }
        let ghost v0 = self@;
        let ghost c0 = held_connections(self.connections);
        let ghost d0 = held_device_info(self.device_info);
        match connections_remove(&mut self.connections, device_key) {
            Some(handle) => {
                proof {
                    assert(held_connections(self.connections).dom() =~= c0.dom().remove(device_key@));
                }
                self.remove_from_gateway(&handle.gateway_id, device_key);
                let info = DeviceInfo {
                    device_id: handle.device_id.clone(),
                    alias: handle.device_alias.clone(),
                    device_name: copy_opt(&handle.device_name),
                    last_seen: now,
                };
                device_info_insert(&mut self.device_info, handle.device_id.as_str(), info);
                proof {
                    assert(self@.connections =~= v0.connections.remove(device_key@));
                    assert(self@.device_info =~= v0.device_info.insert(
                        handle@.device_id,
                        info_for(handle@.device_id, handle@.device_alias, handle@.device_name, now),
                    ));
                    assert(held_device_info(self.device_info).dom() =~= d0.dom().insert(handle@.device_id));
                }
            },
            None => {
                proof {
                    assert(held_connections(self.connections) =~= c0);
                    assert(self@.connections =~= v0.connections);
                    assert(self@ == v0);
                }
            },
        }
    }

    /// Records that the device connected under `device_key` was heard
    /// from at `now`: the connection keeps its whole seconds, the
    /// device's information the instant.
    pub fn update_last_seen(&mut self, device_key: &str, now: UtcTime)
        requires
            old(self).wf(),
        ensures
            final(self).wf(),
            final(self)@.gateways == old(self)@.gateways,
            old(self)@.connections.contains_key(device_key@) ==> {
                let h = old(self)@.connections[device_key@];
                &&& final(self)@.connections == old(self)@.connections.insert(
                    device_key@,
                    HandleView { last_seen: now.secs as u64, ..h },
                )
                &&& final(self)@.device_info == if old(self)@.device_info.contains_key(h.device_id) {
                    old(self)@.device_info.insert(
                        h.device_id,
                        InfoView { last_seen: now, ..old(self)@.device_info[h.device_id] },
                    )
                } else {
                    old(self)@.device_info
                }
            },
            !old(self)@.connections.contains_key(device_key@) ==> final(self)@ == old(self)@,
    {
        let ghost v0 = self@;
        let ghost c0 = held_connections(self.connections);
        let ghost d0 = held_device_info(self.device_info);
        match connections_get(&self.connections, device_key) {
            Some(mut h) => {
                h.last_seen = now.secs as u64;
                let dev = h.device_id.clone();
                let ghost hg = h;
                connections_insert(&mut self.connections, device_key, h);
                proof {
                    assert(held_connections(self.connections).dom() =~= c0.dom());
                    assert(self@.connections =~= v0.connections.insert(
                        device_key@,
                        HandleView { last_seen: now.secs as u64, ..v0.connections[device_key@] },
                    ));
                }
                match device_info_get(&self.device_info, dev.as_str()) {
                    Some(mut info) => {
                        info.last_seen = now;
                        let ghost ig = info;
                        device_info_insert(&mut self.device_info, dev.as_str(), info);
                        proof {
                            assert(held_device_info(self.device_info).dom() =~= d0.dom());
                            assert(self@.device_info =~= v0.device_info.insert(
                                dev@,
                                InfoView { last_seen: now, ..v0.device_info[dev@] },
                            ));
                        }
                    },
                    None => {},
                }
            },
            None => {},
        }
    }

    /// The connections of gateway `gateway_id`'s devices that are online,
    /// in the order in which the devices were added to the gateway.
    pub fn get_gateway_connections(&self, gateway_id: &str) -> (r: Vec<ConnectionHandle>)
        requires
            self.wf(),
        ensures
            r@.map_values(|h: ConnectionHandle| h@) == present_handles(
                gateway_keys(self@, gateway_id@),
                self@.connections,
            ),
    {
        let mut out: Vec<ConnectionHandle> = Vec::new();
        match gateway_lists_get(&self.gateway_devices, gateway_id) {
            Some(list) => {
                let ghost keys = list.deep_view();
                assert(keys =~= gateway_keys(self@, gateway_id@));
                let mut j: usize = 0;
                assert(keys.take(0) =~= Seq::<Seq<char>>::empty());
                while j < list.len()
                    invariant
                        self.wf(),
                        j <= list.len(),
                        keys == list.deep_view(),
                        out@.map_values(|h: ConnectionHandle| h@) == present_handles(
                            keys.take(j as int),
                            self@.connections,
                        ),
                    decreases list.len() - j,
                {
                    assert(keys.take(j + 1).drop_last() =~= keys.take(j as int));
                    assert(keys.take(j + 1).last() == list@[j as int]@);
                    let found = self.get(list[j].as_str());
                    match found {
                        Some(h) => {
                            let ghost hv = h@;
                            out.push(h);
                            assert(out@.map_values(|h: ConnectionHandle| h@) =~= present_handles(
                                keys.take(j as int),
                                self@.connections,
                            ).push(hv));
                        },
                        None => {},
                    }
                    j = j + 1;
                }
                assert(keys.take(list.len() as int) =~= keys);
            },
            None => {
                assert(out@.map_values(|h: ConnectionHandle| h@) =~= Seq::<HandleView>::empty());
            },
        }
        out
    }

    /// How many of gateway `gateway_id`'s devices are online.
    pub fn get_online_device_count(&self, gateway_id: &str) -> (n: usize)
        requires
            self.wf(),
        ensures
            n == online_count(gateway_keys(self@, gateway_id@), self@.connections),
    {
        match gateway_lists_get(&self.gateway_devices, gateway_id) {
            Some(list) => {
                let ghost keys = list.deep_view();
                assert(keys =~= gateway_keys(self@, gateway_id@));
                let mut n: usize = 0;
                let mut j: usize = 0;
                assert(keys.take(0) =~= Seq::<Seq<char>>::empty());
                while j < list.len()
                    invariant
                        self.wf(),
                        j <= list.len(),
                        keys == list.deep_view(),
                        n == online_count(keys.take(j as int), self@.connections),
                        n <= j,
                    decreases list.len() - j,
                {
                    assert(keys.take(j + 1).drop_last() =~= keys.take(j as int));
                    assert(keys.take(j + 1).last() == list@[j as int]@);
                    if self.is_online(list[j].as_str()) {
                        n = n + 1;
                    }
                    j = j + 1;
                }
                assert(keys.take(list.len() as int) =~= keys);
                n
            },
            None => 0,
        }
    }
}

proof fn lemma_without_absent(s: Seq<Seq<char>>, k: Seq<char>)
    requires
        s.no_duplicates(),
    ensures
        !without(s, k).contains(k),
{
    if s.contains(k) {
        let i = s.index_of(k);
        let r = s.remove(i);
        if r.contains(k) {
            let j = choose|j: int| 0 <= j < r.len() && r[j] == k;
            if j < i {
                assert(s[j] == k);
            } else {
                assert(s[j + 1] == k);
            }
        }
    }
}

proof fn lemma_add_member_unique(gws: Map<Seq<char>, Seq<Seq<char>>>, g: Seq<char>, k: Seq<char>)
    requires
        gws.contains_key(g) ==> gws[g].no_duplicates(),
    ensures
        add_member(gws, g, k).contains_key(g),
        add_member(gws, g, k)[g].no_duplicates(),
        add_member(gws, g, k)[g].contains(k),
{
    if gws.contains_key(g) {
        if !gws[g].contains(k) {
            let s = gws[g].push(k);
            assert(s[s.len() - 1] == k);
            assert forall|a: int, b: int| 0 <= a < s.len() && 0 <= b < s.len() && a != b implies s[a] != s[b] by {
                if a < s.len() - 1 && b < s.len() - 1 {
                    assert(s[a] == gws[g][a] && s[b] == gws[g][b]);
                } else if a < s.len() - 1 {
                    assert(s[a] == gws[g][a]);
                } else if b < s.len() - 1 {
                    assert(s[b] == gws[g][b]);
                }
            }
        }
    } else {
        assert(seq![k][0] == k);
    }
}

/// A device that connected and then disconnected is offline, and no
/// longer listed under the gateway it connected through: registering a
/// connection under `key` for gateway `g` and then unregistering `key`
/// leaves neither a connection under `key` nor `key` in `g`'s list.
pub proof fn law_disconnect_takes_device_offline(v: RegistryView, key: Seq<char>, g: Seq<char>, h: HandleView)
    requires
        forall|x: Seq<char>| #[trigger] v.gateways.contains_key(x) ==> v.gateways[x].no_duplicates(),
        h.gateway_id == g,
    ensures
        ({
            let connected = v.connections.insert(key, h);
            let listed = add_member(v.gateways, g, key);
            let after_conns = connected.remove(key);
            let after_lists = drop_member(listed, connected[key].gateway_id, key);
            &&& connected.contains_key(key)
            &&& listed[g].contains(key)
            &&& !after_conns.contains_key(key)
            &&& !gateway_keys(RegistryView { connections: after_conns, gateways: after_lists, device_info: v.device_info }, g).contains(key)
        }),
{
    lemma_add_member_unique(v.gateways, g, key);
    let listed = add_member(v.gateways, g, key);
    lemma_without_absent(listed[g], key);
}

/// The number of online devices of a list is the number of connections it yields.
pub proof fn lemma_count_matches(keys: Seq<Seq<char>>, conns: Map<Seq<char>, HandleView>)
    ensures
        online_count(keys, conns) == present_handles(keys, conns).len(),
    decreases keys.len(),
{
    if keys.len() > 0 {
        lemma_count_matches(keys.drop_last(), conns);
    }
}

} // verus!
