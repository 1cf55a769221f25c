//! The MCP requests the server forwarded to devices and still waits on,
//! keyed by correlation id.  The table is a `dashmap::DashMap`; the caller
//! keeps, beside it, the channel on which each waiting request receives
//! its answer.

use vstd::prelude::*;
use dashmap::DashMap;
use crate::protocol::McpResponseMessage;

verus! {

#[verifier::external_type_specification]
#[verifier::external_body]
#[verifier::reject_recursive_types(K)]
#[verifier::reject_recursive_types(V)]
#[verifier::reject_recursive_types(S)]
pub struct ExDashMap<K, V, S>(DashMap<K, V, S>);

/// The correlation ids held in a table of waiting requests.
pub uninterp spec fn waiting_ids(m: DashMap<u128, ()>) -> Set<u128>;

/// `DashMap::new`: an empty table.
#[verifier::external_body]
fn waiting_new() -> (m: DashMap<u128, ()>)
    ensures
        waiting_ids(m) == Set::<u128>::empty(),
{
    DashMap::new()
}

/// `DashMap::insert`: the id is in the table afterwards, beside the ones before.
#[verifier::external_body]
fn waiting_insert(m: &mut DashMap<u128, ()>, id: u128)
    ensures
        waiting_ids(*final(m)) == waiting_ids(*old(m)).insert(id),
{
    m.insert(id, ());
}

/// `DashMap::remove`: the id leaves the table; the result tells whether it was there.
#[verifier::external_body]
fn waiting_remove(m: &mut DashMap<u128, ()>, id: u128) -> (was: bool)
    ensures
        was == waiting_ids(*old(m)).contains(id),
        waiting_ids(*final(m)) == waiting_ids(*old(m)).remove(id),
{
    m.remove(&id).is_some()
}

/// `DashMap::len`: the number of ids in the table.
#[verifier::external_body]
fn waiting_len(m: &DashMap<u128, ()>) -> (n: usize)
    ensures
        n == waiting_ids(*m).len(),
{
    m.len()
}

/// The forwarded requests that wait for a device's response.
pub struct PendingRequests {
    requests: DashMap<u128, ()>,
}

impl PendingRequests {
    /// The correlation ids of the waiting requests.
    pub closed spec fn ids(&self) -> Set<u128> {
        waiting_ids(self.requests)
    }

    /// No request waits.
    pub fn new() -> (p: PendingRequests)
        ensures
            p.ids() == Set::<u128>::empty(),
    {
        PendingRequests { requests: waiting_new() }
    }

    /// The request with `correlation_id` now waits.
    pub fn register(&mut self, correlation_id: u128)
        ensures
            final(self).ids() == old(self).ids().insert(correlation_id),
    {
        waiting_insert(&mut self.requests, correlation_id);
    }

    /// Takes the request that `response` answers out of the table; the
    /// result tells whether the request was waiting, and so whether the
    /// response is to be handed to its answer channel.  Whether that
    /// channel is still open is the caller's to find out: a handoff to a
    /// waiter that gave up fails there, not here.
    pub fn complete(&mut self, response: &McpResponseMessage) -> (delivered: bool)
        ensures
            delivered == old(self).ids().contains(response.correlation_id),
            final(self).ids() == old(self).ids().remove(response.correlation_id),
    {
        waiting_remove(&mut self.requests, response.correlation_id)
    }

    /// The request with `correlation_id` stops waiting (it timed out).
    pub fn cancel(&mut self, correlation_id: u128)
        ensures
            final(self).ids() == old(self).ids().remove(correlation_id),
    {
        waiting_remove(&mut self.requests, correlation_id);
    }

    /// The number of waiting requests.
    pub fn pending_count(&self) -> (n: usize)
        ensures
            n == self.ids().len(),
    {
        waiting_len(&self.requests)
    }
}

impl Default for PendingRequests {
    fn default() -> (p: Self)
        ensures
            p.ids() == Set::<u128>::empty(),
    {
        PendingRequests::new()
    }
}

/// A request that was registered is answered exactly once: the first
/// response with its correlation id is delivered, a repeated one is not,
/// and a cancelled request is never delivered.
pub proof fn law_response_delivered_once(ids: Set<u128>, id: u128)
    ensures
        ids.insert(id).contains(id),
        !ids.insert(id).remove(id).contains(id),
        !ids.remove(id).contains(id),
{
}

} // verus!
