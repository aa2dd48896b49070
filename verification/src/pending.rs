use vstd::prelude::*;
use dashmap::DashMap;
use serde_json::Value;
use tokio::sync::oneshot::{Receiver, Sender};

verus! {

/// The sending half of tokio's one-shot channel, of which nothing is known but
/// what the functions below say.
#[verifier::external_type_specification]
#[verifier::external_body]
#[verifier::reject_recursive_types(T)]
pub struct ExSlot<T>(Sender<T>);

/// The receiving half of tokio's one-shot channel.
#[verifier::external_type_specification]
#[verifier::external_body]
#[verifier::reject_recursive_types(T)]
pub struct ExTicket<T>(Receiver<T>);

/// The error of waiting on a one-shot channel whose sender is gone.
#[verifier::external_type_specification]
#[verifier::external_body]
pub struct ExTicketError(tokio::sync::oneshot::error::RecvError);

/// The concurrent map of the dashmap crate. The library changes it through
/// exclusive references only, so that its contents are a function of its value.
#[verifier::external_type_specification]
#[verifier::external_body]
#[verifier::reject_recursive_types(K)]
#[verifier::reject_recursive_types(V)]
#[verifier::reject_recursive_types(S)]
pub struct ExDashMap<K, V, S>(DashMap<K, V, S>);

/// What the table of calls in flight holds: under each identifier the sending
/// half of the channel on which that call's response is handed over.
pub uninterp spec fn pending_slots(table: DashMap<u64, Sender<Value>>) -> Map<u64, Sender<Value>>;

/// The sending half of the one-shot channel whose receiving half is `ticket`.
pub uninterp spec fn slot_of(ticket: Receiver<Value>) -> Sender<Value>;

/// A table that holds no call.
pub open spec fn no_slots() -> Map<u64, Sender<Value>> {
    Map::empty()
}

/// Calls `DashMap::new`: a table without entries.
#[verifier::external_body]
pub(crate) fn new_table() -> (table: DashMap<u64, Sender<Value>>)
    ensures
        pending_slots(table) == no_slots(),
{
    DashMap::new()
}

/// Calls `DashMap::insert`: the table then holds `slot` under `id`, in place of
/// what it held there, which is handed back.
#[verifier::external_body]
pub(crate) fn table_insert(
    table: &mut DashMap<u64, Sender<Value>>,
    id: u64,
    slot: Sender<Value>,
) -> (previous: Option<Sender<Value>>)
    ensures
        pending_slots(*final(table)) == pending_slots(*old(table)).insert(id, slot),
        previous == (if pending_slots(*old(table)).contains_key(id) {
            Some(pending_slots(*old(table))[id])
        } else {
            None
        }),
{
    table.insert(id, slot)
}

/// Calls `DashMap::remove`: the entry under `id` leaves the table and its slot
/// is handed back; a table without that entry stays as it is.
#[verifier::external_body]
pub(crate) fn table_remove(table: &mut DashMap<u64, Sender<Value>>, id: u64) -> (taken: Option<
    Sender<Value>,
>)
    ensures
        pending_slots(*final(table)) == pending_slots(*old(table)).remove(id),
        taken == (if pending_slots(*old(table)).contains_key(id) {
            Some(pending_slots(*old(table))[id])
        } else {
            None
        }),
{
    table.remove(&id).map(|entry| entry.1)
}

/// Calls `DashMap::clear`: every entry leaves the table.
#[verifier::external_body]
pub(crate) fn table_clear(table: &mut DashMap<u64, Sender<Value>>)
    ensures
        pending_slots(*final(table)) == no_slots(),
{
    table.clear();
}

/// Calls tokio's `oneshot::channel`: the two halves of one new channel.
#[verifier::external_body]
pub(crate) fn open_slot() -> (pair: (Sender<Value>, Receiver<Value>))
    ensures
        pair.0 == slot_of(pair.1),
{
    tokio::sync::oneshot::channel()
}

/// Calls `Sender::send` of tokio's one-shot channel, which hands `frame` to the
/// receiving half. It tells whether that half was still there to take it, which
/// depends on the caller that holds it.
#[verifier::external_body]
pub(crate) fn fulfil(slot: Sender<Value>, frame: Value) -> (taken: bool)
{
    slot.send(frame).is_ok()
}

} // verus!
