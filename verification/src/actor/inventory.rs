//! Inventories: resources, and receipts for the resources set aside.

use std::collections::HashMap;

use vstd::prelude::*;
use vstd::std_specs::iter::IteratorSpec;

use crate::actor::model::{InternalMessage, MessageView};
use crate::blueprint::model::Value;
use crate::persistence::error::MemoryDBError;
use crate::persistence::worker::{
    contents_after_all, law_read_gives_back_last_put, replied, writes, OpType,
};
use crate::ids::{
    drawn_at_random, hyphenated_text, id_text, lemma_hyphenated_text_injective, random_id,
};
use crate::table::{distinct_names, lemma_named, lemma_row, rows_map, Table};

verus! {

broadcast use vstd::std_specs::hash::group_hash_axioms;

/// Amounts of resources by name.
pub type Amounts = Map<Seq<char>, Value<u64>>;

/// Whether an inventory's listener runs.
#[derive(Debug, Clone, Copy, PartialEq, Eq, Structural)]
pub enum Status {
    Listening,
    Stopped,
    Stopping,
}

/// What has been set aside under one identifier.
#[derive(Debug)]
pub struct Receipt {
    pub id: u128,
    pub resources: Table<Value<u64>>,
}

impl Clone for Receipt {
    fn clone(&self) -> (copy: Self)
        ensures
            same_receipt(copy, *self),
    {
        let resources = self.resources.clone();
        assert(resources.rows_view() =~= self.resources.rows_view());
        Receipt { id: self.id, resources }
    }
}

/// Whether two receipts stand for the same amounts under the same identifier.
pub open spec fn same_receipt(a: Receipt, b: Receipt) -> bool {
    a.id == b.id && a.resources@ == b.resources@
}

/// Whether two collections of receipts hold the same ones.
pub open spec fn same_receipts(a: Map<u128, Receipt>, b: Map<u128, Receipt>) -> bool {
    &&& a.dom() == b.dom()
    &&& forall|id: u128| #[trigger] b.contains_key(id) ==> same_receipt(a[id], b[id])
}

/// Copies of all receipts.
fn copy_receipts(reserved: &HashMap<u128, Receipt>) -> (copy: HashMap<u128, Receipt>)
    ensures
        same_receipts(copy@, reserved@),
{
    let mut copy: HashMap<u128, Receipt> = HashMap::new();
    let receipts = reserved.iter();
    let ghost all = receipts.remaining();
    for (id, receipt) in iter: receipts
        invariant
            iter.seq() == all,
            all == reserved.iter().remaining(),
            forall|k: u128| #[trigger]
                copy@.contains_key(k) ==> reserved@.contains_key(k) && same_receipt(
                    copy@[k],
                    reserved@[k],
                ),
            forall|j: int|
                #![trigger all[j]]
                0 <= j < iter.index() ==> copy@.contains_key(*all[j].0),
    {
        assert(reserved@.contains_key(*all[iter.index()].0));
        copy.insert(*id, receipt.clone());
    }
    assert forall|k: u128| #[trigger] reserved@.contains_key(k) implies copy@.contains_key(k) by {
        assert(all.contains((&k, &reserved@[k])));
    }
    assert(copy@.dom() =~= reserved@.dom());
    copy
}

/// The part of an inventory that is stored.
#[derive(Debug)]
pub struct SerializableInventory {
    pub id: u128,
    pub resources: Table<Value<u64>>,
    pub reserved: HashMap<u128, Receipt>,
}

/// A player's inventory.
#[derive(Debug)]
pub struct Inventory {
    pub id: u128,
    pub status: Status,
    pub resources: Table<Value<u64>>,
    pub reserved: HashMap<u128, Receipt>,
}

/// Whether every amount of `request` is there.
pub open spec fn sufficient(resources: Amounts, request: Amounts) -> bool {
    forall|name: Seq<char>| #[trigger]
        request.contains_key(name) ==> resources.contains_key(name) && resources[name].value
            >= request[name].value
}

/// The resources without the amounts of `request`.
pub open spec fn without(resources: Amounts, request: Amounts) -> Amounts {
    Map::new(
        |name: Seq<char>| resources.contains_key(name),
        |name: Seq<char>|
            if request.contains_key(name) {
                Value {
                    name: resources[name].name,
                    value: (resources[name].value - request[name].value) as u64,
                }
            } else {
                resources[name]
            },
    )
}

/// The resources with the amounts of `returned` added. A resource that is not
/// there is not brought in.
pub open spec fn with(resources: Amounts, returned: Amounts) -> Amounts {
    Map::new(
        |name: Seq<char>| resources.contains_key(name),
        |name: Seq<char>|
            if returned.contains_key(name) {
                Value {
                    name: resources[name].name,
                    value: (resources[name].value + returned[name].value) as u64,
                }
            } else {
                resources[name]
            },
    )
}

/// Whether the amounts of `returned` can be added without exceeding what an
/// amount can hold.
pub open spec fn fits(resources: Amounts, returned: Amounts) -> bool {
    forall|name: Seq<char>| #[trigger]
        returned.contains_key(name) && resources.contains_key(name) ==> resources[name].value
            + returned[name].value <= u64::MAX
}

/// The first `n` rows of a table, as amounts.
spec fn first(table: Table<Value<u64>>, n: int) -> Amounts {
    rows_map(table.rows_view().take(n))
}

proof fn lemma_first_step(table: Table<Value<u64>>, n: int)
    requires
        distinct_names(table.rows_view()),
        0 <= n < table.rows_view().len(),
    ensures
        distinct_names(table.rows_view().take(n)),
        distinct_names(table.rows_view().take(n + 1)),
        !first(table, n).contains_key(table.rows_view()[n].0@),
        first(table, n + 1) == first(table, n).insert(
            table.rows_view()[n].0@,
            table.rows_view()[n].1,
        ),
{
    let rows = table.rows_view();
    let (name, value) = rows[n];
    assert forall|i: int, j: int|
        #![trigger rows.take(n)[i], rows.take(n)[j]]
        0 <= i < j < n implies rows.take(n)[i].0@ != rows.take(n)[j].0@ by {
        assert(rows[i].0@ != rows[j].0@);
    }
    if first(table, n).contains_key(name@) {
        let i = lemma_named(rows.take(n), name@);
        assert(rows[i].0@ != rows[n].0@);
    }
    assert(rows.take(n + 1) =~= rows.take(n).push((name, value)));
    crate::table::lemma_rows_push(rows.take(n), name, value);
}

/// Whether every amount of `request` is there.
fn has_resources(resources: &Table<Value<u64>>, request: &Table<Value<u64>>) -> (found: bool)
    ensures
        found == sufficient(resources@, request@),
{
    let n = request.len();
    for i in 0..n
        invariant
            n == request.rows_view().len(),
            distinct_names(request.rows_view()),
            forall|j: int|
                0 <= j < i ==> {
                    let row = #[trigger] request.rows_view()[j];
                    resources@.contains_key(row.0@) && resources@[row.0@].value >= row.1.value
                },
    {
        let (name, value) = request.row(i);
        proof {
            lemma_row(request.rows_view(), i as int);
        }
        match resources.get(name) {
            Some(resource) => {
                if resource.value < value.value {
                    assert(request@.contains_key(name@));
                    return false;
                }
            },
            None => {
                assert(request@.contains_key(name@));
                return false;
            },
        }
    }
    assert forall|name: Seq<char>| #[trigger] request@.contains_key(name) implies resources@.contains_key(
        name,
    ) && resources@[name].value >= request@[name].value by {
        let j = lemma_named(request.rows_view(), name);
    }
    true
}

/// Takes the amounts of `request` out of the resources.
fn take_out(resources: &mut Table<Value<u64>>, request: &Table<Value<u64>>)
    requires
        sufficient(old(resources)@, request@),
    ensures
        final(resources)@ == without(old(resources)@, request@),
{
    let n = request.len();
    let ghost before = resources@;
    proof {
        assert(request.rows_view().take(0) =~= Seq::empty());
        assert(resources@ =~= without(before, first(*request, 0)));
    }
    for i in 0..n
        invariant
            n == request.rows_view().len(),
            distinct_names(request.rows_view()),
            before == old(resources)@,
            sufficient(before, request@),
            resources@ == without(before, first(*request, i as int)),
    {
        let (name, value) = request.row(i);
        proof {
            lemma_row(request.rows_view(), i as int);
            lemma_first_step(*request, i as int);
            assert(request@.contains_key(name@));
        }
        if let Some(resource) = resources.get(name) {
            let left = Value { name: resource.name.clone(), value: resource.value - value.value };
            resources.insert(name.clone(), left);
        }
        assert(resources@ =~= without(before, first(*request, i + 1)));
    }
    assert(request.rows_view().take(n as int) =~= request.rows_view());
}

/// Whether the amounts of `returned` can be added to the resources.
fn amounts_fit(resources: &Table<Value<u64>>, returned: &Table<Value<u64>>) -> (ok: bool)
    ensures
        ok == fits(resources@, returned@),
{
    let n = returned.len();
    for i in 0..n
        invariant
            n == returned.rows_view().len(),
            distinct_names(returned.rows_view()),
            forall|j: int|
                0 <= j < i ==> {
                    let row = #[trigger] returned.rows_view()[j];
                    resources@.contains_key(row.0@) ==> resources@[row.0@].value + row.1.value
                        <= u64::MAX
                },
    {
        let (name, value) = returned.row(i);
        proof {
            lemma_row(returned.rows_view(), i as int);
        }
        if let Some(resource) = resources.get(name) {
            if resource.value > u64::MAX - value.value {
                assert(returned@.contains_key(name@) && resources@.contains_key(name@));
                return false;
            }
        }
    }
    assert forall|name: Seq<char>| #[trigger]
        returned@.contains_key(name) && resources@.contains_key(name) implies resources@[name].value
        + returned@[name].value <= u64::MAX by {
        let j = lemma_named(returned.rows_view(), name);
    }
    true
}

/// Adds the amounts of `returned` to the resources.
fn put_back(resources: &mut Table<Value<u64>>, returned: &Table<Value<u64>>)
    requires
        fits(old(resources)@, returned@),
    ensures
        final(resources)@ == with(old(resources)@, returned@),
{
    let n = returned.len();
    let ghost before = resources@;
    proof {
        assert(returned.rows_view().take(0) =~= Seq::empty());
        assert(resources@ =~= with(before, first(*returned, 0)));
    }
    for i in 0..n
        invariant
            n == returned.rows_view().len(),
            distinct_names(returned.rows_view()),
            before == old(resources)@,
            fits(before, returned@),
            resources@ == with(before, first(*returned, i as int)),
    {
        let (name, value) = returned.row(i);
        proof {
            lemma_row(returned.rows_view(), i as int);
            lemma_first_step(*returned, i as int);
            assert(returned@.contains_key(name@));
        }
        if let Some(resource) = resources.get(name) {
            let more = Value { name: resource.name.clone(), value: resource.value + value.value };
            resources.insert(name.clone(), more);
        }
        assert(resources@ =~= with(before, first(*returned, i + 1)));
    }
    assert(returned.rows_view().take(n as int) =~= returned.rows_view());
}

/// What becomes of an inventory that is asked to set `request` aside under
/// `receipt_id`, and what it answers. A request that asks for more than is
/// there changes nothing.
pub open spec fn reserved_to(
    before: Inventory,
    request: Table<Value<u64>>,
    receipt_id: u128,
    after: Inventory,
    response: MessageView,
) -> bool {
    if sufficient(before.resources@, request@) {
        &&& response == MessageView::InventoryReserveResponse(Ok(receipt_id))
        &&& after.id == before.id
        &&& after.status == before.status
        &&& after.resources@ == without(before.resources@, request@)
        &&& after.reserved@ == before.reserved@.insert(
            receipt_id,
            Receipt { id: receipt_id, resources: request },
        )
    } else {
        &&& response == MessageView::InventoryReserveResponse(Err("insufficient resources"@))
        &&& after == before
    }
}

/// What becomes of an inventory that is asked to take back what `receipt_id`
/// set aside, and what it answers. An unknown receipt changes nothing.
pub open spec fn released_to(
    before: Inventory,
    receipt_id: u128,
    after: Inventory,
    response: MessageView,
) -> bool {
    if before.reserved@.contains_key(receipt_id) {
        &&& response == MessageView::InventoryReleaseResponse(Ok(receipt_id))
        &&& after.id == before.id
        &&& after.status == before.status
        &&& after.resources@ == with(
            before.resources@,
            before.reserved@[receipt_id].resources@,
        )
        &&& after.reserved@ == before.reserved@.remove(receipt_id)
    } else {
        &&& response == MessageView::InventoryReleaseResponse(Err("no reservation found"@))
        &&& after == before
    }
}

/// Whether what `receipt_id` set aside can be taken back.
pub open spec fn can_release(inventory: Inventory, receipt_id: u128) -> bool {
    inventory.reserved@.contains_key(receipt_id) ==> fits(
        inventory.resources@,
        inventory.reserved@[receipt_id].resources@,
    )
}

/// What a listener does with what it received.
pub struct ListenerStep {
    /// What to publish on the inventory's topic.
    pub response: Option<InternalMessage>,
    /// Whether to listen on.
    pub running: bool,
}

impl Inventory {
    /// An empty inventory that listens.
    pub fn new(id: u128) -> (inventory: Self)
        ensures
            inventory.id == id,
            inventory.status == Status::Listening,
            inventory.resources@ == Map::<Seq<char>, Value<u64>>::empty(),
            inventory.reserved@ == Map::<u128, Receipt>::empty(),
    {
        Inventory {
            id,
            status: Status::Listening,
            resources: Table::new(),
            reserved: HashMap::new(),
        }
    }

    pub fn id(&self) -> (id: u128)
        ensures
            id == self.id,
    {
        self.id
    }

    /// Sets `request` aside under `receipt_id`, if all of it is there.
    pub fn process_reservation(
        &mut self,
        request: Table<Value<u64>>,
        receipt_id: u128,
    ) -> (response: InternalMessage)
        ensures
            reserved_to(*old(self), request, receipt_id, *final(self), response@),
    {
        if has_resources(&self.resources, &request) {
            take_out(&mut self.resources, &request);
            self.reserved.insert(receipt_id, Receipt { id: receipt_id, resources: request });
            InternalMessage::InventoryReserveResponse(Ok(receipt_id))
        } else {
            InternalMessage::InventoryReserveResponse(Err("insufficient resources".to_string()))
        }
    }

    /// Sets `request` aside under a new receipt, if all of it is there.
    pub fn handle_reserve_request(&mut self, request: Table<Value<u64>>) -> (response:
        InternalMessage)
        ensures
            exists|receipt_id: u128| #[trigger]
                drawn_at_random(receipt_id) && reserved_to(
                    *old(self),
                    request,
                    receipt_id,
                    *final(self),
                    response@,
                ),
    {
        let receipt_id = random_id();
        self.process_reservation(request, receipt_id)
    }

    /// Whether what `receipt_id` set aside can be taken back.
    pub fn release_fits(&self, receipt_id: u128) -> (ok: bool)
        ensures
            ok == can_release(*self, receipt_id),
    {
        match self.reserved.get(&receipt_id) {
            Some(receipt) => amounts_fit(&self.resources, &receipt.resources),
            None => true,
        }
    }

    /// Takes back what `receipt_id` set aside.
    pub fn handle_release_request(&mut self, receipt_id: u128) -> (response: InternalMessage)
        requires
            can_release(*old(self), receipt_id),
        ensures
            released_to(*old(self), receipt_id, *final(self), response@),
    {
        match self.reserved.get(&receipt_id) {
            Some(receipt) => {
                put_back(&mut self.resources, &receipt.resources);
                self.reserved.remove(&receipt_id);
                InternalMessage::InventoryReleaseResponse(Ok(receipt_id))
            },
            None => {
                InternalMessage::InventoryReleaseResponse(Err("no reservation found".to_string()))
            },
        }
    }

    /// Deals with what the listener received; `None` where receiving failed. At
    /// `Stop`, and where receiving failed, the listener ends.
    pub fn handle_inventory_message(&mut self, received: Option<InternalMessage>) -> (step:
        ListenerStep)
        requires
            received matches Some(InternalMessage::InventoryReleaseRequest(receipt_id))
                ==> can_release(*old(self), receipt_id),
        ensures
            match received {
                Some(InternalMessage::InventoryReserveRequest(request)) => {
                    &&& step.running
                    &&& step.response is Some
                    &&& exists|receipt_id: u128| #[trigger]
                        drawn_at_random(receipt_id) && reserved_to(
                            *old(self),
                            request,
                            receipt_id,
                            *final(self),
                            step.response->0@,
                        )
                },
                Some(InternalMessage::InventoryReleaseRequest(receipt_id)) => {
                    &&& step.running
                    &&& step.response is Some
                    &&& released_to(*old(self), receipt_id, *final(self), step.response->0@)
                },
                Some(InternalMessage::Stop) | None => {
                    &&& !step.running
                    &&& step.response is None
                    &&& *final(self) == (Inventory { status: Status::Stopped, ..*old(self) })
                },
                _ => {
                    &&& step.running
                    &&& step.response is None
                    &&& *final(self) == *old(self)
                },
            },
    {
        match received {
            Some(InternalMessage::InventoryReserveRequest(request)) => {
                let response = self.handle_reserve_request(request);
                ListenerStep { response: Some(response), running: true }
            },
            Some(InternalMessage::InventoryReleaseRequest(receipt_id)) => {
                let response = self.handle_release_request(receipt_id);
                ListenerStep { response: Some(response), running: true }
            },
            Some(InternalMessage::Stop) | None => {
                self.status = Status::Stopped;
                ListenerStep { response: None, running: false }
            },
            _ => ListenerStep { response: None, running: true },
        }
    }

    /// Starts the listener.
    pub fn listen(&mut self)
        ensures
            *final(self) == (Inventory { status: Status::Listening, ..*old(self) }),
    {
        self.status = Status::Listening;
    }

    /// Asks the listener to end.
    pub fn stop(&mut self)
        ensures
            *final(self) == (Inventory { status: Status::Stopping, ..*old(self) }),
    {
        self.status = Status::Stopping;
    }

    /// Whether the listener is to wait for another message. One that has been
    /// asked to end has ended.
    pub fn listener_woken(&mut self) -> (on: bool)
        ensures
            on == (old(self).status != Status::Stopping),
            *final(self) == (if on {
                *old(self)
            } else {
                Inventory { status: Status::Stopped, ..*old(self) }
            }),
    {
        match self.status {
            Status::Stopping => {
                self.status = Status::Stopped;
                false
            },
            _ => true,
        }
    }

    /// What is stored of the inventory.
    pub fn serialize(&self) -> (snapshot: SerializableInventory)
        ensures
            is_snapshot(snapshot, *self),
    {
        let resources = self.resources.clone();
        assert(resources.rows_view() =~= self.resources.rows_view());
        SerializableInventory { id: self.id, resources, reserved: copy_receipts(&self.reserved) }
    }

    /// The operation that stores the inventory, given its serialized text or
    /// why there is none.
    pub fn persist(&self, serialized: Result<String, String>) -> (op: Result<OpType, String>)
        ensures
            stored_by(self.id, serialized, op),
    {
        match serialized {
            Ok(text) => Ok(OpType::Put(key_of(self.id), text)),
            Err(reason) => Err("Serialization failed: ".to_string().concat(reason.as_str())),
        }
    }

    /// The operation that asks for what is stored of the inventory.
    pub fn restore_operation(&self) -> (op: OpType)
        ensures
            asks_for_stored(self.id, op),
    {
        restore_operation_for(self.id)
    }

    /// Takes over what was stored; `None` where it could not be read. Both the
    /// resources and the receipts are replaced, or neither. The inventory
    /// keeps its own identifier.
    pub fn restore(&mut self, stored: Option<SerializableInventory>) -> (done: Result<(), String>)
        ensures
            restored(*old(self), stored, *final(self), done),
    {
        match stored {
            Some(snapshot) => {
                self.resources = snapshot.resources;
                self.reserved = snapshot.reserved;
                Ok(())
            },
            None => Err("Failed to deserialize inventory data".to_string()),
        }
    }
}

/// The key under which an inventory is stored.
pub open spec fn storage_key(id: u128) -> Seq<char> {
    "inventory:"@ + hyphenated_text(id)
}

/// The key under which an inventory is stored.
fn key_of(id: u128) -> (key: String)
    ensures
        key@ == storage_key(id),
{
    "inventory:".to_string().concat(id_text(id).as_str())
}

/// Whether `op` is the operation that stores an inventory with the serialized
/// text, or says why there is none.
pub open spec fn stored_by(
    id: u128,
    serialized: Result<String, String>,
    op: Result<OpType, String>,
) -> bool {
    match serialized {
        Ok(text) => op matches Ok(OpType::Put(key, value)) && key@ == storage_key(id) && value
            == text,
        Err(reason) => op matches Err(error) && error@ == "Serialization failed: "@ + reason@,
    }
}

/// Whether `op` is the operation that asks for what is stored of an inventory.
pub open spec fn asks_for_stored(id: u128, op: OpType) -> bool {
    op matches OpType::Get(key) && key@ == storage_key(id)
}

/// The operation that asks for what is stored of the inventory `id`.
pub fn restore_operation_for(id: u128) -> (op: OpType)
    ensures
        asks_for_stored(id, op),
{
    OpType::Get(key_of(id))
}

/// Whether `snapshot` holds what `inventory` holds.
pub open spec fn is_snapshot(snapshot: SerializableInventory, inventory: Inventory) -> bool {
    &&& snapshot.id == inventory.id
    &&& snapshot.resources@ == inventory.resources@
    &&& same_receipts(snapshot.reserved@, inventory.reserved@)
}

/// What becomes of an inventory that takes over `snapshot`.
pub open spec fn restored_to(
    before: Inventory,
    snapshot: SerializableInventory,
    after: Inventory,
) -> bool {
    &&& after.id == before.id
    &&& after.status == before.status
    &&& after.resources@ == snapshot.resources@
    &&& after.reserved@ == snapshot.reserved@
}

/// What becomes of an inventory that is given what was stored, and what it
/// answers.
pub open spec fn restored(
    before: Inventory,
    stored: Option<SerializableInventory>,
    after: Inventory,
    done: Result<(), String>,
) -> bool {
    match stored {
        Some(snapshot) => done is Ok && restored_to(before, snapshot, after),
        None => after == before && (done matches Err(error) && error@
            == "Failed to deserialize inventory data"@),
    }
}

/// How a storage operation was answered.
pub enum StorageAnswer {
    /// The operation did not reach the storage.
    NotSent,
    /// The storage gave no reply.
    NoReply,
    Reply(Result<String, MemoryDBError>),
}

/// Whether `text` is the stored text of an inventory that the answer gives, or
/// why there is none.
pub open spec fn told(answer: StorageAnswer, text: Result<String, String>) -> bool {
    match answer {
        StorageAnswer::Reply(Ok(value)) => text == Ok::<String, String>(value),
        StorageAnswer::Reply(Err(_)) => text matches Err(error) && error@
            == "Error restoring inventory"@,
        StorageAnswer::NoReply => text matches Err(error) && error@
            == "Failed to receive restore response"@,
        StorageAnswer::NotSent => text matches Err(error) && error@
            == "Failed to send restore operation"@,
    }
}

/// The stored text of an inventory, or why there is none.
pub fn restore_answer(answer: StorageAnswer) -> (text: Result<String, String>)
    ensures
        told(answer, text),
{
    match answer {
        StorageAnswer::Reply(Ok(value)) => Ok(value),
        StorageAnswer::Reply(Err(_)) => Err("Error restoring inventory".to_string()),
        StorageAnswer::NoReply => Err("Failed to receive restore response".to_string()),
        StorageAnswer::NotSent => Err("Failed to send restore operation".to_string()),
    }
}

/// Whether an inventory was stored, or why not.
pub fn persist_answer(answer: StorageAnswer) -> (done: Result<(), String>)
    ensures
        match answer {
            StorageAnswer::Reply(Ok(_)) => done is Ok,
            StorageAnswer::Reply(Err(_)) => done matches Err(error) && error@
                == "Persistence operation failed"@,
            StorageAnswer::NoReply => done matches Err(error) && error@
                == "Failed to receive persist response"@,
            StorageAnswer::NotSent => done matches Err(error) && error@
                == "Failed to send persist operation"@,
        },
{
    match answer {
        StorageAnswer::Reply(Ok(_)) => Ok(()),
        StorageAnswer::Reply(Err(_)) => Err("Persistence operation failed".to_string()),
        StorageAnswer::NoReply => Err("Failed to receive persist response".to_string()),
        StorageAnswer::NotSent => Err("Failed to send persist operation".to_string()),
    }
}

/// The amount of `name`, or nothing.
pub open spec fn amount(amounts: Amounts, name: Seq<char>) -> nat {
    if amounts.contains_key(name) {
        amounts[name].value as nat
    } else {
        0
    }
}

/// How much of `name` all receipts together set aside.
pub open spec fn held(reserved: Map<u128, Receipt>, name: Seq<char>) -> nat
    decreases reserved.dom().len(),
{
    if reserved.dom().finite() && !reserved.dom().is_empty() {
        let id = reserved.dom().choose();
        amount(reserved[id].resources@, name) + held(reserved.remove(id), name)
    } else {
        0
    }
}

/// How much of `name` there is, free or set aside.
pub open spec fn supply(inventory: Inventory, name: Seq<char>) -> nat {
    amount(inventory.resources@, name) + held(inventory.reserved@, name)
}

proof fn lemma_held_without(reserved: Map<u128, Receipt>, id: u128, name: Seq<char>)
    requires
        reserved.dom().finite(),
        reserved.contains_key(id),
    ensures
        held(reserved, name) == amount(reserved[id].resources@, name) + held(
            reserved.remove(id),
            name,
        ),
    decreases reserved.dom().len(),
{
    let first = reserved.dom().choose();
    assert(reserved.dom().contains(id));
    assert(reserved.dom().contains(first));
    if first != id {
        lemma_held_without(reserved.remove(first), id, name);
        lemma_held_without(reserved.remove(id), first, name);
        assert(reserved.remove(first).remove(id) =~= reserved.remove(id).remove(first));
    }
}

/// Setting resources aside neither makes nor loses any: of each resource, what
/// is free and what all receipts hold stay the same together.
pub proof fn law_reserve_keeps_supply(
    before: Inventory,
    request: Table<Value<u64>>,
    receipt_id: u128,
    after: Inventory,
    response: MessageView,
    name: Seq<char>,
)
    requires
        !before.reserved@.contains_key(receipt_id),
        reserved_to(before, request, receipt_id, after, response),
    ensures
        supply(after, name) == supply(before, name),
{
    if sufficient(before.resources@, request@) {
        let receipt = Receipt { id: receipt_id, resources: request };
        assert(after.reserved@.remove(receipt_id) =~= before.reserved@);
        lemma_held_without(after.reserved@, receipt_id, name);
        if request@.contains_key(name) {
            assert(before.resources@.contains_key(name));
        }
    }
}

/// Taking resources back neither makes nor loses any of a resource that the
/// inventory knows.
pub proof fn law_release_keeps_supply(
    before: Inventory,
    receipt_id: u128,
    after: Inventory,
    response: MessageView,
    name: Seq<char>,
)
    requires
        can_release(before, receipt_id),
        released_to(before, receipt_id, after, response),
        before.resources@.contains_key(name),
    ensures
        supply(after, name) == supply(before, name),
{
    if before.reserved@.contains_key(receipt_id) {
        lemma_held_without(before.reserved@, receipt_id, name);
        if before.reserved@[receipt_id].resources@.contains_key(name) {
            assert(fits(before.resources@, before.reserved@[receipt_id].resources@));
        }
    }
}

/// Whether of no resource that the inventory knows there is more, free or set
/// aside, than an amount can hold.
pub open spec fn bounded(inventory: Inventory) -> bool {
    forall|name: Seq<char>|
        inventory.resources@.contains_key(name) ==> #[trigger] supply(inventory, name) <= u64::MAX
}

/// Where of no resource there is more than an amount can hold, every receipt
/// can be taken back.
pub proof fn law_bounded_supply_can_be_released(inventory: Inventory, receipt_id: u128)
    requires
        bounded(inventory),
    ensures
        can_release(inventory, receipt_id),
{
    if inventory.reserved@.contains_key(receipt_id) {
        let returned = inventory.reserved@[receipt_id].resources@;
        assert forall|name: Seq<char>| #[trigger]
            returned.contains_key(name) && inventory.resources@.contains_key(
                name,
            ) implies inventory.resources@[name].value + returned[name].value <= u64::MAX by {
            lemma_held_without(inventory.reserved@, receipt_id, name);
            assert(supply(inventory, name) <= u64::MAX);
        }
    }
}

/// Where of no resource there is more than an amount can hold, that stays so:
/// whatever is set aside and taken back, every receipt can be taken back.
pub proof fn law_supply_stays_bounded(
    before: Inventory,
    request: Table<Value<u64>>,
    receipt_id: u128,
    after: Inventory,
    response: MessageView,
)
    requires
        bounded(before),
        (!before.reserved@.contains_key(receipt_id) && reserved_to(
            before,
            request,
            receipt_id,
            after,
            response,
        )) || released_to(before, receipt_id, after, response),
    ensures
        bounded(after),
{
    assert forall|name: Seq<char>| after.resources@.contains_key(name) implies #[trigger] supply(
        after,
        name,
    ) <= u64::MAX by {
        law_known_resources_stay(before, request, receipt_id, after, response);
        assert(before.resources@.dom().contains(name));
        assert(supply(before, name) <= u64::MAX);
        if !before.reserved@.contains_key(receipt_id) && reserved_to(
            before,
            request,
            receipt_id,
            after,
            response,
        ) {
            law_reserve_keeps_supply(before, request, receipt_id, after, response, name);
        } else {
            law_bounded_supply_can_be_released(before, receipt_id);
            law_release_keeps_supply(before, receipt_id, after, response, name);
        }
    }
}

/// Whether each receipt goes by its own identifier.
pub open spec fn receipts_agree(reserved: Map<u128, Receipt>) -> bool {
    forall|id: u128| #[trigger] reserved.contains_key(id) ==> reserved[id].id == id
}

/// Receipts go by their own identifiers, whatever is set aside and taken back.
pub proof fn law_receipts_keep_their_ids(
    before: Inventory,
    request: Table<Value<u64>>,
    receipt_id: u128,
    after: Inventory,
    response: MessageView,
)
    requires
        receipts_agree(before.reserved@),
        reserved_to(before, request, receipt_id, after, response) || released_to(
            before,
            receipt_id,
            after,
            response,
        ),
    ensures
        receipts_agree(after.reserved@),
{
}

/// What has just been set aside can be taken back.
pub proof fn law_reserved_can_be_released(
    before: Inventory,
    request: Table<Value<u64>>,
    receipt_id: u128,
    after: Inventory,
    response: MessageView,
)
    requires
        sufficient(before.resources@, request@),
        reserved_to(before, request, receipt_id, after, response),
    ensures
        can_release(after, receipt_id),
{
    assert forall|name: Seq<char>| #[trigger]
        request@.contains_key(name) && after.resources@.contains_key(
            name,
        ) implies after.resources@[name].value + request@[name].value <= u64::MAX by {
        assert(before.resources@.contains_key(name));
    }
}

/// Taking back what was just set aside under a new receipt leaves the resources
/// and the receipts as they were.
pub proof fn law_release_undoes_reserve(
    before: Inventory,
    request: Table<Value<u64>>,
    receipt_id: u128,
    between: Inventory,
    reserved: MessageView,
    after: Inventory,
    released: MessageView,
)
    requires
        sufficient(before.resources@, request@),
        !before.reserved@.contains_key(receipt_id),
        reserved_to(before, request, receipt_id, between, reserved),
        released_to(between, receipt_id, after, released),
    ensures
        released == MessageView::InventoryReleaseResponse(Ok(receipt_id)),
        after.id == before.id,
        after.status == before.status,
        after.resources@ == before.resources@,
        after.reserved@ == before.reserved@,
{
    law_reserved_can_be_released(before, request, receipt_id, between, reserved);
    assert(after.resources@ =~= before.resources@) by {
        assert forall|name: Seq<char>| #[trigger]
            before.resources@.contains_key(name) implies after.resources@[name]
            == before.resources@[name] by {
            if request@.contains_key(name) {
                assert(before.resources@[name].value >= request@[name].value);
            }
        }
    }
    assert(after.reserved@ =~= before.reserved@);
}

/// A receipt is good for one release.
pub proof fn law_second_release_is_refused(
    before: Inventory,
    receipt_id: u128,
    between: Inventory,
    first_response: MessageView,
    after: Inventory,
    second_response: MessageView,
)
    requires
        released_to(before, receipt_id, between, first_response),
        released_to(between, receipt_id, after, second_response),
    ensures
        second_response == MessageView::InventoryReleaseResponse(
            Err::<u128, Seq<char>>("no reservation found"@),
        ),
        after == between,
{
}

/// Which resources an inventory knows changes by neither setting aside nor
/// taking back.
pub proof fn law_known_resources_stay(
    before: Inventory,
    request: Table<Value<u64>>,
    receipt_id: u128,
    after: Inventory,
    response: MessageView,
)
    requires
        reserved_to(before, request, receipt_id, after, response) || released_to(
            before,
            receipt_id,
            after,
            response,
        ),
    ensures
        after.resources@.dom() == before.resources@.dom(),
{
    assert(after.resources@.dom() =~= before.resources@.dom());
}

/// An inventory that takes over what was stored of another one holds the same
/// resources and receipts.
pub proof fn law_restore_gives_back_snapshot(
    source: Inventory,
    snapshot: SerializableInventory,
    before: Inventory,
    after: Inventory,
)
    requires
        is_snapshot(snapshot, source),
        restored_to(before, snapshot, after),
    ensures
        after.resources@ == source.resources@,
        same_receipts(after.reserved@, source.reserved@),
        after.id == before.id,
{
}

/// What an inventory stores is what it is told when it asks for it, whatever
/// else has been stored since.
pub proof fn law_stored_inventory_is_found(
    id: u128,
    text: String,
    put: Result<OpType, String>,
    contents: Map<Seq<char>, Seq<char>>,
    ops: Seq<OpType>,
    i: int,
    get: OpType,
    reply: Result<String, MemoryDBError>,
    answer: Result<String, String>,
)
    requires
        stored_by(id, Ok(text), put),
        0 <= i < ops.len(),
        put == Ok::<OpType, String>(ops[i]),
        forall|j: int| i < j < ops.len() ==> !writes(#[trigger] ops[j], storage_key(id)),
        asks_for_stored(id, get),
        replied(contents_after_all(contents, ops), get, reply),
        told(StorageAnswer::Reply(reply), answer),
    ensures
        reply is Ok,
        answer matches Ok(read) && read@ == text@,
{
    law_read_gives_back_last_put(contents, ops, i, get->Get_0);
}

/// Whether two snapshots hold the same.
pub open spec fn same_snapshot(a: SerializableInventory, b: SerializableInventory) -> bool {
    &&& a.id == b.id
    &&& a.resources@ == b.resources@
    &&& same_receipts(a.reserved@, b.reserved@)
}

/// Restoring undoes persisting: where the serialized text reads back as what
/// was serialized, an inventory with the same identifier gets back the
/// resources and the receipts that were stored, whatever it held and whatever
/// else has been stored since.
pub proof fn law_restore_undoes_persist(
    source: Inventory,
    snapshot: SerializableInventory,
    text: String,
    put: Result<OpType, String>,
    contents: Map<Seq<char>, Seq<char>>,
    ops: Seq<OpType>,
    i: int,
    before: Inventory,
    get: OpType,
    reply: Result<String, MemoryDBError>,
    answer: Result<String, String>,
    stored: Option<SerializableInventory>,
    after: Inventory,
    done: Result<(), String>,
)
    requires
        is_snapshot(snapshot, source),
        stored_by(source.id, Ok(text), put),
        0 <= i < ops.len(),
        put == Ok::<OpType, String>(ops[i]),
        forall|j: int| i < j < ops.len() ==> !writes(#[trigger] ops[j], storage_key(source.id)),
        before.id == source.id,
        asks_for_stored(before.id, get),
        replied(contents_after_all(contents, ops), get, reply),
        told(StorageAnswer::Reply(reply), answer),
        (answer matches Ok(read) && read@ == text@) ==> (stored matches Some(found)
            && same_snapshot(found, snapshot)),
        restored(before, stored, after, done),
    ensures
        done is Ok,
        after.id == before.id,
        after.status == before.status,
        after.resources@ == source.resources@,
        same_receipts(after.reserved@, source.reserved@),
{
    law_stored_inventory_is_found(source.id, text, put, contents, ops, i, get, reply, answer);
    let found = stored->0;
    assert forall|id: u128| #[trigger] source.reserved@.contains_key(id) implies same_receipt(
        found.reserved@[id],
        source.reserved@[id],
    ) by {
        assert(snapshot.reserved@.dom().contains(id));
        assert(snapshot.reserved@.contains_key(id));
    }
}

/// Inventories do not share a key.
pub proof fn law_storage_keys_differ(a: u128, b: u128)
    requires
        storage_key(a) == storage_key(b),
    ensures
        a == b,
{
    let n = "inventory:"@.len() as int;
    let s = storage_key(a);
    assert(hyphenated_text(a) =~= s.subrange(n, s.len() as int));
    assert(hyphenated_text(b) =~= s.subrange(n, s.len() as int));
    lemma_hyphenated_text_injective(a, b);
}

} // verus!
