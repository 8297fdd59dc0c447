//! What becomes of an inventory.

use vstd::prelude::*;

use crate::actor::inventory::{
    persist_answer, restore_answer, restore_operation_for, Inventory, ListenerStep,
    SerializableInventory, Status, StorageAnswer,
};
use crate::actor::model::InternalMessage;
use crate::blueprint::model::Value;
use crate::ids::{drawn_at_random, hyphenated_text};
use crate::persistence::error::MemoryDBError;
use crate::persistence::worker::OpType;
use crate::table::Table;

verus! {

/// Where of everything that is asked for there is enough, the request is
/// granted: each amount moves from the resources to the receipt, and nothing
/// else changes.
pub proof fn law_covered_request_is_granted(
    inventory: &mut Inventory,
    request: Table<Value<u64>>,
    receipt_id: u128,
    response: InternalMessage,
)
    requires
        call_ensures(
            Inventory::process_reservation,
            (inventory, request, receipt_id),
            response,
        ),
        forall|name: Seq<char>| #[trigger]
            request@.contains_key(name) ==> old(inventory).resources@.contains_key(name)
                && request@[name].value <= old(inventory).resources@[name].value,
    ensures
        response == InternalMessage::InventoryReserveResponse(Ok(receipt_id)),
        final(inventory).id == old(inventory).id,
        final(inventory).status == old(inventory).status,
        forall|name: Seq<char>| #[trigger]
            final(inventory).resources@.contains_key(name) <==> old(inventory).resources@.contains_key(name),
        forall|name: Seq<char>| #[trigger]
            old(inventory).resources@.contains_key(name) && request@.contains_key(name)
                ==> final(inventory).resources@[name].value + request@[name].value == old(inventory).resources@[name].value && final(inventory).resources@[name].name == old(inventory).resources@[name].name,
        forall|name: Seq<char>| #[trigger]
            old(inventory).resources@.contains_key(name) && !request@.contains_key(name)
                ==> final(inventory).resources@[name] == old(inventory).resources@[name],
        final(inventory).reserved@.contains_key(receipt_id),
        final(inventory).reserved@[receipt_id].id == receipt_id,
        final(inventory).reserved@[receipt_id].resources@ == request@,
        forall|other: u128| #[trigger]
            final(inventory).reserved@.contains_key(other) && other != receipt_id <==> old(inventory).reserved@.contains_key(other) && other != receipt_id,
        forall|other: u128| #[trigger]
            old(inventory).reserved@.contains_key(other) && other != receipt_id
                ==> final(inventory).reserved@[other] == old(inventory).reserved@[other],
{
}

/// Where of anything that is asked for there is too little or none, the request
/// is refused and nothing changes.
pub proof fn law_uncovered_request_is_refused(
    inventory: &mut Inventory,
    request: Table<Value<u64>>,
    receipt_id: u128,
    response: InternalMessage,
    name: Seq<char>,
)
    requires
        call_ensures(
            Inventory::process_reservation,
            (inventory, request, receipt_id),
            response,
        ),
        request@.contains_key(name),
        old(inventory).resources@.contains_key(name) ==> old(inventory).resources@[name].value
            < request@[name].value,
    ensures
        response matches InternalMessage::InventoryReserveResponse(Err(reason)) && reason@
            == "insufficient resources"@,
        *final(inventory) == *old(inventory),
{
}

/// A request that is covered is granted under a receipt that chance names.
pub proof fn law_covered_request_gets_a_receipt(
    inventory: &mut Inventory,
    request: Table<Value<u64>>,
    response: InternalMessage,
)
    requires
        call_ensures(Inventory::handle_reserve_request, (inventory, request), response),
        forall|name: Seq<char>| #[trigger]
            request@.contains_key(name) ==> old(inventory).resources@.contains_key(name)
                && request@[name].value <= old(inventory).resources@[name].value,
    ensures
        response matches InternalMessage::InventoryReserveResponse(Ok(receipt_id))
            && drawn_at_random(receipt_id) && final(inventory).reserved@.contains_key(receipt_id)
            && final(inventory).reserved@[receipt_id].id == receipt_id && final(inventory).reserved@[receipt_id].resources@ == request@ && final(inventory).reserved@.remove(
            receipt_id,
        ) == old(inventory).reserved@.remove(receipt_id),
        forall|name: Seq<char>| #[trigger]
            old(inventory).resources@.contains_key(name) && request@.contains_key(name)
                ==> final(inventory).resources@[name].value + request@[name].value == old(inventory).resources@[name].value,
        forall|name: Seq<char>| #[trigger]
            old(inventory).resources@.contains_key(name) && !request@.contains_key(name)
                ==> final(inventory).resources@[name] == old(inventory).resources@[name],
        final(inventory).resources@.dom() == old(inventory).resources@.dom(),
        final(inventory).id == old(inventory).id,
        final(inventory).status == old(inventory).status,
{
    assert(final(inventory).resources@.dom() =~= old(inventory).resources@.dom());
    let receipt_id = response->InventoryReserveResponse_0->Ok_0;
    assert(final(inventory).reserved@.remove(receipt_id) =~= old(inventory).reserved@.remove(
        receipt_id,
    ));
}

/// A request that is not covered is refused, under whichever receipt.
pub proof fn law_uncovered_request_gets_no_receipt(
    inventory: &mut Inventory,
    request: Table<Value<u64>>,
    response: InternalMessage,
    name: Seq<char>,
)
    requires
        call_ensures(Inventory::handle_reserve_request, (inventory, request), response),
        request@.contains_key(name),
        old(inventory).resources@.contains_key(name) ==> old(inventory).resources@[name].value
            < request@[name].value,
    ensures
        response matches InternalMessage::InventoryReserveResponse(Err(reason)) && reason@
            == "insufficient resources"@,
        *final(inventory) == *old(inventory),
{
}

/// A release gives each amount of the receipt back to the resource of that
/// name, where there is one, and the receipt is gone.
pub proof fn law_release_gives_back(
    inventory: &mut Inventory,
    receipt_id: u128,
    response: InternalMessage,
)
    requires
        call_ensures(Inventory::handle_release_request, (inventory, receipt_id), response),
        old(inventory).reserved@.contains_key(receipt_id),
        forall|name: Seq<char>| #[trigger]
            old(inventory).resources@.contains_key(name) && old(inventory).reserved@[receipt_id].resources@.contains_key(name) ==> old(inventory).resources@[name].value + old(inventory).reserved@[receipt_id].resources@[name].value <= u64::MAX,
    ensures
        response == InternalMessage::InventoryReleaseResponse(Ok(receipt_id)),
        final(inventory).id == old(inventory).id,
        final(inventory).status == old(inventory).status,
        final(inventory).resources@.dom() == old(inventory).resources@.dom(),
        forall|name: Seq<char>| #[trigger]
            old(inventory).resources@.contains_key(name) && old(inventory).reserved@[receipt_id].resources@.contains_key(name)
                ==> final(inventory).resources@[name].value == old(inventory).resources@[name].value + old(inventory).reserved@[receipt_id].resources@[name].value
                && final(inventory).resources@[name].name == old(inventory).resources@[name].name,
        forall|name: Seq<char>| #[trigger]
            old(inventory).resources@.contains_key(name) && !old(inventory).reserved@[receipt_id].resources@.contains_key(name)
                ==> final(inventory).resources@[name] == old(inventory).resources@[name],
        !final(inventory).reserved@.contains_key(receipt_id),
        final(inventory).reserved@ == old(inventory).reserved@.remove(receipt_id),
{
    assert(final(inventory).resources@.dom() =~= old(inventory).resources@.dom());
}

/// An unknown receipt is refused and nothing changes.
pub proof fn law_unknown_receipt_is_refused(
    inventory: &mut Inventory,
    receipt_id: u128,
    response: InternalMessage,
)
    requires
        call_ensures(Inventory::handle_release_request, (inventory, receipt_id), response),
        !old(inventory).reserved@.contains_key(receipt_id),
    ensures
        response matches InternalMessage::InventoryReleaseResponse(Err(reason)) && reason@
            == "no reservation found"@,
        *final(inventory) == *old(inventory),
{
}

/// A release fits exactly where no amount would grow beyond the largest number.
pub proof fn law_release_fits_where_nothing_overflows(
    inventory: Inventory,
    receipt_id: u128,
    fit: bool,
)
    requires
        call_ensures(Inventory::release_fits, (&inventory, receipt_id), fit),
    ensures
        !inventory.reserved@.contains_key(receipt_id) ==> fit,
        inventory.reserved@.contains_key(receipt_id) ==> (fit <==> forall|name: Seq<char>|
            inventory.resources@.contains_key(name) && #[trigger] inventory.reserved@[receipt_id].resources@.contains_key(
                name,
            ) ==> inventory.resources@[name].value
                + inventory.reserved@[receipt_id].resources@[name].value
                <= 0xffff_ffff_ffff_ffff),
{
    if inventory.reserved@.contains_key(receipt_id) {
        let returned = inventory.reserved@[receipt_id].resources@;
        if fit {
            assert forall|name: Seq<char>|
                inventory.resources@.contains_key(name) && #[trigger] returned.contains_key(
                    name,
                ) implies inventory.resources@[name].value + returned[name].value
                <= 0xffff_ffff_ffff_ffff by {
                assert(returned.contains_key(name) && inventory.resources@.contains_key(name));
            }
        }
    }
}

/// A reservation that is released at once has never been: what is free, what is
/// set aside and what the listener does are as before.
pub proof fn law_release_after_reserve_restores(
    inventory: &mut Inventory,
    request: Table<Value<u64>>,
    receipt_id: u128,
    granted: InternalMessage,
    again: &mut Inventory,
    released: InternalMessage,
)
    requires
        !old(inventory).reserved@.contains_key(receipt_id),
        call_ensures(
            Inventory::process_reservation,
            (inventory, request, receipt_id),
            granted,
        ),
        *old(again) == *final(inventory),
        call_ensures(Inventory::handle_release_request, (again, receipt_id), released),
    ensures
        final(again).resources@ == old(inventory).resources@,
        final(again).reserved@ == old(inventory).reserved@,
        final(again).id == old(inventory).id,
        final(again).status == old(inventory).status,
        released is InventoryReleaseResponse && (released->InventoryReleaseResponse_0 is Ok
            <==> granted->InventoryReserveResponse_0 is Ok),
{
    if forall|name: Seq<char>| #[trigger]
        request@.contains_key(name) ==> old(inventory).resources@.contains_key(name)
            && request@[name].value <= old(inventory).resources@[name].value {
        law_covered_request_is_granted(inventory, request, receipt_id, granted);
        assert(final(again).resources@ =~= old(inventory).resources@) by {
            assert forall|name: Seq<char>| #[trigger]
                old(inventory).resources@.contains_key(name) implies final(again).resources@[name]
                == old(inventory).resources@[name] by {
                if request@.contains_key(name) {
                    assert(final(inventory).resources@[name].value + request@[name].value == old(inventory).resources@[name].value);
                }
            }
        }
        assert(final(again).reserved@ =~= old(inventory).reserved@);
    } else {
        let name = choose|name: Seq<char>|
            request@.contains_key(name) && !(old(inventory).resources@.contains_key(name)
                && request@[name].value <= old(inventory).resources@[name].value);
        law_uncovered_request_is_refused(inventory, request, receipt_id, granted, name);
        law_unknown_receipt_is_refused(again, receipt_id, released);
    }
}

/// A listener ends at `Stop` and where receiving failed, and then is stopped;
/// the inventory keeps what it holds.
pub proof fn law_listener_ends(
    inventory: &mut Inventory,
    received: Option<InternalMessage>,
    step: ListenerStep,
)
    requires
        call_ensures(Inventory::handle_inventory_message, (inventory, received), step),
        received is None || received == Some(InternalMessage::Stop),
    ensures
        !step.running,
        step.response is None,
        final(inventory).status == Status::Stopped,
        final(inventory).id == old(inventory).id,
        final(inventory).resources == old(inventory).resources,
        final(inventory).reserved == old(inventory).reserved,
{
}

/// A listener passes over what is neither a request to it nor `Stop`.
pub proof fn law_listener_passes_over(
    inventory: &mut Inventory,
    message: InternalMessage,
    step: ListenerStep,
)
    requires
        call_ensures(Inventory::handle_inventory_message, (inventory, Some(message)), step),
        !(message is Stop),
        !(message is InventoryReserveRequest),
        !(message is InventoryReleaseRequest),
    ensures
        step.running,
        step.response is None,
        *final(inventory) == *old(inventory),
{
}

/// A listener answers a request that is covered with a receipt, and listens on.
pub proof fn law_listener_grants(
    inventory: &mut Inventory,
    request: Table<Value<u64>>,
    step: ListenerStep,
)
    requires
        call_ensures(
            Inventory::handle_inventory_message,
            (inventory, Some(InternalMessage::InventoryReserveRequest(request))),
            step,
        ),
        forall|name: Seq<char>| #[trigger]
            request@.contains_key(name) ==> old(inventory).resources@.contains_key(name)
                && request@[name].value <= old(inventory).resources@[name].value,
    ensures
        step.running,
        step.response matches Some(InternalMessage::InventoryReserveResponse(Ok(receipt_id)))
            && drawn_at_random(receipt_id) && final(inventory).reserved@.contains_key(receipt_id)
            && final(inventory).reserved@[receipt_id].id == receipt_id && final(inventory).reserved@[receipt_id].resources@ == request@,
        final(inventory).status == old(inventory).status,
        forall|name: Seq<char>| #[trigger]
            old(inventory).resources@.contains_key(name) && request@.contains_key(name)
                ==> final(inventory).resources@[name].value + request@[name].value == old(inventory).resources@[name].value,
        forall|name: Seq<char>| #[trigger]
            old(inventory).resources@.contains_key(name) && !request@.contains_key(name)
                ==> final(inventory).resources@[name] == old(inventory).resources@[name],
{
}

/// A listener answers a request that is not covered with a refusal, and listens
/// on.
pub proof fn law_listener_refuses(
    inventory: &mut Inventory,
    request: Table<Value<u64>>,
    step: ListenerStep,
    name: Seq<char>,
)
    requires
        call_ensures(
            Inventory::handle_inventory_message,
            (inventory, Some(InternalMessage::InventoryReserveRequest(request))),
            step,
        ),
        request@.contains_key(name),
        old(inventory).resources@.contains_key(name) ==> old(inventory).resources@[name].value
            < request@[name].value,
    ensures
        step.running,
        step.response matches Some(InternalMessage::InventoryReserveResponse(Err(reason)))
            && reason@ == "insufficient resources"@,
        *final(inventory) == *old(inventory),
{
}

/// A listener answers a release with the receipt that it took back, or that it
/// knows none, and listens on.
pub proof fn law_listener_releases(
    inventory: &mut Inventory,
    receipt_id: u128,
    step: ListenerStep,
)
    requires
        call_ensures(
            Inventory::handle_inventory_message,
            (inventory, Some(InternalMessage::InventoryReleaseRequest(receipt_id))),
            step,
        ),
        forall|name: Seq<char>| #[trigger]
            old(inventory).resources@.contains_key(name) && old(inventory).reserved@[receipt_id].resources@.contains_key(name) ==> old(inventory).resources@[name].value + old(inventory).reserved@[receipt_id].resources@[name].value <= u64::MAX,
    ensures
        step.running,
        final(inventory).status == old(inventory).status,
        old(inventory).reserved@.contains_key(receipt_id) ==> step.response == Some(
            InternalMessage::InventoryReleaseResponse(Ok(receipt_id)),
        ) && final(inventory).reserved@ == old(inventory).reserved@.remove(receipt_id),
        old(inventory).reserved@.contains_key(receipt_id) ==> forall|name: Seq<char>| #[trigger]
            old(inventory).resources@.contains_key(name) && old(inventory).reserved@[receipt_id].resources@.contains_key(name)
                ==> final(inventory).resources@[name].value == old(inventory).resources@[name].value + old(inventory).reserved@[receipt_id].resources@[name].value,
        old(inventory).reserved@.contains_key(receipt_id) ==> forall|name: Seq<char>| #[trigger]
            old(inventory).resources@.contains_key(name) && !old(inventory).reserved@[receipt_id].resources@.contains_key(name)
                ==> final(inventory).resources@[name] == old(inventory).resources@[name],
        !old(inventory).reserved@.contains_key(receipt_id) ==> *final(inventory) == *old(inventory)
            && (step.response matches Some(InternalMessage::InventoryReleaseResponse(Err(reason)))
            && reason@ == "no reservation found"@),
{
}

/// A new inventory is empty and listens under its own identifier.
pub proof fn law_new_inventory_is_empty(id: u128, inventory: Inventory, told: u128)
    requires
        call_ensures(Inventory::new, (id,), inventory),
        call_ensures(Inventory::id, (&inventory,), told),
    ensures
        inventory.id == id,
        told == id,
        inventory.status == Status::Listening,
        forall|name: Seq<char>| !inventory.resources@.contains_key(name),
        forall|receipt: u128| !inventory.reserved@.contains_key(receipt),
{
}

/// A listener that has been started goes on when it looks; one that has been
/// asked to end ends when it looks next. Neither touches what is held.
pub proof fn law_stop_is_seen_at_the_next_look(
    started: &mut Inventory,
    first: &mut Inventory,
    goes_on: bool,
    asked: &mut Inventory,
    second: &mut Inventory,
    still_on: bool,
)
    requires
        call_ensures(Inventory::listen, (started,), ()),
        *old(first) == *final(started),
        call_ensures(Inventory::listener_woken, (first,), goes_on),
        *old(asked) == *final(first),
        call_ensures(Inventory::stop, (asked,), ()),
        *old(second) == *final(asked),
        call_ensures(Inventory::listener_woken, (second,), still_on),
    ensures
        goes_on,
        final(started).status == Status::Listening,
        *final(first) == *final(started),
        final(asked).status == Status::Stopping,
        !still_on,
        final(second).status == Status::Stopped,
        final(second).id == old(started).id,
        final(second).resources == old(started).resources,
        final(second).reserved == old(started).reserved,
{
}

/// A look ends a listener only where it was asked to end.
pub proof fn law_look_ends_only_what_is_stopping(inventory: &mut Inventory, goes_on: bool)
    requires
        call_ensures(Inventory::listener_woken, (inventory,), goes_on),
    ensures
        old(inventory).status == Status::Listening ==> goes_on && *final(inventory) == *old(inventory),
        old(inventory).status == Status::Stopped ==> goes_on && *final(inventory) == *old(inventory),
{
}

/// A snapshot holds every resource and every receipt, and nothing else.
pub proof fn law_snapshot_is_complete(inventory: Inventory, snapshot: SerializableInventory)
    requires
        call_ensures(Inventory::serialize, (&inventory,), snapshot),
    ensures
        snapshot.id == inventory.id,
        snapshot.resources@ == inventory.resources@,
        forall|id: u128| #[trigger]
            snapshot.reserved@.contains_key(id) <==> inventory.reserved@.contains_key(id),
        forall|id: u128| #[trigger]
            inventory.reserved@.contains_key(id) ==> snapshot.reserved@[id].id
                == inventory.reserved@[id].id && snapshot.reserved@[id].resources@
                == inventory.reserved@[id].resources@,
{
    assert forall|id: u128| #[trigger]
        snapshot.reserved@.contains_key(id) <==> inventory.reserved@.contains_key(id) by {
        assert(snapshot.reserved@.dom().contains(id) == inventory.reserved@.dom().contains(id));
    }
}

/// An inventory is stored and asked for under one key, which tells whose it is;
/// a text that could not be made is not stored.
pub proof fn law_one_key_for_storing_and_asking(
    inventory: Inventory,
    serialized: Result<String, String>,
    put: Result<OpType, String>,
    get: OpType,
    elsewhere: OpType,
)
    requires
        call_ensures(Inventory::persist, (&inventory, serialized), put),
        call_ensures(Inventory::restore_operation, (&inventory,), get),
        call_ensures(restore_operation_for, (inventory.id,), elsewhere),
    ensures
        get matches OpType::Get(key) && key@ == "inventory:"@ + hyphenated_text(inventory.id),
        elsewhere matches OpType::Get(key) && key@ == "inventory:"@ + hyphenated_text(inventory.id),
        serialized is Ok ==> (put matches Ok(OpType::Put(key, value)) && key@ == "inventory:"@
            + hyphenated_text(inventory.id) && value@ == serialized->Ok_0@),
        serialized is Err ==> (put matches Err(reason) && reason@ == "Serialization failed: "@
            + serialized->Err_0@),
{
}

/// What could be read replaces all resources and all receipts; what could not
/// leaves the inventory as it is. The identifier and the listener stay.
pub proof fn law_restore_takes_all_or_nothing(
    inventory: &mut Inventory,
    stored: Option<SerializableInventory>,
    done: Result<(), String>,
)
    requires
        call_ensures(Inventory::restore, (inventory, stored), done),
    ensures
        final(inventory).id == old(inventory).id,
        final(inventory).status == old(inventory).status,
        stored is Some ==> done is Ok && final(inventory).resources@ == stored->0.resources@
            && final(inventory).reserved@ == stored->0.reserved@,
        stored is None ==> *final(inventory) == *old(inventory) && (done matches Err(reason)
            && reason@ == "Failed to deserialize inventory data"@),
{
}

/// What the storage answers is what a restore reads and what a persist reports.
pub proof fn law_storage_answers_are_passed_on(
    reply: Result<String, MemoryDBError>,
    read: Result<String, String>,
    stored: Result<(), String>,
)
    requires
        call_ensures(restore_answer, (StorageAnswer::Reply(reply),), read),
        call_ensures(persist_answer, (StorageAnswer::Reply(reply),), stored),
    ensures
        reply is Ok ==> read is Ok && read->Ok_0@ == reply->Ok_0@ && stored is Ok,
        reply is Err ==> (read matches Err(reason) && reason@ == "Error restoring inventory"@)
            && (stored matches Err(reason) && reason@ == "Persistence operation failed"@),
{
}

/// A storage that is not reached, or does not reply, is reported as such.
pub proof fn law_lost_storage_is_reported(
    unsent_read: Result<String, String>,
    unheard_read: Result<String, String>,
    unsent_store: Result<(), String>,
    unheard_store: Result<(), String>,
)
    requires
        call_ensures(restore_answer, (StorageAnswer::NotSent,), unsent_read),
        call_ensures(restore_answer, (StorageAnswer::NoReply,), unheard_read),
        call_ensures(persist_answer, (StorageAnswer::NotSent,), unsent_store),
        call_ensures(persist_answer, (StorageAnswer::NoReply,), unheard_store),
    ensures
        unsent_read matches Err(reason) && reason@ == "Failed to send restore operation"@,
        unheard_read matches Err(reason) && reason@ == "Failed to receive restore response"@,
        unsent_store matches Err(reason) && reason@ == "Failed to send persist operation"@,
        unheard_store matches Err(reason) && reason@ == "Failed to receive persist response"@,
{
}

} // verus!
