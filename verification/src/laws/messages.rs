//! What messages, identifiers and tables are.

use opentelemetry::trace::SpanContext;
use vstd::arithmetic::power::pow;
use vstd::prelude::*;

use crate::actor::broker::{Broker, Topic};
use crate::actor::inventory::Receipt;
use crate::actor::model::{InternalMessage, Message, WebsocketMessage};
use crate::actor::shutdown::{Phase, Shutdown};
use crate::actor::worker::Worker;
use crate::blueprint::model::Value;
use crate::ids::{
    drawn_at_random, hyphenated_text, law_random_ids_have_their_marks, lower_case, reads_as,
    simple_text,
};
use crate::instrumentation::{belongs_to, build_carrier, carrier_for};
use crate::table::{distinct_names, Table};

verus! {

/// A copy of a message says what the message says.
pub proof fn law_copy_says_the_same(message: InternalMessage, copy: InternalMessage)
    requires
        call_ensures(<InternalMessage as Clone>::clone, (&message,), copy),
    ensures
        message is TaskAdded ==> copy is TaskAdded,
        message is GracefulStop ==> copy is GracefulStop,
        message is Stop ==> copy is Stop,
        message matches InternalMessage::InventoryReserveRequest(request) ==> (
        copy matches InternalMessage::InventoryReserveRequest(copied) && copied@ == request@),
        message matches InternalMessage::InventoryReserveResponse(Ok(id)) ==> copy == message,
        message matches InternalMessage::InventoryReserveResponse(Err(reason)) ==> (
        copy matches InternalMessage::InventoryReserveResponse(Err(copied)) && copied@ == reason@),
        message matches InternalMessage::InventoryReleaseRequest(id) ==> copy == message,
        message matches InternalMessage::InventoryReleaseResponse(Ok(id)) ==> copy == message,
        message matches InternalMessage::InventoryReleaseResponse(Err(reason)) ==> (
        copy matches InternalMessage::InventoryReleaseResponse(Err(copied)) && copied@ == reason@),
{
}

/// A request that is made from what is asked for asks for that, and nobody waits
/// for its reply yet.
pub proof fn law_message_asks_for_its_content(content: WebsocketMessage, message: Message)
    requires
        call_ensures(<Message as From<WebsocketMessage>>::from, (content,), message),
    ensures
        message.content == content,
        message.reply is None,
{
}

/// Lower case turns each ASCII capital into its small letter and leaves every
/// other character.
pub proof fn law_lower_case(text: Seq<char>, i: int)
    requires
        0 <= i < text.len(),
    ensures
        lower_case(text).len() == text.len(),
        'A' <= text[i] <= 'Z' ==> lower_case(text)[i] as int == text[i] as int + 32,
        !('A' <= text[i] <= 'Z') ==> lower_case(text)[i] == text[i],
{
}

/// The digits of an identifier are those of the number to the base of sixteen,
/// the largest first, in small letters.
pub proof fn law_digits_are_those_of_the_number(id: u128, i: int)
    requires
        0 <= i < 32,
    ensures
        simple_text(id).len() == 32,
        ({
            let d = (id as int / pow(16, (31 - i) as nat)) % 16;
            &&& d < 10 ==> simple_text(id)[i] as int == '0' as int + d
            &&& d >= 10 ==> simple_text(id)[i] as int == 'a' as int + d - 10
        }),
{
}

/// The written form of an identifier is its digits with hyphens after the
/// eighth, twelfth, sixteenth and twentieth.
pub proof fn law_hyphens_part_the_digits(id: u128, i: int)
    requires
        0 <= i < 32,
    ensures
        hyphenated_text(id).len() == 36,
        hyphenated_text(id)[8] == '-',
        hyphenated_text(id)[13] == '-',
        hyphenated_text(id)[18] == '-',
        hyphenated_text(id)[23] == '-',
        i < 8 ==> hyphenated_text(id)[i] == simple_text(id)[i],
        8 <= i < 12 ==> hyphenated_text(id)[i + 1] == simple_text(id)[i],
        12 <= i < 16 ==> hyphenated_text(id)[i + 2] == simple_text(id)[i],
        16 <= i < 20 ==> hyphenated_text(id)[i + 3] == simple_text(id)[i],
        20 <= i ==> hyphenated_text(id)[i + 4] == simple_text(id)[i],
{
}

/// An identifier is read from its bare digits as well as from its written form.
pub proof fn law_both_forms_are_read(id: u128)
    ensures
        reads_as(simple_text(id), id),
        reads_as(hyphenated_text(id), id),
{
    let s = simple_text(id);
    assert(lower_case(s) =~= s) by {
        assert forall|i: int| 0 <= i < s.len() implies lower_case(s)[i] == s[i] by {
            law_digits_are_those_of_the_number(id, i);
        }
    }
    crate::ids::law_written_id_reads_back(id);
}

/// An identifier that chance picked has version 4 in its thirteenth digit and
/// the variant in its seventeenth.
pub proof fn law_random_ids_are_marked(id: u128)
    requires
        drawn_at_random(id),
    ensures
        simple_text(id)[12] == '4',
        simple_text(id)[16] == '8' || simple_text(id)[16] == '9' || simple_text(id)[16] == 'a'
            || simple_text(id)[16] == 'b',
{
    law_random_ids_have_their_marks(id);
}

/// A carrier holds the digits of the trace under `traceparent`, and nothing
/// else.
pub proof fn law_carrier_holds_the_trace(
    trace_id: u128,
    carrier: Table<String>,
    ctx: SpanContext,
    built: Table<String>,
    name: Seq<char>,
)
    requires
        call_ensures(carrier_for, (trace_id,), carrier),
        call_ensures(build_carrier, (&ctx,), built),
    ensures
        carrier@.contains_key(name) <==> name == "traceparent"@,
        carrier@["traceparent"@]@ == simple_text(trace_id),
        built@.contains_key(name) <==> name == "traceparent"@,
        exists|id: u128| #[trigger]
            belongs_to(ctx, id) && built@["traceparent"@]@ == simple_text(id),
{
    assert(carrier@.dom().contains(name) == set!["traceparent"@].contains(name));
    assert(built@.dom().contains(name) == set!["traceparent"@].contains(name));
}

/// What is put under a name is found there, and every other name keeps what it
/// had; what was there is handed back.
pub proof fn law_table_keeps_what_is_put<V>(
    table: &mut Table<V>,
    name: String,
    value: V,
    replaced: Option<V>,
    wanted: String,
    found: Option<&V>,
    known: bool,
)
    requires
        call_ensures(Table::<V>::insert, (table, name, value), replaced),
        call_ensures(Table::<V>::get, (&*final(table), &wanted), found),
        call_ensures(Table::<V>::contains_key, (&*final(table), &wanted), known),
    ensures
        wanted@ == name@ ==> found == Some(&value),
        wanted@ != name@ ==> (found is Some <==> old(table)@.contains_key(wanted@)),
        wanted@ != name@ && found is Some ==> *found->0 == old(table)@[wanted@],
        known <==> found is Some,
        replaced is Some <==> old(table)@.contains_key(name@),
        replaced is Some ==> replaced->0 == old(table)@[name@],
{
}

/// What is taken out is handed back and gone, and every other name keeps what it
/// had.
pub proof fn law_table_forgets_what_is_taken_out<V>(
    table: &mut Table<V>,
    name: String,
    taken: Option<V>,
    wanted: String,
    found: Option<&V>,
)
    requires
        call_ensures(Table::<V>::remove, (table, &name), taken),
        call_ensures(Table::<V>::get, (&*final(table), &wanted), found),
    ensures
        wanted@ == name@ ==> found is None,
        wanted@ != name@ ==> (found is Some <==> old(table)@.contains_key(wanted@)),
        wanted@ != name@ && found is Some ==> *found->0 == old(table)@[wanted@],
        taken is Some <==> old(table)@.contains_key(name@),
        taken is Some ==> taken->0 == old(table)@[name@],
{
}

/// A new table has no rows and no names.
pub proof fn law_new_table_is_empty<V>(table: Table<V>, n: usize, name: Seq<char>)
    requires
        call_ensures(Table::<V>::new, (), table),
        call_ensures(Table::<V>::len, (&table,), n),
    ensures
        n == 0,
        !table@.contains_key(name),
{
}

/// A table has a row for each name and a name for each row.
pub proof fn law_rows_are_what_the_table_holds<V>(
    table: Table<V>,
    n: usize,
    i: usize,
    row: (&String, &V),
    name: Seq<char>,
)
    requires
        call_ensures(Table::<V>::len, (&table,), n),
        i < n,
        call_ensures(Table::<V>::row, (&table, i), row),
    ensures
        table@.contains_key(row.0@),
        table@[row.0@] == *row.1,
        table@.contains_key(name) <==> exists|j: int|
            0 <= j < n && #[trigger] table.rows_view()[j].0@ == name,
        forall|j: int, k: int|
            0 <= j < k < n ==> #[trigger] table.rows_view()[j].0@
                != #[trigger] table.rows_view()[k].0@,
{
    let rows = table.rows_view();
    assert(distinct_names(rows));
    crate::table::lemma_row(rows, i as int);
    if table@.contains_key(name) {
        let j = crate::table::lemma_named(rows, name);
        assert(rows[j].0@ == name);
    }
    if exists|j: int| 0 <= j < n && #[trigger] table.rows_view()[j].0@ == name {
        let j = choose|j: int| 0 <= j < n && #[trigger] table.rows_view()[j].0@ == name;
        crate::table::lemma_row(rows, j);
    }
}

/// A copy of a named amount, of a receipt and of a topic is the same again.
pub proof fn law_copies_are_the_same(
    value: Value<u64>,
    copied_value: Value<u64>,
    receipt: Receipt,
    copied_receipt: Receipt,
    topic: Topic,
    copied_topic: Topic,
)
    requires
        call_ensures(<Value<u64> as Clone>::clone, (&value,), copied_value),
        call_ensures(<Receipt as Clone>::clone, (&receipt,), copied_receipt),
        call_ensures(<Topic as Clone>::clone, (&topic,), copied_topic),
    ensures
        copied_value.name == value.name,
        copied_value.value == value.value,
        copied_receipt.id == receipt.id,
        copied_receipt.resources@ == receipt.resources@,
        copied_topic.name == topic.name,
        copied_topic.sender == topic.sender,
{
}

/// What comes by default is what is new.
pub proof fn law_defaults_are_new(broker: Broker, worker: Worker, shutdown: Shutdown)
    requires
        call_ensures(<Broker as Default>::default, (), broker),
        call_ensures(<Worker as Default>::default, (), worker),
        call_ensures(<Shutdown as Default>::default, (), shutdown),
    ensures
        forall|name: Seq<char>| !broker@.contains_key(name),
        !worker.graceful_stop,
        shutdown.phase == Phase::Start,
{
}

} // verus!
