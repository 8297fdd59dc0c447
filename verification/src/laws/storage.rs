//! What the storage gives back.

use opentelemetry::trace::SpanContext;
use vstd::prelude::*;

use crate::persistence::error::MemoryDBError;
use crate::persistence::inmemory::MemoryDatabase;
use crate::persistence::span::{
    operation_key, operation_notes, store_notes, Attribute, AttributeValue, Notes, Outcome,
};
use crate::persistence::worker::{
    delete_reply, set_reply, Handled, Op, OpType, PersistenceWorker, Persister,
};

verus! {

/// Storing a value under a key changes what is under that key, and nothing else.
pub proof fn law_put_stores<P: Persister>(
    worker: &mut PersistenceWorker<P>,
    ctx: Option<SpanContext>,
    key: String,
    value: String,
    reply: Result<String, MemoryDBError>,
)
    requires
        call_ensures(
            PersistenceWorker::<P>::perform,
            (worker, ctx, OpType::Put(key, value)),
            reply,
        ),
        old(worker).store().answers(),
    ensures
        reply matches Ok(text) && text@ == "Value set successfully"@,
        final(worker).store().answers(),
        final(worker).store().contents().contains_key(key@),
        final(worker).store().contents()[key@] == value@,
        forall|other: Seq<char>|
            other != key@ ==> (#[trigger] final(worker).store().contents().contains_key(other)
                <==> old(worker).store().contents().contains_key(other)),
        forall|other: Seq<char>|
            other != key@ && #[trigger] old(worker).store().contents().contains_key(other)
                ==> final(worker).store().contents()[other] == old(worker).store().contents()[other],
{
}

/// Deleting forgets what is under the key, and nothing else, and succeeds even
/// where there was nothing.
pub proof fn law_delete_forgets<P: Persister>(
    worker: &mut PersistenceWorker<P>,
    ctx: Option<SpanContext>,
    key: String,
    reply: Result<String, MemoryDBError>,
)
    requires
        call_ensures(PersistenceWorker::<P>::perform, (worker, ctx, OpType::Delete(key)), reply),
        old(worker).store().answers(),
    ensures
        reply matches Ok(text) && text@ == "Value deleted successfully"@,
        final(worker).store().answers(),
        !final(worker).store().contents().contains_key(key@),
        forall|other: Seq<char>|
            other != key@ ==> (#[trigger] final(worker).store().contents().contains_key(other)
                <==> old(worker).store().contents().contains_key(other)),
        forall|other: Seq<char>|
            other != key@ && #[trigger] old(worker).store().contents().contains_key(other)
                ==> final(worker).store().contents()[other] == old(worker).store().contents()[other],
{
}

/// Reading gives what is under the key, or refuses where there is nothing, and
/// changes nothing.
pub proof fn law_get_reads<P: Persister>(
    worker: &mut PersistenceWorker<P>,
    ctx: Option<SpanContext>,
    key: String,
    reply: Result<String, MemoryDBError>,
)
    requires
        call_ensures(PersistenceWorker::<P>::perform, (worker, ctx, OpType::Get(key)), reply),
        old(worker).store().answers(),
    ensures
        final(worker).store() == old(worker).store(),
        old(worker).store().contents().contains_key(key@) ==> (reply matches Ok(text) && text@
            == old(worker).store().contents()[key@]),
        !old(worker).store().contents().contains_key(key@) ==> (reply matches Err(error) && error@
            == "Key not found"@),
{
}

/// What is stored is what the next read of its key gives, and a read of a key
/// that was just deleted is refused; other keys read as before.
pub proof fn law_read_follows_write<P: Persister>(
    writer: &mut PersistenceWorker<P>,
    ctx: Option<SpanContext>,
    write: OpType,
    done: Result<String, MemoryDBError>,
    reader: &mut PersistenceWorker<P>,
    other_ctx: Option<SpanContext>,
    key: String,
    read: Result<String, MemoryDBError>,
)
    requires
        old(writer).store().answers(),
        call_ensures(PersistenceWorker::<P>::perform, (writer, ctx, write), done),
        *old(reader) == *final(writer),
        call_ensures(PersistenceWorker::<P>::perform, (reader, other_ctx, OpType::Get(key)), read),
    ensures
        write matches OpType::Put(written, value) ==> (written@ == key@ ==> (read matches Ok(text)
            && text@ == value@)),
        write matches OpType::Delete(written) ==> (written@ == key@ ==> (read matches Err(error)
            && error@ == "Key not found"@)),
        (write matches OpType::Put(written, _) ==> written@ != key@) && (
        write matches OpType::Delete(written) ==> written@ != key@) ==> (read is Ok <==> old(writer).store().contents().contains_key(key@)) && (read matches Ok(text) ==> text@ == old(writer).store().contents()[key@]),
{
}

/// A farewell is all that the worker answers to `Stop`; the store is not asked.
pub proof fn law_stop_asks_nothing<P: Persister>(
    worker: &mut PersistenceWorker<P>,
    ctx: Option<SpanContext>,
    reply: Result<String, MemoryDBError>,
)
    requires
        call_ensures(PersistenceWorker::<P>::perform, (worker, ctx, OpType::Stop), reply),
    ensures
        reply matches Ok(text) && text@ == "Worker stopped"@,
        final(worker).store() == old(worker).store(),
{
}

/// Any store, whether in working order or not, is asked to read with the key and
/// the trace of the operation, and what it gives is the reply.
pub proof fn law_store_is_asked_to_read<P: Persister>(
    worker: &mut PersistenceWorker<P>,
    ctx: Option<SpanContext>,
    key: String,
    reply: Result<String, MemoryDBError>,
)
    requires
        call_ensures(PersistenceWorker::<P>::perform, (worker, ctx, OpType::Get(key)), reply),
    ensures
        call_ensures(P::get, (&old(worker).store(), ctx, key), reply),
        final(worker).store() == old(worker).store(),
{
}

/// Any store is asked to write with the key, the value and the trace of the
/// operation; a refusal of it is the reply.
pub proof fn law_store_is_asked_to_write<P: Persister>(
    worker: &mut PersistenceWorker<P>,
    ctx: Option<SpanContext>,
    key: String,
    value: String,
    reply: Result<String, MemoryDBError>,
)
    requires
        call_ensures(
            PersistenceWorker::<P>::perform,
            (worker, ctx, OpType::Put(key, value)),
            reply,
        ),
    ensures
        exists|store: &mut P, done: Result<(), MemoryDBError>|
            #[trigger] call_ensures(P::set, (store, ctx, key, value), done) && *store
                == old(worker).store() && *final(store) == final(worker).store() && (done is Ok
                <==> reply is Ok) && (done matches Err(error) ==> reply == Err::<
                String,
                MemoryDBError,
            >(error)),
        reply matches Ok(text) ==> text@ == "Value set successfully"@,
{
}

/// Any store is asked to delete with the key and the trace of the operation; a
/// refusal of it is the reply.
pub proof fn law_store_is_asked_to_delete<P: Persister>(
    worker: &mut PersistenceWorker<P>,
    ctx: Option<SpanContext>,
    key: String,
    reply: Result<String, MemoryDBError>,
)
    requires
        call_ensures(PersistenceWorker::<P>::perform, (worker, ctx, OpType::Delete(key)), reply),
    ensures
        exists|store: &mut P, done: Result<(), MemoryDBError>|
            #[trigger] call_ensures(P::delete, (store, ctx, key), done) && *store
                == old(worker).store() && *final(store) == final(worker).store() && (done is Ok
                <==> reply is Ok) && (done matches Err(error) ==> reply == Err::<
                String,
                MemoryDBError,
            >(error)),
        reply matches Ok(text) ==> text@ == "Value deleted successfully"@,
{
}

/// An operation is carried out under its own span, whoever waits for the reply;
/// the reply goes to who waits, and the worker goes on unless told to stop.
pub proof fn law_operation_is_carried_out_and_answered<P: Persister>(
    worker: &mut PersistenceWorker<P>,
    op: Op,
    span: SpanContext,
    handled: Handled,
)
    requires
        call_ensures(PersistenceWorker::<P>::handle_operation, (worker, op, span), handled),
    ensures
        handled.reply_to == op.reply,
        op.op_type is Stop ==> !handled.running,
        !(op.op_type is Stop) ==> handled.running,
        op.op_type matches OpType::Get(key) ==> call_ensures(
            P::get,
            (&old(worker).store(), Some(span), key),
            handled.reply,
        ),
        op.op_type matches OpType::Put(key, value) ==> exists|
            store: &mut P,
            done: Result<(), MemoryDBError>,
        |
            #[trigger] call_ensures(P::set, (store, Some(span), key, value), done) && *store
                == old(worker).store() && *final(store) == final(worker).store() && (done is Ok
                <==> handled.reply is Ok) && (done matches Err(error) ==> handled.reply == Err::<
                String,
                MemoryDBError,
            >(error)),
        op.op_type matches OpType::Delete(key) ==> exists|
            store: &mut P,
            done: Result<(), MemoryDBError>,
        |
            #[trigger] call_ensures(P::delete, (store, Some(span), key), done) && *store
                == old(worker).store() && *final(store) == final(worker).store() && (done is Ok
                <==> handled.reply is Ok) && (done matches Err(error) ==> handled.reply == Err::<
                String,
                MemoryDBError,
            >(error)),
        old(worker).store().answers() ==> final(worker).store().answers(),
        old(worker).store().answers() ==> (op.op_type matches OpType::Put(key, value) ==> final(worker).store().contents() == old(worker).store().contents().insert(key@, value@)
            && handled.reply is Ok),
        old(worker).store().answers() ==> (op.op_type matches OpType::Delete(key) ==> final(worker).store().contents() == old(worker).store().contents().remove(key@) && handled.reply is Ok),
        op.op_type is Get || op.op_type is Stop ==> final(worker).store() == old(worker).store(),
        old(worker).store().answers() ==> (op.op_type matches OpType::Get(key) ==> (handled.reply is Ok
            <==> old(worker).store().contents().contains_key(key@)) && (
        handled.reply matches Ok(text) ==> text@ == old(worker).store().contents()[key@])),
{
}

/// A worker stores into what it was given.
pub proof fn law_worker_stores_into_its_backend<P: Persister>(
    db: P,
    worker: PersistenceWorker<P>,
    backend: &P,
)
    requires
        call_ensures(PersistenceWorker::<P>::new, (db,), worker),
        call_ensures(PersistenceWorker::<P>::backend, (&worker,), backend),
    ensures
        worker.store() == db,
        *backend == db,
{
}

/// A new storage in memory holds nothing, and every storage in memory answers.
pub proof fn law_memory_starts_empty_and_answers(new: MemoryDatabase, any: MemoryDatabase)
    requires
        call_ensures(MemoryDatabase::new, (), new),
    ensures
        forall|key: Seq<char>| !new.contents().contains_key(key),
        any.answers(),
{
}

/// A write that succeeded is answered so, and a refusal is passed on.
pub proof fn law_writes_are_answered(
    error: MemoryDBError,
    set: Result<String, MemoryDBError>,
    unset: Result<String, MemoryDBError>,
    deleted: Result<String, MemoryDBError>,
    undeleted: Result<String, MemoryDBError>,
)
    requires
        call_ensures(set_reply, (Ok(()),), set),
        call_ensures(set_reply, (Err(error),), unset),
        call_ensures(delete_reply, (Ok(()),), deleted),
        call_ensures(delete_reply, (Err(error),), undeleted),
    ensures
        set matches Ok(text) && text@ == "Value set successfully"@,
        unset == Err::<String, MemoryDBError>(error),
        deleted matches Ok(text) && text@ == "Value deleted successfully"@,
        undeleted == Err::<String, MemoryDBError>(error),
{
}

/// A refusal keeps its reason and says it.
pub proof fn law_refusal_says_its_reason(reason: &str, error: MemoryDBError, text: String)
    requires
        call_ensures(MemoryDBError::new, (reason,), error),
        call_ensures(MemoryDBError::text, (&error,), text),
    ensures
        error@ == reason@,
        text@ == "MemoryDB Error: "@ + reason@,
{
}

/// Whether an attribute has this name and this text.
pub open spec fn is_text(attribute: Attribute, name: Seq<char>, text: Seq<char>) -> bool {
    attribute.name@ == name && (attribute.value matches AttributeValue::Text(told) && told@ == text)
}

/// Whether an attribute has this name and the length of `text` in bytes.
pub open spec fn is_length(attribute: Attribute, name: Seq<char>, text: Seq<char>) -> bool {
    attribute.name@ == name && (attribute.value matches AttributeValue::Length(told) && told
        == vstd::utf8::encode_utf8(text).len() as usize)
}

proof fn lemma_attributes(attributes: Seq<Attribute>)
    ensures
        crate::persistence::span::attributes_view(attributes).len() == attributes.len(),
        forall|i: int|
            0 <= i < attributes.len() ==> crate::persistence::span::attributes_view(
                attributes,
            )[i] == (#[trigger] attributes[i])@,
{
}

/// An operation's span tells which operation it is, on which key, and how much
/// is stored.
pub proof fn law_span_tells_the_operation(
    op_type: OpType,
    reply: Result<String, MemoryDBError>,
    answered: bool,
    notes: Notes,
)
    requires
        call_ensures(operation_notes, (&op_type, &reply, answered), notes),
    ensures
        op_type matches OpType::Put(key, value) ==> notes.attributes@.len() == 3 && is_text(
            notes.attributes@[0],
            "key"@,
            key@,
        ) && is_length(notes.attributes@[1], "value_size"@, value@) && is_text(
            notes.attributes@[2],
            "operation"@,
            "SET"@,
        ),
        op_type matches OpType::Delete(key) ==> notes.attributes@.len() == 2 && is_text(
            notes.attributes@[0],
            "key"@,
            key@,
        ) && is_text(notes.attributes@[1], "operation"@, "DELETE"@),
        op_type matches OpType::Get(key) ==> notes.attributes@.len() == 2 && is_text(
            notes.attributes@[0],
            "key"@,
            key@,
        ) && is_text(notes.attributes@[1], "operation"@, "GET"@),
        op_type is Stop ==> notes.attributes@.len() == 1 && is_text(
            notes.attributes@[0],
            "operation"@,
            "STOP"@,
        ),
        op_type is Stop || !answered ==> notes.happening is None && notes.outcome is Unset,
        !(op_type is Stop) && answered ==> notes.happening is Some && (notes.outcome is Done
            <==> reply is Ok),
        !(op_type is Stop) && answered && reply is Err ==> (notes.outcome matches Outcome::Failed(
            told,
        ) && told@ == "MemoryDB Error: "@ + reply->Err_0@),
{
    lemma_attributes(notes.attributes@);
}

/// Of an operation that was answered the span tells how it came out, on which
/// key and with how much.
pub proof fn law_span_tells_the_outcome(
    op_type: OpType,
    reply: Result<String, MemoryDBError>,
    notes: Notes,
)
    requires
        call_ensures(operation_notes, (&op_type, &reply, true), notes),
    ensures
        op_type matches OpType::Put(key, value) ==> (reply is Ok ==> notes.happening->0.name@
            == "SET"@ + " operation successful"@ && notes.happening->0.attributes@.len() == 2
            && is_text(notes.happening->0.attributes@[0], "key"@, key@) && is_length(
            notes.happening->0.attributes@[1],
            "value_length"@,
            value@,
        )),
        op_type matches OpType::Delete(key) ==> (reply is Ok ==> notes.happening->0.name@
            == "DELETE"@ + " operation successful"@ && notes.happening->0.attributes@.len() == 1
            && is_text(notes.happening->0.attributes@[0], "key"@, key@)),
        op_type matches OpType::Get(key) ==> (reply matches Ok(text) ==> notes.happening->0.name@
            == "GET"@ + " operation successful"@ && notes.happening->0.attributes@.len() == 2
            && is_text(notes.happening->0.attributes@[0], "key"@, key@) && is_length(
            notes.happening->0.attributes@[1],
            "value_length"@,
            text@,
        )),
        reply is Err && !(op_type is Stop) ==> notes.happening->0.attributes@.len() == 2
            && notes.happening->0.attributes@[1].name@ == "error"@
            && notes.happening->0.attributes@[1].value is Refusal,
        op_type matches OpType::Put(key, _) ==> (reply is Err ==> notes.happening->0.name@
            == "SET"@ + " operation failed"@ && is_text(
            notes.happening->0.attributes@[0],
            "key"@,
            key@,
        )),
        op_type matches OpType::Delete(key) ==> (reply is Err ==> notes.happening->0.name@
            == "DELETE"@ + " operation failed"@ && is_text(
            notes.happening->0.attributes@[0],
            "key"@,
            key@,
        )),
        op_type matches OpType::Get(key) ==> (reply is Err ==> notes.happening->0.name@
            == "GET"@ + " operation failed"@ && is_text(
            notes.happening->0.attributes@[0],
            "key"@,
            key@,
        )),
{
    if !(op_type is Stop) {
        lemma_attributes(notes.happening->0.attributes@);
    }
}

/// The store's own span tells what it set, whether it deleted anything, and what
/// it found.
pub proof fn law_store_span_tells_what_was_held(
    op_type: OpType,
    held: Option<String>,
    notes: Notes,
)
    requires
        call_ensures(store_notes, (&op_type, &held), notes),
    ensures
        op_type matches OpType::Put(key, value) ==> notes.outcome is Done
            && notes.attributes@.len() == 0 && notes.happening is Some
            && notes.happening->0.name@ == "setting value in memory database"@
            && notes.happening->0.attributes@.len() == 2 && is_text(
            notes.happening->0.attributes@[0],
            "key"@,
            key@,
        ) && is_length(notes.happening->0.attributes@[1], "value.size"@, value@),
        op_type is Delete ==> notes.outcome is Done && notes.happening is None
            && notes.attributes@.len() == 1 && notes.attributes@[0].name@ == "key.deleted"@
            && notes.attributes@[0].value == AttributeValue::Flag(held is Some),
        op_type matches OpType::Get(key) ==> notes.attributes@.len() == 0
            && notes.happening is Some && is_text(
            notes.happening->0.attributes@[0],
            "key"@,
            key@,
        ) && (held matches Some(value) ==> notes.outcome is Done && notes.happening->0.name@
            == "retrieved value from memory database"@ && notes.happening->0.attributes@.len() == 2
            && is_length(notes.happening->0.attributes@[1], "value.size"@, value@)) && (
        held is None ==> (notes.outcome matches Outcome::Failed(told) && told@ == "key not found"@)
            && notes.happening->0.name@ == "key not found in memory database"@
            && notes.happening->0.attributes@.len() == 1),
        op_type is Stop ==> notes.outcome is Unset && notes.happening is None
            && notes.attributes@.len() == 0,
{
    lemma_attributes(notes.attributes@);
    if notes.happening is Some {
        lemma_attributes(notes.happening->0.attributes@);
    }
}

/// An operation is about the key that it names, and `Stop` about none.
pub proof fn law_operation_names_its_key(op_type: OpType, key: Option<String>)
    requires
        call_ensures(operation_key, (&op_type,), key),
    ensures
        op_type matches OpType::Put(named, _) ==> key == Some(named),
        op_type matches OpType::Delete(named) ==> key == Some(named),
        op_type matches OpType::Get(named) ==> key == Some(named),
        op_type is Stop ==> key is None,
{
}

/// The storage in memory gives back what was set last, refuses what it does not
/// hold, forgets what is deleted, and leaves other keys alone.
pub proof fn law_memory_gives_back(
    setter: &mut MemoryDatabase,
    deleter: &mut MemoryDatabase,
    ctx: Option<SpanContext>,
    key: String,
    value: String,
    set: Result<(), MemoryDBError>,
    deleted: Result<(), MemoryDBError>,
    wanted: String,
    found: Result<String, MemoryDBError>,
    left: Result<String, MemoryDBError>,
)
    requires
        call_ensures(<MemoryDatabase as Persister>::set, (setter, ctx, key, value), set),
        call_ensures(<MemoryDatabase as Persister>::get, (&*final(setter), ctx, wanted), found),
        call_ensures(<MemoryDatabase as Persister>::delete, (deleter, ctx, key), deleted),
        call_ensures(<MemoryDatabase as Persister>::get, (&*final(deleter), ctx, wanted), left),
    ensures
        set is Ok,
        deleted is Ok,
        wanted@ == key@ ==> (found matches Ok(text) && text@ == value@),
        wanted@ == key@ ==> (left matches Err(error) && error@ == "Key not found"@),
        wanted@ != key@ ==> (found is Ok <==> old(setter).contents().contains_key(wanted@)),
        wanted@ != key@ && found is Ok ==> found->Ok_0@ == old(setter).contents()[wanted@],
        wanted@ != key@ ==> (left is Ok <==> old(deleter).contents().contains_key(wanted@)),
        wanted@ != key@ && left is Ok ==> left->Ok_0@ == old(deleter).contents()[wanted@],
        found matches Err(error) ==> error@ == "Key not found"@,
{
}

/// The storage in memory that comes by default is a new one.
pub proof fn law_default_memory_is_empty(database: MemoryDatabase, key: Seq<char>)
    requires
        call_ensures(<MemoryDatabase as Default>::default, (), database),
    ensures
        !database.contents().contains_key(key),
{
}

} // verus!
