//! The worker that carries out storage operations one after the other.

use opentelemetry::trace::SpanContext;
use vstd::prelude::*;

use crate::persistence::error::MemoryDBError;

verus! {

/// What is asked of the storage.
#[derive(Debug)]
pub enum OpType {
    Stop,
    Put(String, String),
    Delete(String),
    Get(String),
}

/// An operation, with the channel that its reply goes to and the span that it
/// was asked for in.
#[derive(Debug)]
pub struct Op {
    pub op_type: OpType,
    pub reply: Option<tokio::sync::oneshot::Sender<Result<String, MemoryDBError>>>,
    pub span_context: Option<SpanContext>,
}

/// A store of values by key. A store may refuse; while it answers it refuses
/// nothing but to read a key that it does not hold.
pub trait Persister: Send + Sync {
    /// What is stored.
    spec fn contents(&self) -> Map<Seq<char>, Seq<char>>;

    /// Whether the store is in working order.
    spec fn answers(&self) -> bool;

    /// Stores `value` under `key`.
    fn set(&mut self, ctx: Option<SpanContext>, key: String, value: String) -> (done: Result<
        (),
        MemoryDBError,
    >)
        ensures
            done is Ok ==> final(self).contents() == old(self).contents().insert(key@, value@),
            old(self).answers() ==> done is Ok && final(self).answers(),
    ;

    /// Forgets what is under `key`, if anything.
    fn delete(&mut self, ctx: Option<SpanContext>, key: String) -> (done: Result<
        (),
        MemoryDBError,
    >)
        ensures
            done is Ok ==> final(self).contents() == old(self).contents().remove(key@),
            old(self).answers() ==> done is Ok && final(self).answers(),
    ;

    /// Reads what is under `key`.
    fn get(&self, ctx: Option<SpanContext>, key: String) -> (found: Result<String, MemoryDBError>)
        ensures
            found matches Ok(value) ==> self.contents().contains_key(key@) && value@
                == self.contents()[key@],
            self.answers() ==> match found {
                Ok(_) => self.contents().contains_key(key@),
                Err(error) => !self.contents().contains_key(key@) && error@ == "Key not found"@,
            },
    ;
}

/// What is answered once a value has been stored, or refused.
pub fn set_reply(done: Result<(), MemoryDBError>) -> (reply: Result<String, MemoryDBError>)
    ensures
        write_answered(done, "Value set successfully"@, reply),
{
    match done {
        Ok(_) => Ok("Value set successfully".to_string()),
        Err(error) => Err(error),
    }
}

/// What is answered once a value has been deleted, or the deletion refused.
pub fn delete_reply(done: Result<(), MemoryDBError>) -> (reply: Result<String, MemoryDBError>)
    ensures
        write_answered(done, "Value deleted successfully"@, reply),
{
    match done {
        Ok(_) => Ok("Value deleted successfully".to_string()),
        Err(error) => Err(error),
    }
}

/// What is stored after an operation that was not refused.
pub open spec fn contents_after(
    contents: Map<Seq<char>, Seq<char>>,
    op_type: OpType,
) -> Map<Seq<char>, Seq<char>> {
    match op_type {
        OpType::Put(key, value) => contents.insert(key@, value@),
        OpType::Delete(key) => contents.remove(key@),
        OpType::Get(_) | OpType::Stop => contents,
    }
}

/// What an operation that was not refused is answered.
pub open spec fn success_text(contents: Map<Seq<char>, Seq<char>>, op_type: OpType) -> Seq<char> {
    match op_type {
        OpType::Put(..) => "Value set successfully"@,
        OpType::Delete(_) => "Value deleted successfully"@,
        OpType::Get(key) => contents[key@],
        OpType::Stop => "Worker stopped"@,
    }
}

/// Whether a store with `contents` that is in working order carries out the
/// operation. It refuses to read a key that it does not hold, and only that.
pub open spec fn carried_out(contents: Map<Seq<char>, Seq<char>>, op_type: OpType) -> bool {
    match op_type {
        OpType::Get(key) => contents.contains_key(key@),
        _ => true,
    }
}

/// Whether `reply` is what a store with `contents` that is in working order
/// answers.
pub open spec fn replied(
    contents: Map<Seq<char>, Seq<char>>,
    op_type: OpType,
    reply: Result<String, MemoryDBError>,
) -> bool {
    match reply {
        Ok(text) => carried_out(contents, op_type) && text@ == success_text(contents, op_type),
        Err(error) => !carried_out(contents, op_type) && error@ == "Key not found"@,
    }
}

/// Whether `reply` is what a write that came out as `done` is answered: `text`,
/// or the store's refusal.
pub open spec fn write_answered(
    done: Result<(), MemoryDBError>,
    text: Seq<char>,
    reply: Result<String, MemoryDBError>,
) -> bool {
    match done {
        Ok(_) => reply matches Ok(told) && told@ == text,
        Err(error) => reply == Err::<String, MemoryDBError>(error),
    }
}

/// Whether `reply` is what comes of a call of `store` that writes what the
/// operation says, with its own key, value and trace context.
pub open spec fn written_by<P: Persister>(
    store: &mut P,
    ctx: Option<SpanContext>,
    op_type: OpType,
    reply: Result<String, MemoryDBError>,
) -> bool {
    match op_type {
        OpType::Put(key, value) => exists|done: Result<(), MemoryDBError>| #[trigger]
            call_ensures(P::set, (store, ctx, key, value), done) && write_answered(
                done,
                "Value set successfully"@,
                reply,
            ),
        OpType::Delete(key) => exists|done: Result<(), MemoryDBError>| #[trigger]
            call_ensures(P::delete, (store, ctx, key), done) && write_answered(
                done,
                "Value deleted successfully"@,
                reply,
            ),
        OpType::Get(_) | OpType::Stop => false,
    }
}

/// Whether `reply` is what a call of `store` reads for the operation, with its
/// own key and trace context, or the farewell to one that says to stop.
pub open spec fn read_from<P: Persister>(
    store: P,
    ctx: Option<SpanContext>,
    op_type: OpType,
    reply: Result<String, MemoryDBError>,
) -> bool {
    match op_type {
        OpType::Get(key) => call_ensures(P::get, (&store, ctx, key), reply),
        OpType::Stop => reply matches Ok(told) && told@ == "Worker stopped"@,
        OpType::Put(..) | OpType::Delete(_) => false,
    }
}

/// What came of an operation.
pub struct Handled {
    pub reply: Result<String, MemoryDBError>,
    /// The channel that the reply goes to, if any.
    pub reply_to: Option<tokio::sync::oneshot::Sender<Result<String, MemoryDBError>>>,
    /// Whether the worker takes further operations.
    pub running: bool,
}

/// Carries out storage operations on its backend.
#[derive(Debug)]
pub struct PersistenceWorker<P> {
    backend: P,
}

impl<P: Persister> PersistenceWorker<P> {
    /// What the worker stores into.
    pub closed spec fn store(&self) -> P {
        self.backend
    }

    pub fn new(db: P) -> (worker: Self)
        ensures
            worker.store() == db,
    {
        PersistenceWorker { backend: db }
    }

    /// The backend, to look into.
    pub fn backend(&self) -> (backend: &P)
        ensures
            *backend == self.store(),
    {
        &self.backend
    }

    /// Carries out one kind of operation and says what is to be answered.
    pub fn perform(&mut self, ctx: Option<SpanContext>, op_type: OpType) -> (reply: Result<
        String,
        MemoryDBError,
    >)
        ensures
            op_type is Put || op_type is Delete ==> exists|store: &mut P|
                #[trigger] written_by(store, ctx, op_type, reply) && *store == old(self).store()
                    && *final(store) == final(self).store(),
            op_type is Get || op_type is Stop ==> final(self).store() == old(self).store()
                && read_from(old(self).store(), ctx, op_type, reply),
            reply matches Ok(text) ==> {
                &&& carried_out(old(self).store().contents(), op_type)
                &&& text@ == success_text(old(self).store().contents(), op_type)
                &&& final(self).store().contents() == contents_after(
                    old(self).store().contents(),
                    op_type,
                )
            },
            old(self).store().answers() ==> final(self).store().answers() && replied(
                old(self).store().contents(),
                op_type,
                reply,
            ),
    {
        match op_type {
            OpType::Put(key, value) => {
                let done = self.backend.set(ctx, key, value);
                let reply = set_reply(done);
                proof {
                    let store = choose|store: &mut P| #[trigger]
                        call_ensures(P::set, (store, ctx, key, value), done) && *store
                            == old(self).backend && *final(store) == self.backend;
                    assert(written_by(store, ctx, op_type, reply));
                }
                reply
            },
            OpType::Delete(key) => {
                let done = self.backend.delete(ctx, key);
                let reply = delete_reply(done);
                proof {
                    let store = choose|store: &mut P| #[trigger]
                        call_ensures(P::delete, (store, ctx, key), done) && *store
                            == old(self).backend && *final(store) == self.backend;
                    assert(written_by(store, ctx, op_type, reply));
                }
                reply
            },
            OpType::Get(key) => self.backend.get(ctx, key),
            OpType::Stop => Ok("Worker stopped".to_string()),
        }
    }

    /// Carries out an operation, whose own span is `span`, whether or not anyone
    /// waits for the reply. `Stop` is the last one that the worker takes.
    pub fn handle_operation(&mut self, op: Op, span: SpanContext) -> (handled: Handled)
        ensures
            handled.running == !(op.op_type is Stop),
            handled.reply_to == op.reply,
            op.op_type is Put || op.op_type is Delete ==> exists|store: &mut P|
                #[trigger] written_by(store, Some(span), op.op_type, handled.reply) && *store
                    == old(self).store() && *final(store) == final(self).store(),
            op.op_type is Get || op.op_type is Stop ==> final(self).store() == old(self).store()
                && read_from(old(self).store(), Some(span), op.op_type, handled.reply),
            handled.reply matches Ok(text) ==> {
                &&& carried_out(old(self).store().contents(), op.op_type)
                &&& text@ == success_text(old(self).store().contents(), op.op_type)
                &&& final(self).store().contents() == contents_after(
                    old(self).store().contents(),
                    op.op_type,
                )
            },
            old(self).store().answers() ==> final(self).store().answers() && replied(
                old(self).store().contents(),
                op.op_type,
                handled.reply,
            ) && final(self).store().contents() == contents_after(
                old(self).store().contents(),
                op.op_type,
            ),
    {
        let running = match op.op_type {
            OpType::Stop => false,
            _ => true,
        };
        let reply = self.perform(Some(span), op.op_type);
        Handled { reply, reply_to: op.reply, running }
    }
}

/// What is stored after all of `ops`, none of which was refused.
pub open spec fn contents_after_all(
    contents: Map<Seq<char>, Seq<char>>,
    ops: Seq<OpType>,
) -> Map<Seq<char>, Seq<char>>
    decreases ops.len(),
{
    if ops.len() == 0 {
        contents
    } else {
        contents_after(contents_after_all(contents, ops.drop_last()), ops.last())
    }
}

/// Whether an operation may change what is under `key`.
pub open spec fn writes(op_type: OpType, key: Seq<char>) -> bool {
    match op_type {
        OpType::Put(written, _) => written@ == key,
        OpType::Delete(written) => written@ == key,
        OpType::Get(_) | OpType::Stop => false,
    }
}

/// An operation changes nothing but what is under its own key.
pub proof fn law_other_keys_stay(
    contents: Map<Seq<char>, Seq<char>>,
    op_type: OpType,
    key: Seq<char>,
)
    requires
        !writes(op_type, key),
    ensures
        contents_after(contents, op_type).contains_key(key) == contents.contains_key(key),
        contents.contains_key(key) ==> contents_after(contents, op_type)[key] == contents[key],
{
}

proof fn lemma_key_stays(
    contents: Map<Seq<char>, Seq<char>>,
    ops: Seq<OpType>,
    i: int,
    key: Seq<char>,
)
    requires
        0 <= i < ops.len(),
        forall|j: int| i < j < ops.len() ==> !writes(#[trigger] ops[j], key),
    ensures
        ({
            let then = contents_after_all(contents, ops.take(i + 1));
            let now = contents_after_all(contents, ops);
            &&& now.contains_key(key) == then.contains_key(key)
            &&& then.contains_key(key) ==> now[key] == then[key]
        }),
    decreases ops.len(),
{
    if i == ops.len() - 1 {
        assert(ops.take(i + 1) =~= ops);
    } else {
        let shorter = ops.drop_last();
        assert(shorter.take(i + 1) =~= ops.take(i + 1));
        assert forall|j: int| i < j < shorter.len() implies !writes(#[trigger] shorter[j], key) by {
            assert(shorter[j] == ops[j]);
        }
        lemma_key_stays(contents, shorter, i, key);
        assert(!writes(ops[ops.len() - 1], key));
        law_other_keys_stay(contents_after_all(contents, shorter), ops.last(), key);
    }
}

/// A read gives back what was last stored under its key, whatever other keys
/// have been written since.
pub proof fn law_read_gives_back_last_put(
    contents: Map<Seq<char>, Seq<char>>,
    ops: Seq<OpType>,
    i: int,
    read: String,
)
    requires
        0 <= i < ops.len(),
        ops[i] matches OpType::Put(key, _) && key@ == read@,
        forall|j: int| i < j < ops.len() ==> !writes(#[trigger] ops[j], read@),
    ensures
        carried_out(contents_after_all(contents, ops), OpType::Get(read)),
        success_text(contents_after_all(contents, ops), OpType::Get(read)) == ops[i]->Put_1@,
{
    lemma_key_stays(contents, ops, i, read@);
    assert(ops.take(i + 1).last() == ops[i]);
}

/// A read of a key that was deleted and not stored since is refused.
pub proof fn law_read_after_delete_is_refused(
    contents: Map<Seq<char>, Seq<char>>,
    ops: Seq<OpType>,
    i: int,
    read: String,
)
    requires
        0 <= i < ops.len(),
        ops[i] matches OpType::Delete(key) && key@ == read@,
        forall|j: int| i < j < ops.len() ==> !writes(#[trigger] ops[j], read@),
    ensures
        !carried_out(contents_after_all(contents, ops), OpType::Get(read)),
{
    lemma_key_stays(contents, ops, i, read@);
    assert(ops.take(i + 1).last() == ops[i]);
}

/// Of two values stored under one key the second stays.
pub proof fn law_last_put_wins(
    contents: Map<Seq<char>, Seq<char>>,
    key: String,
    one: String,
    two: String,
)
    ensures
        contents_after(contents_after(contents, OpType::Put(key, one)), OpType::Put(key, two))
            == contents_after(contents, OpType::Put(key, two)),
{
}

/// Deleting what was stored under a new key leaves the storage as it was.
pub proof fn law_delete_undoes_put(
    contents: Map<Seq<char>, Seq<char>>,
    key: String,
    value: String,
)
    requires
        !contents.contains_key(key@),
    ensures
        contents_after(contents_after(contents, OpType::Put(key, value)), OpType::Delete(key))
            == contents,
{
}

} // verus!
