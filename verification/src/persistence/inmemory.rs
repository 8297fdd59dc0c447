//! Storage in memory.

use opentelemetry::trace::SpanContext;
use vstd::prelude::*;

use crate::persistence::error::MemoryDBError;
use crate::persistence::worker::Persister;
use crate::table::Table;

verus! {

/// A store that lives as long as the process. It always answers.
#[derive(Debug)]
pub struct MemoryDatabase {
    db: Table<String>,
}

impl MemoryDatabase {
    /// An empty store.
    pub fn new() -> (database: Self)
        ensures
            database.contents() == Map::<Seq<char>, Seq<char>>::empty(),
    {
        let database = MemoryDatabase { db: Table::new() };
        assert(database.contents() =~= Map::<Seq<char>, Seq<char>>::empty());
        database
    }
}

impl Default for MemoryDatabase {
    fn default() -> (database: Self)
        ensures
            database.contents() == Map::<Seq<char>, Seq<char>>::empty(),
    {
        MemoryDatabase::new()
    }
}

impl Persister for MemoryDatabase {
    closed spec fn contents(&self) -> Map<Seq<char>, Seq<char>> {
        self.db@.map_values(|value: String| value@)
    }

    open spec fn answers(&self) -> bool {
        true
    }

    fn set(&mut self, ctx: Option<SpanContext>, key: String, value: String) -> (done: Result<
        (),
        MemoryDBError,
    >) {
        self.db.insert(key, value);
        assert(self.contents() =~= old(self).contents().insert(key@, value@));
        Ok(())
    }

    fn delete(&mut self, ctx: Option<SpanContext>, key: String) -> (done: Result<
        (),
        MemoryDBError,
    >) {
        self.db.remove(&key);
        assert(self.contents() =~= old(self).contents().remove(key@));
        Ok(())
    }

    fn get(&self, ctx: Option<SpanContext>, key: String) -> (found: Result<String, MemoryDBError>) {
        match self.db.get(&key) {
            Some(value) => Ok(value.clone()),
            None => Err(MemoryDBError::new("Key not found")),
        }
    }
}

} // verus!
