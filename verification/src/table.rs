//! Maps from names to values.

use vstd::prelude::*;

verus! {

/// Whether no two rows carry the same name.
pub open spec fn distinct_names<V>(rows: Seq<(String, V)>) -> bool {
    forall|i: int, j: int|
        #![trigger rows[i], rows[j]]
        0 <= i < j < rows.len() ==> rows[i].0@ != rows[j].0@
}

/// Whether the row at `i` carries `name`.
pub open spec fn names_row<V>(rows: Seq<(String, V)>, name: Seq<char>, i: int) -> bool {
    0 <= i < rows.len() && rows[i].0@ == name
}

/// The map that rows with distinct names stand for.
pub open spec fn rows_map<V>(rows: Seq<(String, V)>) -> Map<Seq<char>, V> {
    Map::new(
        |name: Seq<char>| exists|i: int| names_row(rows, name, i),
        |name: Seq<char>| rows[choose|i: int| names_row(rows, name, i)].1,
    )
}

/// A finite map from names to values, kept as rows in the order in which the
/// names were first added. No name occurs twice.
#[derive(Debug)]
pub struct Table<V> {
    rows: Vec<(String, V)>,
}

impl<V> View for Table<V> {
    type V = Map<Seq<char>, V>;

    open spec fn view(&self) -> Map<Seq<char>, V> {
        rows_map(self.rows_view())
    }
}

impl<V> Table<V> {
    #[verifier::type_invariant]
    spec fn valid(self) -> bool {
        distinct_names(self.rows@)
    }

    /// The rows, in order.
    pub closed spec fn rows_view(&self) -> Seq<(String, V)> {
        self.rows@
    }

    /// An empty table.
    pub fn new() -> (table: Self)
        ensures
            table.rows_view() == Seq::<(String, V)>::empty(),
            table@ == Map::<Seq<char>, V>::empty(),
    {
        let table = Table { rows: Vec::new() };
        assert(table@ =~= Map::<Seq<char>, V>::empty());
        table
    }

    /// The number of names.
    pub fn len(&self) -> (n: usize)
        ensures
            n == self.rows_view().len(),
            distinct_names(self.rows_view()),
    {
        proof {
            use_type_invariant(self);
        }
        self.rows.len()
    }

    /// The row of `name`, if it has one.
    fn position(&self, name: &String) -> (at: Option<usize>)
        ensures
            at matches Some(i) ==> names_row(self.rows@, name@, i as int),
            at is None ==> forall|i: int| !names_row(self.rows@, name@, i),
    {
        for i in 0..self.rows.len()
            invariant
                forall|j: int| 0 <= j < i ==> !names_row(self.rows@, name@, j),
        {
            if self.rows[i].0.eq(name) {
                return Some(i);
            }
        }
        None
    }

    /// The value under `name`.
    pub fn get(&self, name: &String) -> (value: Option<&V>)
        ensures
            match value {
                Some(v) => self@.contains_key(name@) && self@[name@] == *v,
                None => !self@.contains_key(name@),
            },
    {
        match self.position(name) {
            Some(i) => {
                proof {
                    use_type_invariant(self);
                    lemma_row(self.rows@, i as int);
                }
                Some(&self.rows[i].1)
            },
            None => None,
        }
    }

    /// Whether `name` has a value.
    pub fn contains_key(&self, name: &String) -> (found: bool)
        ensures
            found == self@.contains_key(name@),
    {
        self.get(name).is_some()
    }

    /// The row at `i`.
    pub fn row(&self, i: usize) -> (row: (&String, &V))
        requires
            i < self.rows_view().len(),
        ensures
            *row.0 == self.rows_view()[i as int].0,
            *row.1 == self.rows_view()[i as int].1,
    {
        (&self.rows[i].0, &self.rows[i].1)
    }

    /// Puts `value` under `name` and hands back the value that it replaces.
    pub fn insert(&mut self, name: String, value: V) -> (old_value: Option<V>)
        ensures
            final(self)@ == old(self)@.insert(name@, value),
            old_value == (if old(self)@.contains_key(name@) {
                Some(old(self)@[name@])
            } else {
                None
            }),
            !old(self)@.contains_key(name@) ==> final(self).rows_view()
                == old(self).rows_view().push((name, value)),
    {
        proof {
            use_type_invariant(&*self);
        }
        let ghost before = self.rows@;
        let at = self.position(&name);
        let mut rows: Vec<(String, V)> = Vec::new();
        std::mem::swap(&mut rows, &mut self.rows);
        match at {
            Some(i) => {
                let row = rows.remove(i);
                proof {
                    lemma_row(before, i as int);
                }
                rows.insert(i, (row.0, value));
                proof {
                    assert(rows@ =~= before.update(i as int, (row.0, value)));
                    lemma_rows_update(before, i as int, value);
                }
                self.rows = rows;
                Some(row.1)
            },
            None => {
                rows.push((name, value));
                proof {
                    assert(rows@ =~= before.push((name, value)));
                    lemma_rows_push(before, name, value);
                }
                self.rows = rows;
                None
            },
        }
    }

    /// Takes `name` out and hands back its value.
    pub fn remove(&mut self, name: &String) -> (old_value: Option<V>)
        ensures
            final(self)@ == old(self)@.remove(name@),
            old_value == (if old(self)@.contains_key(name@) {
                Some(old(self)@[name@])
            } else {
                None
            }),
    {
        proof {
            use_type_invariant(&*self);
        }
        let ghost before = self.rows@;
        match self.position(name) {
            Some(i) => {
                let mut rows: Vec<(String, V)> = Vec::new();
                std::mem::swap(&mut rows, &mut self.rows);
                let row = rows.remove(i);
                proof {
                    lemma_row(before, i as int);
                    lemma_rows_remove(before, i as int);
                }
                self.rows = rows;
                Some(row.1)
            },
            None => {
                assert(self@ =~= self@.remove(name@));
                None
            },
        }
    }
}

/// A clone has the same names in the same order, each with a clone of its
/// value.
impl<V: Clone> Clone for Table<V> {
    fn clone(&self) -> (copy: Self)
        ensures
            copy.rows_view().len() == self.rows_view().len(),
            forall|i: int|
                #![trigger copy.rows_view()[i]]
                0 <= i < self.rows_view().len() ==> copy.rows_view()[i].0
                    == self.rows_view()[i].0 && cloned::<V>(
                    self.rows_view()[i].1,
                    copy.rows_view()[i].1,
                ),
    {
        proof {
            use_type_invariant(self);
        }
        let mut rows: Vec<(String, V)> = Vec::new();
        for i in 0..self.rows.len()
            invariant
                rows@.len() == i,
                forall|j: int|
                    #![trigger rows@[j]]
                    0 <= j < i ==> rows@[j].0 == self.rows@[j].0 && cloned::<V>(
                        self.rows@[j].1,
                        rows@[j].1,
                    ),
        {
            rows.push((self.rows[i].0.clone(), self.rows[i].1.clone()));
        }
        assert forall|a: int, b: int| #![trigger rows@[a], rows@[b]] 0 <= a < b < rows@.len() implies rows@[a].0@
            != rows@[b].0@ by {
            assert(self.rows@[a].0@ != self.rows@[b].0@);
        }
        Table { rows }
    }
}

/// Rows with distinct names are what their map holds.
pub proof fn lemma_row<V>(rows: Seq<(String, V)>, i: int)
    requires
        distinct_names(rows),
        0 <= i < rows.len(),
    ensures
        rows_map(rows).contains_key(rows[i].0@),
        rows_map(rows)[rows[i].0@] == rows[i].1,
{
    let name = rows[i].0@;
    assert(names_row(rows, name, i));
    let j = choose|j: int| names_row(rows, name, j);
    assert(names_row(rows, name, j));
    assert(j == i) by {
        if j < i {
            assert(rows[j].0@ != rows[i].0@);
        } else if i < j {
            assert(rows[i].0@ != rows[j].0@);
        }
    }
}

/// Every name of the map has a row.
pub proof fn lemma_named<V>(rows: Seq<(String, V)>, name: Seq<char>) -> (i: int)
    requires
        distinct_names(rows),
        rows_map(rows).contains_key(name),
    ensures
        0 <= i < rows.len(),
        rows[i].0@ == name,
        rows[i].1 == rows_map(rows)[name],
{
    let i = choose|i: int| names_row(rows, name, i);
    assert(names_row(rows, name, i));
    i
}

/// A row with a new name adds that name to the map.
pub proof fn lemma_rows_push<V>(rows: Seq<(String, V)>, name: String, value: V)
    requires
        distinct_names(rows),
        !rows_map(rows).contains_key(name@),
    ensures
        distinct_names(rows.push((name, value))),
        rows_map(rows.push((name, value))) == rows_map(rows).insert(name@, value),
{
    let after = rows.push((name, value));
    assert forall|a: int, b: int| #![trigger after[a], after[b]] 0 <= a < b < after.len() implies after[a].0@
        != after[b].0@ by {
        if b == rows.len() {
            lemma_row(rows, a);
        } else {
            assert(rows[a].0@ != rows[b].0@);
        }
    }
    assert(rows_map(after) =~= rows_map(rows).insert(name@, value)) by {
        assert forall|k: Seq<char>| rows_map(after).contains_key(k) == (#[trigger] rows_map(
            rows,
        ).contains_key(k) || k == name@) by {
            if rows_map(after).contains_key(k) {
                let i = lemma_named(after, k);
                if i < rows.len() {
                    assert(names_row(rows, k, i));
                }
            }
            if rows_map(rows).contains_key(k) {
                let i = lemma_named(rows, k);
                assert(names_row(after, k, i));
            }
            assert(names_row(after, name@, rows.len() as int));
        }
        assert forall|k: Seq<char>| #[trigger] rows_map(after).contains_key(k) implies rows_map(
            after,
        )[k] == rows_map(rows).insert(name@, value)[k] by {
            let i = lemma_named(after, k);
            if i < rows.len() {
                lemma_row(rows, i);
            }
        }
    }
}

/// Giving a row another value gives its name that value.
pub proof fn lemma_rows_update<V>(rows: Seq<(String, V)>, i: int, value: V)
    requires
        distinct_names(rows),
        0 <= i < rows.len(),
    ensures
        distinct_names(rows.update(i, (rows[i].0, value))),
        rows_map(rows.update(i, (rows[i].0, value))) == rows_map(rows).insert(rows[i].0@, value),
{
    let after = rows.update(i, (rows[i].0, value));
    assert forall|a: int, b: int| #![trigger after[a], after[b]] 0 <= a < b < after.len() implies after[a].0@
        != after[b].0@ by {
        assert(after[a].0@ == rows[a].0@ && after[b].0@ == rows[b].0@);
    }
    assert(rows_map(after) =~= rows_map(rows).insert(rows[i].0@, value)) by {
        assert forall|k: Seq<char>| #[trigger] rows_map(after).contains_key(k) == rows_map(
            rows,
        ).insert(rows[i].0@, value).contains_key(k) by {
            if rows_map(after).contains_key(k) {
                let j = lemma_named(after, k);
                lemma_row(rows, j);
            }
            if rows_map(rows).contains_key(k) {
                let j = lemma_named(rows, k);
                lemma_row(after, j);
            }
            lemma_row(after, i);
        }
        assert forall|k: Seq<char>| #[trigger] rows_map(after).contains_key(k) implies rows_map(
            after,
        )[k] == rows_map(rows).insert(rows[i].0@, value)[k] by {
            let j = lemma_named(after, k);
            lemma_row(rows, j);
            if j != i && k == rows[i].0@ {
                if j < i {
                    assert(rows[j].0@ != rows[i].0@);
                } else {
                    assert(rows[i].0@ != rows[j].0@);
                }
            }
        }
    }
}

/// Taking a row out takes its name out.
pub proof fn lemma_rows_remove<V>(rows: Seq<(String, V)>, i: int)
    requires
        distinct_names(rows),
        0 <= i < rows.len(),
    ensures
        distinct_names(rows.remove(i)),
        rows_map(rows.remove(i)) == rows_map(rows).remove(rows[i].0@),
{
    let after = rows.remove(i);
    assert forall|a: int, b: int| #![trigger after[a], after[b]] 0 <= a < b < after.len() implies after[a].0@
        != after[b].0@ by {
        let a0 = if a < i { a } else { a + 1 };
        let b0 = if b < i { b } else { b + 1 };
        assert(rows[a0].0@ != rows[b0].0@);
    }
    assert(rows_map(after) =~= rows_map(rows).remove(rows[i].0@)) by {
        assert forall|k: Seq<char>| #[trigger] rows_map(after).contains_key(k) == rows_map(
            rows,
        ).remove(rows[i].0@).contains_key(k) by {
            if rows_map(after).contains_key(k) {
                let j = lemma_named(after, k);
                let j0 = if j < i { j } else { j + 1 };
                lemma_row(rows, j0);
                if j0 < i {
                    assert(rows[j0].0@ != rows[i].0@);
                } else {
                    assert(rows[i].0@ != rows[j0].0@);
                }
            }
            if rows_map(rows).contains_key(k) && k != rows[i].0@ {
                let j = lemma_named(rows, k);
                let j0 = if j < i { j } else { j - 1 };
                lemma_row(after, j0);
            }
        }
        assert forall|k: Seq<char>| #[trigger] rows_map(after).contains_key(k) implies rows_map(
            after,
        )[k] == rows_map(rows).remove(rows[i].0@)[k] by {
            let j = lemma_named(after, k);
            let j0 = if j < i { j } else { j + 1 };
            lemma_row(rows, j0);
        }
    }
}

} // verus!
