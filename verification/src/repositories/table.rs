//! A table of rows keyed by identifier, in the order the rows were added.

use vstd::prelude::*;

verus! {

/// A row that carries its own identifier.
pub trait Record: Sized {
    /// The identifier the row is stored under.
    spec fn key(&self) -> u128;

    fn id(&self) -> (r: u128)
        ensures
            r == self.key(),
    ;
}

/// The identifiers of `rows`, in row order.
pub open spec fn keys<R: Record>(rows: Seq<R>) -> Seq<u128> {
    rows.map_values(|r: R| r.key())
}

/// Where the row under `id` stands: the index of the first row with that
/// identifier, or `None` when no row has it.
pub open spec fn slot<R: Record>(rows: Seq<R>, id: u128) -> Option<int> {
    keys(rows).index_of_first(id)
}

/// Whether some row is stored under `id`.
pub open spec fn holds<R: Record>(rows: Seq<R>, id: u128) -> bool {
    slot(rows, id) is Some
}

/// No two rows share an identifier.
pub open spec fn distinct<R: Record>(rows: Seq<R>) -> bool {
    forall|i: int, j: int| 0 <= i < j < rows.len() ==> rows[i].key() != rows[j].key()
}

/// What `slot` returns, spelled out: the index it gives is in range, holds
/// the identifier, and no earlier row does; it gives none exactly when no
/// row holds the identifier.
pub proof fn lemma_slot<R: Record>(rows: Seq<R>, id: u128)
    ensures
        match slot(rows, id) {
            Some(i) => 0 <= i < rows.len() && rows[i].key() == id
                && forall|j: int| 0 <= j < i ==> rows[j].key() != id,
            None => forall|j: int| 0 <= j < rows.len() ==> rows[j].key() != id,
        },
{
    let ks = keys(rows);
    ks.index_of_first_ensures(id);
    match ks.index_of_first(id) {
        Some(i) => {
            assert forall|j: int| 0 <= j < i implies rows[j].key() != id by {
                assert(ks[j] == rows[j].key());
            }
        },
        None => {
            assert forall|j: int| 0 <= j < rows.len() implies rows[j].key() != id by {
                assert(ks.contains(ks[j]));
            }
        },
    }
}

/// The first row holding `id` is the one `slot` gives.
pub proof fn lemma_slot_is<R: Record>(rows: Seq<R>, id: u128, k: int)
    requires
        0 <= k < rows.len(),
        rows[k].key() == id,
        forall|j: int| 0 <= j < k ==> rows[j].key() != id,
    ensures
        slot(rows, id) == Some(k),
{
    lemma_slot(rows, id);
}

/// Replacing a row by one with the same identifier moves no slot.
pub proof fn lemma_slot_after_update<R: Record>(rows: Seq<R>, i: int, row: R, id: u128)
    requires
        0 <= i < rows.len(),
        row.key() == rows[i].key(),
    ensures
        slot(rows.update(i, row), id) == slot(rows, id),
        distinct(rows) ==> distinct(rows.update(i, row)),
{
    assert(keys(rows.update(i, row)) =~= keys(rows));
}

/// Adding a row at the end gives it the last slot, unless its identifier
/// was already held, and moves no other slot.
pub proof fn lemma_slot_after_push<R: Record>(rows: Seq<R>, row: R, id: u128)
    ensures
        slot(rows.push(row), id) == if holds(rows, id) {
            slot(rows, id)
        } else if row.key() == id {
            Some(rows.len() as int)
        } else {
            None
        },
        distinct(rows) && !holds(rows, row.key()) ==> distinct(rows.push(row)),
{
    let after = rows.push(row);
    lemma_slot(rows, id);
    lemma_slot(after, id);
    lemma_slot(rows, row.key());
    match slot(rows, id) {
        Some(i) => {
            assert(forall|j: int| 0 <= j < i ==> after[j] == rows[j]);
            lemma_slot_is(after, id, i);
        },
        None => {
            assert(forall|j: int| 0 <= j < rows.len() ==> after[j] == rows[j]);
            if row.key() == id {
                lemma_slot_is(after, id, rows.len() as int);
            }
        },
    }
}

/// Rows kept in insertion order. Rows enter only through `append`, which
/// turns away a second row under an identifier already held, so a table that
/// started empty never holds two rows under one identifier.
pub struct Table<R: Record> {
    rows: Vec<R>,
}

impl<R: Record> View for Table<R> {
    type V = Seq<R>;

    closed spec fn view(&self) -> Seq<R> {
        self.rows@
    }
}

impl<R: Record> Table<R> {
    /// An empty table.
    pub fn new() -> (t: Self)
        ensures
            t@ == Seq::<R>::empty(),
    {
        Table { rows: Vec::new() }
    }

    pub fn len(&self) -> (n: usize)
        ensures
            n == self@.len(),
    {
        self.rows.len()
    }

    /// The row at index `i`.
    pub fn row(&self, i: usize) -> (r: &R)
        requires
            i < self@.len(),
        ensures
            *r == self@[i as int],
    {
        &self.rows[i]
    }

    /// Where the row under `id` stands.
    pub fn index_of(&self, id: u128) -> (r: Option<usize>)
        ensures
            match r {
                Some(i) => slot(self@, id) == Some(i as int) && i < self@.len() && self@[i as int].key()
                    == id,
                None => slot(self@, id) is None,
            },
    {
        let mut i: usize = 0;
        while i < self.rows.len()
            invariant
                i <= self.rows@.len(),
                forall|j: int| 0 <= j < i ==> self.rows@[j].key() != id,
            decreases self.rows@.len() - i,
        {
            if self.rows[i].id() == id {
                proof {
                    lemma_slot_is(self.rows@, id, i as int);
                }
                return Some(i);
            }
            i += 1;
        }
        proof {
            lemma_slot(self.rows@, id);
        }
        None
    }

    /// Whether no two rows are stored under one identifier.
    pub fn has_distinct_keys(&self) -> (r: bool)
        ensures
            r == distinct(self@),
    {
        let n = self.rows.len();
        let mut j: usize = 0;
        while j < n
            invariant
                n == self.rows@.len(),
                j <= n,
                forall|a: int, b: int| 0 <= a < b < j ==> self.rows@[a].key() != self.rows@[b].key(),
            decreases n - j,
        {
            let first = self.index_of(self.rows[j].id());
            proof {
                lemma_slot(self.rows@, self.rows@[j as int].key());
            }
            match first {
                Some(k) => {
                    if k != j {
                        return false;
                    }
                },
                None => {
                    return false;
                },
            }
            j += 1;
        }
        true
    }

    /// Puts `row` in place of the row at index `i`, which must be stored
    /// under the same identifier.
    pub fn replace(&mut self, i: usize, row: R)
        requires
            i < old(self)@.len(),
            row.key() == old(self)@[i as int].key(),
        ensures
            final(self)@ == old(self)@.update(i as int, row),
            distinct(old(self)@) ==> distinct(final(self)@),
    {
        proof {
            lemma_slot_after_update(self.rows@, i as int, row, row.key());
        }
        self.rows.set(i, row);
    }

    /// Adds `row` at the end, unless a row is already stored under its
    /// identifier: then the table is left as it was and `false` comes back.
    pub fn append(&mut self, row: R) -> (added: bool)
        ensures
            added == !holds(old(self)@, row.key()),
            final(self)@ == if added {
                old(self)@.push(row)
            } else {
                old(self)@
            },
            distinct(old(self)@) ==> distinct(final(self)@),
    {
        let found = self.index_of(row.id());
        if found.is_some() {
            return false;
        }
        proof {
            lemma_slot_after_push(self.rows@, row, row.key());
        }
        self.rows.push(row);
        true
    }
}

} // verus!
