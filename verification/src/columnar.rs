//! Runtime semantics of the derived container: a columnar store holding one
//! sequence per field of the original record, all kept at equal length by
//! every mutating operation. The derived methods in `codegen` are described
//! structurally; this module states and proves what those operations do to
//! the logical row sequence.

use vstd::prelude::*;

verus! {

/// A columnar store with a fixed number of columns (one per field of the
/// original record) and one cell value per column and row.
pub struct ColumnStore<V> {
    pub columns: Vec<Vec<V>>,
}

impl<V: Copy> ColumnStore<V> {
    /// The number of columns: the field count of the original record.
    pub open spec fn arity(&self) -> nat {
        self.columns@.len()
    }

    /// The row count, read from the first column as the generated `len`
    /// does.
    pub open spec fn spec_len(&self) -> nat {
        if self.arity() == 0 {
            0
        } else {
            self.columns@[0]@.len()
        }
    }

    /// The central invariant: every column holds exactly one cell per row.
    pub open spec fn wf(&self) -> bool {
        forall|j: int| 0 <= j < self.arity() ==> self.columns@[j]@.len() == self.spec_len()
    }

    /// The logical row at `i`: the cell at `i` of every column, in field
    /// order.
    pub open spec fn row_at(&self, i: int) -> Seq<V> {
        Seq::new(self.arity(), |j: int| self.columns@[j]@[i])
    }

    /// The logical row sequence the store represents.
    pub open spec fn rows(&self) -> Seq<Seq<V>> {
        Seq::new(self.spec_len(), |i: int| self.row_at(i))
    }

    /// Construct a store of `arity` empty columns.
    pub fn new(arity: usize) -> (r: ColumnStore<V>)
        ensures
            r.wf(),
            r.arity() == arity,
            r.rows() == Seq::<Seq<V>>::empty(),
    {
        let mut columns: Vec<Vec<V>> = Vec::new();
        let mut j: usize = 0;
        while j < arity
            invariant
                j <= arity,
                columns@.len() == j,
                forall|k: int| 0 <= k < j ==> columns@[k]@.len() == 0,
            decreases arity - j,
        {
            columns.push(Vec::new());
            j += 1;
        }
        let r = ColumnStore { columns };
        proof {
            assert(r.rows() =~= Seq::<Seq<V>>::empty());
        }
        r
    }

    /// Construct a store of `arity` empty columns, each reserving at least
    /// `capacity` storage; the reservation is only a hint.
    pub fn with_capacity(arity: usize, capacity: usize) -> (r: ColumnStore<V>)
        ensures
            r.wf(),
            r.arity() == arity,
            r.rows() == Seq::<Seq<V>>::empty(),
    {
        let mut columns: Vec<Vec<V>> = Vec::new();
        let mut j: usize = 0;
        while j < arity
            invariant
                j <= arity,
                columns@.len() == j,
                forall|k: int| 0 <= k < j ==> columns@[k]@.len() == 0,
            decreases arity - j,
        {
            columns.push(Vec::with_capacity(capacity));
            j += 1;
        }
        let r = ColumnStore { columns };
        proof {
            assert(r.rows() =~= Seq::<Seq<V>>::empty());
        }
        r
    }

    /// The row count. As in the generated code, it is read from the first
    /// field's column, so the store must have at least one column.
    pub fn len(&self) -> (n: usize)
        requires
            self.arity() > 0,
            self.wf(),
        ensures
            n == self.spec_len(),
            n == self.rows().len(),
    {
        self.columns[0].len()
    }

    /// The emptiness check: `len() == 0`.
    pub fn is_empty(&self) -> (b: bool)
        requires
            self.arity() > 0,
            self.wf(),
        ensures
            b <==> self.rows().len() == 0,
    {
        self.len() == 0
    }

    /// Append one row: appends that row's cell to every column, so every
    /// column grows by exactly one.
    pub fn push(&mut self, row: Vec<V>)
        requires
            old(self).wf(),
            row@.len() == old(self).arity(),
            old(self).spec_len() < usize::MAX,
        ensures
            final(self).wf(),
            final(self).arity() == old(self).arity(),
            old(self).arity() > 0 ==> final(self).rows() == old(self).rows().push(row@),
            old(self).arity() == 0 ==> final(self).rows() == old(self).rows(),
    {
        let n = self.columns.len();
        let mut j: usize = 0;
        while j < n
            invariant
                j <= n,
                n == self.columns@.len(),
                self.columns@.len() == old(self).columns@.len(),
                row@.len() == old(self).arity(),
                old(self).wf(),
                forall|k: int|
                    j <= k < n ==> self.columns@[k] == old(self).columns@[k],
                forall|k: int|
                    #![trigger self.columns@[k]]
                    0 <= k < j ==> self.columns@[k]@ == old(self).columns@[k]@.push(row@[k]),
            decreases n - j,
        {
            let cell = row[j];
            self.columns[j].push(cell);
            j += 1;
        }
        proof {
            if self.arity() > 0 {
                assert(self.columns@[0]@ == old(self).columns@[0]@.push(row@[0]));
                assert(self.spec_len() == old(self).spec_len() + 1);
                assert forall|i: int| 0 <= i < self.rows().len() implies self.rows()[i]
                    =~= old(self).rows().push(row@)[i] by {
                    if i < old(self).spec_len() {
                        assert(self.row_at(i) =~= old(self).row_at(i));
                    } else {
                        assert(self.row_at(i) =~= row@);
                    }
                }
                assert(self.rows() =~= old(self).rows().push(row@));
            } else {
                assert(self.rows() =~= old(self).rows());
            }
        }
    }

    /// Insert one row at `index`: every column shifts in lockstep.
    pub fn insert(&mut self, index: usize, row: Vec<V>)
        requires
            old(self).wf(),
            row@.len() == old(self).arity(),
            index <= old(self).spec_len(),
            old(self).spec_len() < usize::MAX,
        ensures
            final(self).wf(),
            final(self).arity() == old(self).arity(),
            old(self).arity() > 0 ==> final(self).rows() == old(self).rows().insert(
                index as int,
                row@,
            ),
            old(self).arity() == 0 ==> final(self).rows() == old(self).rows(),
    {
        let n = self.columns.len();
        let mut j: usize = 0;
        while j < n
            invariant
                j <= n,
                n == self.columns@.len(),
                self.columns@.len() == old(self).columns@.len(),
                row@.len() == old(self).arity(),
                index <= old(self).spec_len(),
                old(self).wf(),
                forall|k: int|
                    j <= k < n ==> self.columns@[k] == old(self).columns@[k],
                forall|k: int|
                    #![trigger self.columns@[k]]
                    0 <= k < j ==> self.columns@[k]@ == old(self).columns@[k]@.insert(
                        index as int,
                        row@[k],
                    ),
            decreases n - j,
        {
            let cell = row[j];
            self.columns[j].insert(index, cell);
            j += 1;
        }
        proof {
            if self.arity() > 0 {
                assert(self.columns@[0]@ == old(self).columns@[0]@.insert(index as int, row@[0]));
                assert(self.spec_len() == old(self).spec_len() + 1);
                assert forall|i: int| 0 <= i < self.rows().len() implies self.rows()[i]
                    =~= old(self).rows().insert(index as int, row@)[i] by {
                    if i < index {
                        assert(self.row_at(i) =~= old(self).row_at(i));
                    } else if i == index {
                        assert(self.row_at(i) =~= row@);
                    } else {
                        assert(self.row_at(i) =~= old(self).row_at(i - 1));
                    }
                }
                assert(self.rows() =~= old(self).rows().insert(index as int, row@));
            } else {
                assert(self.rows() =~= old(self).rows());
            }
        }
    }

    /// Read the row at `index`: the cell at `index` of every column,
    /// reassembled in field order.
    pub fn get(&self, index: usize) -> (row: Vec<V>)
        requires
            self.wf(),
            index < self.spec_len(),
        ensures
            row@ == self.rows()[index as int],
    {
        let n = self.columns.len();
        let mut row: Vec<V> = Vec::new();
        let mut j: usize = 0;
        while j < n
            invariant
                j <= n,
                n == self.columns@.len(),
                self.wf(),
                index < self.spec_len(),
                row@.len() == j,
                forall|k: int| 0 <= k < j ==> row@[k] == self.columns@[k]@[index as int],
            decreases n - j,
        {
            let cell = self.columns[j][index];
            row.push(cell);
            j += 1;
        }
        proof {
            assert(row@ =~= self.row_at(index as int));
        }
        row
    }

    /// Remove and return the row at `index`, shifting every column down in
    /// lockstep; the removed cells are reassembled in field order.
    pub fn remove(&mut self, index: usize) -> (row: Vec<V>)
        requires
            old(self).wf(),
            index < old(self).spec_len(),
        ensures
            final(self).wf(),
            final(self).arity() == old(self).arity(),
            row@ == old(self).rows()[index as int],
            final(self).rows() == old(self).rows().remove(index as int),
    {
        let n = self.columns.len();
        let mut row: Vec<V> = Vec::new();
        let mut j: usize = 0;
        while j < n
            invariant
                j <= n,
                n == self.columns@.len(),
                self.columns@.len() == old(self).columns@.len(),
                index < old(self).spec_len(),
                old(self).wf(),
                row@.len() == j,
                forall|k: int|
                    j <= k < n ==> self.columns@[k] == old(self).columns@[k],
                forall|k: int|
                    #![trigger self.columns@[k]]
                    0 <= k < j ==> self.columns@[k]@ == old(self).columns@[k]@.remove(index as int),
                forall|k: int| 0 <= k < j ==> row@[k] == old(self).columns@[k]@[index as int],
            decreases n - j,
        {
            let cell = self.columns[j].remove(index);
            row.push(cell);
            j += 1;
        }
        proof {
            assert(row@ =~= old(self).row_at(index as int));
            assert forall|i: int| 0 <= i < self.rows().len() implies self.rows()[i]
                =~= old(self).rows().remove(index as int)[i] by {
                if i < index {
                    assert(self.row_at(i) =~= old(self).row_at(i));
                } else {
                    assert(self.row_at(i) =~= old(self).row_at(i + 1));
                }
            }
            assert(self.rows() =~= old(self).rows().remove(index as int));
        }
        row
    }

    /// Remove and return the row at `index` by swapping the last row into
    /// its place: constant-time per column, not order-preserving.
    pub fn swap_remove(&mut self, index: usize) -> (row: Vec<V>)
        requires
            old(self).wf(),
            index < old(self).spec_len(),
        ensures
            final(self).wf(),
            final(self).arity() == old(self).arity(),
            row@ == old(self).rows()[index as int],
            final(self).rows() == old(self).rows().update(
                index as int,
                old(self).rows().last(),
            ).drop_last(),
    {
        let n = self.columns.len();
        let mut row: Vec<V> = Vec::new();
        let mut j: usize = 0;
        while j < n
            invariant
                j <= n,
                n == self.columns@.len(),
                self.columns@.len() == old(self).columns@.len(),
                index < old(self).spec_len(),
                old(self).wf(),
                row@.len() == j,
                forall|k: int|
                    j <= k < n ==> self.columns@[k] == old(self).columns@[k],
                forall|k: int|
                    #![trigger self.columns@[k]]
                    0 <= k < j ==> self.columns@[k]@ == old(self).columns@[k]@.update(
                        index as int,
                        old(self).columns@[k]@.last(),
                    ).drop_last(),
                forall|k: int| 0 <= k < j ==> row@[k] == old(self).columns@[k]@[index as int],
            decreases n - j,
        {
            let cell = self.columns[j].swap_remove(index);
            row.push(cell);
            j += 1;
        }
        proof {
            assert(row@ =~= old(self).row_at(index as int));
            assert forall|i: int| 0 <= i < self.rows().len() implies self.rows()[i]
                =~= old(self).rows().update(index as int, old(self).rows().last()).drop_last()[i]
                by {
                if i == index {
                    assert(self.row_at(i) =~= old(self).row_at(
                        old(self).spec_len() - 1,
                    ));
                    assert(old(self).rows().last() =~= old(self).row_at(
                        old(self).spec_len() - 1,
                    ));
                } else {
                    assert(self.row_at(i) =~= old(self).row_at(i));
                }
            }
            assert(self.rows() =~= old(self).rows().update(
                index as int,
                old(self).rows().last(),
            ).drop_last());
        }
        row
    }

    /// Remove and return the last row, or report that no value is present
    /// when the store is empty. As in the generated code, emptiness is read
    /// off the columns, so the store must have at least one column.
    pub fn pop(&mut self) -> (r: Option<Vec<V>>)
        requires
            old(self).wf(),
            old(self).arity() > 0,
        ensures
            final(self).wf(),
            final(self).arity() == old(self).arity(),
            old(self).rows().len() == 0 ==> r is None && final(self).rows() == old(self).rows(),
            old(self).rows().len() > 0 ==> (r matches Some(row) && row@ == old(self).rows().last()
                && final(self).rows() == old(self).rows().drop_last()),
    {
        if self.columns[0].len() == 0 {
            proof {
                assert(self.rows() =~= old(self).rows());
            }
            return None;
        }
        let n = self.columns.len();
        let mut row: Vec<V> = Vec::new();
        let mut j: usize = 0;
        while j < n
            invariant
                j <= n,
                n == self.columns@.len(),
                self.columns@.len() == old(self).columns@.len(),
                old(self).spec_len() > 0,
                old(self).wf(),
                row@.len() == j,
                forall|k: int|
                    j <= k < n ==> self.columns@[k] == old(self).columns@[k],
                forall|k: int|
                    #![trigger self.columns@[k]]
                    0 <= k < j ==> self.columns@[k]@ == old(self).columns@[k]@.drop_last(),
                forall|k: int|
                    0 <= k < j ==> row@[k] == old(self).columns@[k]@[old(self).spec_len() - 1],
            decreases n - j,
        {
            let cell = self.columns[j].pop().unwrap();
            row.push(cell);
            j += 1;
        }
        proof {
            assert(row@ =~= old(self).row_at(old(self).spec_len() - 1));
            assert(old(self).rows().last() =~= old(self).row_at(old(self).spec_len() - 1));
            assert forall|i: int| 0 <= i < self.rows().len() implies self.rows()[i]
                =~= old(self).rows().drop_last()[i] by {
                assert(self.row_at(i) =~= old(self).row_at(i));
            }
            assert(self.rows() =~= old(self).rows().drop_last());
        }
        Some(row)
    }

    /// Borrow one whole column read-only, as the generated per-field plural
    /// accessors do.
    pub fn column(&self, j: usize) -> (c: &Vec<V>)
        requires
            j < self.arity(),
        ensures
            c@ == self.columns@[j as int]@,
    {
        &self.columns[j]
    }
}

/// The row sequence reached by pushing the rows of `vs`, in order, onto a
/// store whose row sequence is `init`; one `push` contributes one
/// `Seq::push`.
pub open spec fn rows_after_pushes<V>(init: Seq<Seq<V>>, vs: Seq<Seq<V>>) -> Seq<Seq<V>>
    decreases vs.len(),
{
    if vs.len() == 0 {
        init
    } else {
        rows_after_pushes(init.push(vs.first()), vs.drop_first())
    }
}

pub proof fn lemma_rows_after_pushes<V>(init: Seq<Seq<V>>, vs: Seq<Seq<V>>)
    ensures
        rows_after_pushes(init, vs) == init + vs,
    decreases vs.len(),
{
    if vs.len() == 0 {
        assert(rows_after_pushes(init, vs) =~= init + vs);
    } else {
        lemma_rows_after_pushes(init.push(vs.first()), vs.drop_first());
        assert(init.push(vs.first()) + vs.drop_first() =~= init + vs);
    }
}

/// Round-trip identity: pushing the rows `vs[0], ..., vs[n-1]` in order
/// onto an empty store yields exactly the row sequence `vs`, so reading
/// position `i` — which `get` promises to return as `rows()[i]` — yields
/// `vs[i]` for every `i` in range.
pub proof fn lemma_push_round_trip<V>(vs: Seq<Seq<V>>)
    ensures
        rows_after_pushes(Seq::<Seq<V>>::empty(), vs) == vs,
        forall|i: int|
            0 <= i < vs.len() ==> rows_after_pushes(Seq::<Seq<V>>::empty(), vs)[i] == vs[i],
{
    lemma_rows_after_pushes(Seq::<Seq<V>>::empty(), vs);
    assert(Seq::<Seq<V>>::empty() + vs =~= vs);
}

/// Length invariant: a well-formed store — and every mutating operation
/// ensures well-formedness — has all of its columns at exactly the logical
/// row count, which is what `len` reports.
pub proof fn lemma_columns_equal_len<V: Copy>(s: &ColumnStore<V>)
    requires
        s.wf(),
    ensures
        forall|j: int| 0 <= j < s.arity() ==> s.columns@[j]@.len() == s.rows().len(),
{
}

/// Insert/remove symmetry: inserting a row at `i` and then removing at `i`
/// returns that same row and restores the original row sequence, hence the
/// original length.
pub proof fn lemma_insert_remove<V>(rows: Seq<Seq<V>>, i: int, row: Seq<V>)
    requires
        0 <= i <= rows.len(),
    ensures
        rows.insert(i, row)[i] == row,
        rows.insert(i, row).remove(i) == rows,
        rows.insert(i, row).remove(i).len() == rows.len(),
{
    assert(rows.insert(i, row).remove(i) =~= rows);
}

/// Swap-remove non-order-preservation: removing at `i` by swapping with
/// the last row leaves the former last row at position `i` (when `i` was
/// not the last index), leaves every other surviving position unchanged,
/// and shortens the sequence by one.
pub proof fn lemma_swap_remove_positions<V>(rows: Seq<Seq<V>>, i: int)
    requires
        0 <= i < rows.len(),
    ensures
        rows.update(i, rows.last()).drop_last().len() == rows.len() - 1,
        i < rows.len() - 1 ==> rows.update(i, rows.last()).drop_last()[i] == rows.last(),
        forall|j: int|
            0 <= j < rows.len() - 1 && j != i ==> rows.update(i, rows.last()).drop_last()[j]
                == rows[j],
{
}

} // verus!
