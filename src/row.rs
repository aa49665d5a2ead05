use vstd::prelude::*;

use crate::error::Error;
use crate::value::{fits, DataType, SemanticType, Value};

verus! {

/// A column's declared identity and typing.
#[derive(Debug)]
pub struct ColumnSpec {
    pub name: String,
    pub data_type: DataType,
    pub semantic_type: SemanticType,
}

/// One finished column: one value per row, in row order, and which of them are null.
#[derive(Debug)]
pub struct Column {
    pub name: String,
    pub data_type: DataType,
    pub semantic_type: SemanticType,
    pub values: Vec<Value>,
    pub null_mask: Vec<bool>,
}

/// A columnar unit of rows, ready to be handed to the transport.
#[derive(Debug)]
pub struct Batch {
    pub table_name: String,
    pub columns: Vec<Column>,
    pub row_count: u32,
    pub region_number: u32,
}

/// Every column holds exactly `row_count` values and as many null flags, and the
/// flags mark exactly the null values.
pub open spec fn column_wf(c: Column, rows: nat) -> bool {
    &&& c.values@.len() == rows
    &&& c.null_mask@.len() == rows
    &&& forall|i: int| 0 <= i < rows ==> c.null_mask@[i] == (#[trigger] c.values@[i]).is_null_spec()
}

impl Batch {
    pub open spec fn wf(&self) -> bool {
        forall|j: int| 0 <= j < self.columns@.len() ==> column_wf(#[trigger] self.columns@[j], self.row_count as nat)
    }
}

/// Whether a column named `name` is declared in `specs`.
pub open spec fn name_taken(specs: Seq<ColumnSpec>, name: Seq<char>) -> bool {
    exists|j: int| 0 <= j < specs.len() && (#[trigger] specs[j]).name@ == name
}

/// How many of `specs` have the timestamp role.
pub open spec fn timestamp_count(specs: Seq<ColumnSpec>) -> nat
    decreases specs.len(),
{
    if specs.len() == 0 {
        0
    } else {
        timestamp_count(specs.drop_last()) + if specs.last().semantic_type == SemanticType::Timestamp {
            1nat
        } else {
            0nat
        }
    }
}

/// Whether each value fits the declared type of the column at its position.
pub open spec fn row_fits(specs: Seq<ColumnSpec>, values: Seq<Value>) -> bool {
    forall|j: int| 0 <= j < values.len() ==> fits(#[trigger] values[j], specs[j].data_type)
}

/// What declaring a column named `name` after `specs` answers.
pub open spec fn add_column_outcome(specs: Seq<ColumnSpec>, name: Seq<char>) -> Result<(), Error> {
    if name.len() == 0 {
        Err(Error::InvalidArgument)
    } else if name_taken(specs, name) {
        Err(Error::DuplicateColumn)
    } else {
        Ok(())
    }
}

/// What adding the row `values` to a table with columns `specs` answers.
pub open spec fn add_row_outcome(specs: Seq<ColumnSpec>, values: Seq<Value>) -> Result<(), Error> {
    if values.len() != specs.len() {
        Err(Error::ColumnCountMismatch)
    } else if !row_fits(specs, values) {
        Err(Error::TypeMismatch)
    } else {
        Ok(())
    }
}

/// Whether `batch` holds exactly the rows accumulated in `b`, under its table and columns.
pub open spec fn built_from(b: RowBuilder, batch: Batch) -> bool {
    &&& batch.wf()
    &&& batch.table_name@ == b.table_view()
    &&& batch.row_count == b.rows()
    &&& batch.region_number == 0
    &&& batch.columns@.len() == b.specs().len()
    &&& forall|j: int|
        0 <= j < batch.columns@.len() ==> {
            &&& (#[trigger] batch.columns@[j]).name == b.specs()[j].name
            &&& batch.columns@[j].data_type == b.specs()[j].data_type
            &&& batch.columns@[j].semantic_type == b.specs()[j].semantic_type
            &&& batch.columns@[j].values@ == b.cells()[j]
        }
}

/// Whether `after` keeps the table and columns of `before` and holds no rows.
pub open spec fn emptied(before: RowBuilder, after: RowBuilder) -> bool {
    &&& after.specs() == before.specs()
    &&& after.table_view() == before.table_view()
    &&& after.rows() == 0
    &&& after.cells() == Seq::new(before.specs().len(), |j: int| Seq::<Value>::empty())
}

/// A batch built from a builder holds, in every column, one value and one null flag
/// for each row, and counts exactly the rows that were added to the builder.
pub proof fn lemma_built_batch_shape(b: RowBuilder, batch: Batch)
    requires
        built_from(b, batch),
    ensures
        batch.row_count == b.rows(),
        forall|j: int|
            0 <= j < batch.columns@.len() ==> (#[trigger] batch.columns@[j]).values@.len()
                == batch.row_count && batch.columns@[j].null_mask@.len() == batch.row_count,
{
    assert forall|j: int| 0 <= j < batch.columns@.len() implies (#[trigger] batch.columns@[j]).values@.len()
        == batch.row_count && batch.columns@[j].null_mask@.len() == batch.row_count by {
        assert(column_wf(batch.columns@[j], batch.row_count as nat));
    }
}

/// Accumulates rows for one table, column by column.
pub struct RowBuilder {
    table_name: String,
    specs: Vec<ColumnSpec>,
    buffers: Vec<Vec<Value>>,
    row_count: u32,
}

impl RowBuilder {
    pub closed spec fn table_view(&self) -> Seq<char> {
        self.table_name@
    }

    /// The declared columns, in declaration order.
    pub closed spec fn specs(&self) -> Seq<ColumnSpec> {
        self.specs@
    }

    /// The values accumulated so far: entry `j` holds column `j`'s values in row order.
    pub closed spec fn cells(&self) -> Seq<Seq<Value>> {
        self.buffers@.map_values(|b: Vec<Value>| b@)
    }

    pub closed spec fn rows(&self) -> nat {
        self.row_count as nat
    }

    pub closed spec fn wf(&self) -> bool {
        &&& self.table_name@.len() > 0
        &&& self.buffers@.len() == self.specs@.len()
        &&& forall|j: int| 0 <= j < self.buffers@.len() ==> (#[trigger] self.buffers@[j])@.len() == self.row_count
        &&& forall|j: int, i: int|
            0 <= j < self.buffers@.len() && 0 <= i < self.row_count ==> fits(
                #[trigger] self.buffers@[j]@[i],
                self.specs@[j].data_type,
            )
        &&& forall|a: int, b: int|
            0 <= a < b < self.specs@.len() ==> (#[trigger] self.specs@[a]).name@ != (#[trigger] self.specs@[b]).name@
    }

    /// A builder for `table_name` with no columns and no rows.
    pub fn new(table_name: String) -> (r: Result<RowBuilder, Error>)
        ensures
            table_name@.len() == 0 <==> r == Err::<RowBuilder, Error>(Error::InvalidArgument),
            table_name@.len() > 0 <==> r is Ok,
            r matches Ok(b) ==> {
                &&& b.wf()
                &&& b.table_view() == table_name@
                &&& b.specs().len() == 0
                &&& b.rows() == 0
            },
    {
        if table_name.as_str().is_empty() {
            return Err(Error::InvalidArgument);
        }
        Ok(RowBuilder { table_name, specs: Vec::new(), buffers: Vec::new(), row_count: 0 })
    }

    /// Declares one more column after those already declared. Rows added before it
    /// hold a null in it.
    pub fn add_column(&mut self, name: String, data_type: DataType, semantic_type: SemanticType) -> (r:
        Result<(), Error>)
        requires
            old(self).wf(),
        ensures
            final(self).wf(),
            r == add_column_outcome(old(self).specs(), name@),
            r is Err ==> *final(self) == *old(self),
            r is Ok ==> {
                &&& final(self).specs() == old(self).specs().push(
                    ColumnSpec { name, data_type, semantic_type },
                )
                &&& final(self).cells() == old(self).cells().push(
                    Seq::new(old(self).rows(), |i: int| Value::Null),
                )
                &&& final(self).rows() == old(self).rows()
                &&& final(self).table_view() == old(self).table_view()
            },
    {
        if name.as_str().is_empty() {
            return Err(Error::InvalidArgument);
        }
        let mut j: usize = 0;
        while j < self.specs.len()
            invariant
                j <= self.specs@.len(),
                forall|k: int| 0 <= k < j ==> (#[trigger] self.specs@[k]).name@ != name@,
                *self == *old(self),
                old(self).wf(),
                name@.len() > 0,
            decreases self.specs@.len() - j,
        {
            if self.specs[j].name == name {
                return Err(Error::DuplicateColumn);
            }
            j += 1;
        }
        let mut fill: Vec<Value> = Vec::new();
        let mut i: u32 = 0;
        while i < self.row_count
            invariant
                i <= self.row_count,
                fill@ == Seq::new(i as nat, |k: int| Value::Null),
            decreases self.row_count - i,
        {
            fill.push(Value::Null);
            i += 1;
            proof {
                assert(fill@ =~= Seq::new(i as nat, |k: int| Value::Null));
            }
        }
        let ghost old_cells = self.cells();
        self.specs.push(ColumnSpec { name, data_type, semantic_type });
        self.buffers.push(fill);
        proof {
            assert(self.cells() =~= old_cells.push(Seq::new(self.row_count as nat, |i: int| Value::Null)));
        }
        Ok(())
    }

    /// Appends one row: the value at position `j` goes to column `j`.
    pub fn add_row(&mut self, values: Vec<Value>) -> (r: Result<(), Error>)
        requires
            old(self).wf(),
            old(self).rows() < u32::MAX,
        ensures
            final(self).wf(),
            r == add_row_outcome(old(self).specs(), values@),
            r is Err ==> *final(self) == *old(self),
            r is Ok ==> {
                &&& final(self).cells() == Seq::new(
                    old(self).cells().len(),
                    |j: int| old(self).cells()[j].push(values@[j]),
                )
                &&& final(self).rows() == old(self).rows() + 1
                &&& final(self).specs() == old(self).specs()
                &&& final(self).table_view() == old(self).table_view()
            },
    {
        let m = self.specs.len();
        if values.len() != m {
            return Err(Error::ColumnCountMismatch);
        }
        let mut j: usize = 0;
        while j < m
            invariant
                m == self.specs@.len(),
                m == values@.len(),
                j <= m,
                forall|k: int| 0 <= k < j ==> fits(#[trigger] values@[k], self.specs@[k].data_type),
                *self == *old(self),
                old(self).wf(),
            decreases m - j,
        {
            if !values[j].fits(self.specs[j].data_type) {
                return Err(Error::TypeMismatch);
            }
            j += 1;
        }
        let ghost old_bufs = self.buffers@;
        let ghost old_cells = self.cells();
        let mut rest = values;
        let mut j: usize = m;
        while j > 0
            invariant
                m == self.specs@.len(),
                m == values@.len(),
                j <= m,
                self.buffers@.len() == m,
                old_bufs.len() == m,
                rest@ == values@.subrange(0, j as int),
                old(self).wf(),
                old(self).rows() < u32::MAX,
                old_bufs == old(self).buffers@,
                self.row_count == old(self).row_count,
                self.specs == old(self).specs,
                self.table_name == old(self).table_name,
                forall|k: int| 0 <= k < m ==> fits(#[trigger] values@[k], self.specs@[k].data_type),
                forall|k: int| 0 <= k < j ==> (#[trigger] self.buffers@[k]) == old_bufs[k],
                forall|k: int| j <= k < m ==> (#[trigger] self.buffers@[k])@ == old_bufs[k]@.push(values@[k]),
            decreases j,
        {
            j -= 1;
            let v = match rest.pop() {
                Some(v) => v,
                None => { return Err(Error::ColumnCountMismatch); },
            };
            let mut b = self.buffers.remove(j);
            b.push(v);
            self.buffers.insert(j, b);
            proof {
                assert(rest@ =~= values@.subrange(0, j as int));
                assert forall|k: int| 0 <= k < j implies (#[trigger] self.buffers@[k]) == old_bufs[k] by {}
            }
        }
        self.row_count = self.row_count + 1;
        proof {
            assert(self.cells() =~= Seq::new(old_cells.len(), |j: int| old_cells[j].push(values@[j])));
            assert forall|j: int, i: int|
                0 <= j < self.buffers@.len() && 0 <= i < self.row_count implies fits(
                #[trigger] self.buffers@[j]@[i],
                self.specs@[j].data_type,
            ) by {
                if i < self.row_count - 1 {
                    assert(self.buffers@[j]@[i] == old_bufs[j]@[i]);
                }
            }
        }
        Ok(())
    }

    /// Counts the columns with the timestamp role.
    fn count_timestamp_columns(&self) -> (r: usize)
        ensures
            r == timestamp_count(self.specs()),
    {
        let mut count: usize = 0;
        let mut j: usize = 0;
        while j < self.specs.len()
            invariant
                j <= self.specs@.len(),
                count == timestamp_count(self.specs@.subrange(0, j as int)),
                count <= j,
            decreases self.specs@.len() - j,
        {
            proof {
                assert(self.specs@.subrange(0, j + 1).drop_last() =~= self.specs@.subrange(0, j as int));
            }
            if self.specs[j].semantic_type == SemanticType::Timestamp {
                count += 1;
            }
            j += 1;
        }
        proof {
            assert(self.specs@.subrange(0, j as int) =~= self.specs@);
        }
        count
    }

    /// Null flags for `values`, one per value.
    fn null_mask_of(values: &Vec<Value>) -> (r: Vec<bool>)
        ensures
            r@.len() == values@.len(),
            forall|i: int| 0 <= i < values@.len() ==> r@[i] == (#[trigger] values@[i]).is_null_spec(),
    {
        let mut mask: Vec<bool> = Vec::new();
        let mut i: usize = 0;
        while i < values.len()
            invariant
                i <= values@.len(),
                mask@.len() == i,
                forall|k: int| 0 <= k < i ==> mask@[k] == (#[trigger] values@[k]).is_null_spec(),
            decreases values@.len() - i,
        {
            mask.push(values[i].is_null());
            i += 1;
        }
        mask
    }

    /// `m` empty value buffers.
    fn empty_buffers(m: usize) -> (r: Vec<Vec<Value>>)
        ensures
            r@.len() == m,
            forall|i: int| 0 <= i < m ==> (#[trigger] r@[i])@ == Seq::<Value>::empty(),
    {
        let mut fresh: Vec<Vec<Value>> = Vec::new();
        let mut k: usize = 0;
        while k < m
            invariant
                k <= m,
                fresh@.len() == k,
                forall|i: int| 0 <= i < k ==> (#[trigger] fresh@[i])@ == Seq::<Value>::empty(),
            decreases m - k,
        {
            fresh.push(Vec::new());
            k += 1;
        }
        fresh
    }

    /// Takes the accumulated rows out as a batch. The builder keeps its columns and is
    /// left with no rows. Fails, changing nothing, unless exactly one column has the
    /// timestamp role.
    pub fn build(&mut self) -> (r: Result<Batch, Error>)
        requires
            old(self).wf(),
        ensures
            final(self).wf(),
            timestamp_count(old(self).specs()) != 1 <==> r is Err,
            r is Err ==> r == Err::<Batch, Error>(Error::MissingOrDuplicateTimestampColumn)
                && *final(self) == *old(self),
            r matches Ok(batch) ==> built_from(*old(self), batch) && emptied(*old(self), *final(self)),
    {
        if self.count_timestamp_columns() != 1 {
            return Err(Error::MissingOrDuplicateTimestampColumn);
        }
        let m = self.specs.len();
        let rows = self.row_count;
        let ghost old_bufs = self.buffers@;
        let mut taken: Vec<Vec<Value>> = Vec::new();
        std::mem::swap(&mut self.buffers, &mut taken);
        let mut columns: Vec<Column> = Vec::new();
        let mut j: usize = 0;
        while j < m
            invariant
                m == self.specs@.len(),
                old_bufs.len() == m,
                j <= m,
                taken@ == old_bufs.subrange(j as int, m as int),
                columns@.len() == j,
                self.specs == old(self).specs,
                self.table_name == old(self).table_name,
                rows == old(self).row_count,
                old(self).wf(),
                old_bufs == old(self).buffers@,
                forall|k: int|
                    0 <= k < j ==> {
                        &&& column_wf(#[trigger] columns@[k], rows as nat)
                        &&& columns@[k].name == self.specs@[k].name
                        &&& columns@[k].data_type == self.specs@[k].data_type
                        &&& columns@[k].semantic_type == self.specs@[k].semantic_type
                        &&& columns@[k].values == old_bufs[k]
                    },
            decreases m - j,
        {
            let values = taken.remove(0);
            let null_mask = RowBuilder::null_mask_of(&values);
            let name = self.specs[j].name.clone();
            columns.push(
                Column {
                    name,
                    data_type: self.specs[j].data_type,
                    semantic_type: self.specs[j].semantic_type,
                    values,
                    null_mask,
                },
            );
            j += 1;
            proof {
                assert(taken@ =~= old_bufs.subrange(j as int, m as int));
            }
        }
        self.buffers = RowBuilder::empty_buffers(m);
        self.row_count = 0;
        proof {
            assert(self.cells() =~= Seq::new(m as nat, |j: int| Seq::<Value>::empty()));
        }
        Ok(Batch { table_name: self.table_name.clone(), columns, row_count: rows, region_number: 0 })
    }

    /// Drops the accumulated rows and keeps the declared columns.
    pub fn clear_rows(&mut self)
        requires
            old(self).wf(),
        ensures
            final(self).wf(),
            emptied(*old(self), *final(self)),
    {
        let m = self.specs.len();
        self.buffers = RowBuilder::empty_buffers(m);
        self.row_count = 0;
        proof {
            assert(self.cells() =~= Seq::new(m as nat, |j: int| Seq::<Value>::empty()));
        }
    }

    pub fn table_name(&self) -> (r: &String)
        ensures
            r@ == self.table_view(),
    {
        &self.table_name
    }

    pub fn column_count(&self) -> (r: usize)
        requires
            self.wf(),
        ensures
            r == self.specs().len(),
    {
        self.specs.len()
    }

    pub fn row_count(&self) -> (r: u32)
        ensures
            r == self.rows(),
    {
        self.row_count
    }
}

} // verus!
