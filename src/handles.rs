use vstd::prelude::*;

use crate::client::Client;
use crate::error::Error;
use crate::row::{
    add_column_outcome, add_row_outcome, built_from, emptied, timestamp_count, Batch, ColumnSpec,
    RowBuilder,
};
use crate::value::{DataType, SemanticType, TimeUnit, Value};

verus! {

/// The column type that a wire code stands for.
pub open spec fn data_type_of_code(code: i32) -> Option<DataType> {
    if code == 0 {
        Some(DataType::Boolean)
    } else if code == 1 {
        Some(DataType::Int8)
    } else if code == 2 {
        Some(DataType::Int16)
    } else if code == 3 {
        Some(DataType::Int32)
    } else if code == 4 {
        Some(DataType::Int64)
    } else if code == 5 {
        Some(DataType::UInt8)
    } else if code == 6 {
        Some(DataType::UInt16)
    } else if code == 7 {
        Some(DataType::UInt32)
    } else if code == 8 {
        Some(DataType::UInt64)
    } else if code == 9 {
        Some(DataType::Float32)
    } else if code == 10 {
        Some(DataType::Float64)
    } else if code == 11 {
        Some(DataType::Binary)
    } else if code == 12 {
        Some(DataType::String)
    } else if code == 15 {
        Some(DataType::Timestamp(TimeUnit::Second))
    } else if code == 16 {
        Some(DataType::Timestamp(TimeUnit::Millisecond))
    } else if code == 17 {
        Some(DataType::Timestamp(TimeUnit::Microsecond))
    } else if code == 18 {
        Some(DataType::Timestamp(TimeUnit::Nanosecond))
    } else {
        None
    }
}

/// The semantic role that a wire code stands for.
pub open spec fn semantic_type_of_code(code: i32) -> Option<SemanticType> {
    if code == 0 {
        Some(SemanticType::Tag)
    } else if code == 1 {
        Some(SemanticType::Field)
    } else if code == 2 {
        Some(SemanticType::Timestamp)
    } else {
        None
    }
}

pub fn decode_data_type(code: i32) -> (r: Option<DataType>)
    ensures
        r == data_type_of_code(code),
{
    match code {
        0 => Some(DataType::Boolean),
        1 => Some(DataType::Int8),
        2 => Some(DataType::Int16),
        3 => Some(DataType::Int32),
        4 => Some(DataType::Int64),
        5 => Some(DataType::UInt8),
        6 => Some(DataType::UInt16),
        7 => Some(DataType::UInt32),
        8 => Some(DataType::UInt64),
        9 => Some(DataType::Float32),
        10 => Some(DataType::Float64),
        11 => Some(DataType::Binary),
        12 => Some(DataType::String),
        15 => Some(DataType::Timestamp(TimeUnit::Second)),
        16 => Some(DataType::Timestamp(TimeUnit::Millisecond)),
        17 => Some(DataType::Timestamp(TimeUnit::Microsecond)),
        18 => Some(DataType::Timestamp(TimeUnit::Nanosecond)),
        _ => None,
    }
}

pub fn decode_semantic_type(code: i32) -> (r: Option<SemanticType>)
    ensures
        r == semantic_type_of_code(code),
{
    match code {
        0 => Some(SemanticType::Tag),
        1 => Some(SemanticType::Field),
        2 => Some(SemanticType::Timestamp),
        _ => None,
    }
}

/// Builders and clients owned on behalf of foreign callers, who hold them by handle.
/// A handle is an index into a table; a freed entry stays empty, so a stale or
/// freed handle is always reported, never reused.
pub struct Registry {
    builders: Vec<Option<RowBuilder>>,
    clients: Vec<Option<Client>>,
}

impl Registry {
    pub closed spec fn builders(&self) -> Seq<Option<RowBuilder>> {
        self.builders@
    }

    pub closed spec fn clients(&self) -> Seq<Option<Client>> {
        self.clients@
    }

    pub open spec fn live_builder(&self, h: usize) -> bool {
        h < self.builders().len() && self.builders()[h as int] is Some
    }

    pub open spec fn live_client(&self, h: usize) -> bool {
        h < self.clients().len() && self.clients()[h as int] is Some
    }

    pub open spec fn wf(&self) -> bool {
        forall|i: int|
            0 <= i < self.builders().len() ==> (#[trigger] self.builders()[i] matches Some(b) ==> b.wf())
    }

    pub fn new() -> (r: Registry)
        ensures
            r.wf(),
            r.builders().len() == 0,
            r.clients().len() == 0,
    {
        Registry { builders: Vec::new(), clients: Vec::new() }
    }

    /// Takes the content of builder entry `h`, leaving the entry empty.
    fn take_builder(&mut self, h: usize) -> (r: Option<RowBuilder>)
        requires
            h < old(self).builders().len(),
        ensures
            r == old(self).builders()[h as int],
            final(self).builders() == old(self).builders().update(h as int, None),
            final(self).clients() == old(self).clients(),
    {
        let slot = self.builders.remove(h);
        self.builders.insert(h, None);
        proof {
            assert(self.builders@ =~= old(self).builders@.update(h as int, None));
        }
        slot
    }

    /// Stores `b` in builder entry `h`.
    fn put_builder(&mut self, h: usize, b: RowBuilder)
        requires
            h < old(self).builders().len(),
        ensures
            final(self).builders() == old(self).builders().update(h as int, Some(b)),
            final(self).clients() == old(self).clients(),
    {
        self.builders.remove(h);
        self.builders.insert(h, Some(b));
        proof {
            assert(self.builders@ =~= old(self).builders@.update(h as int, Some(b)));
        }
    }

    /// Makes a builder for `table_name` and returns its handle.
    pub fn new_row_builder(&mut self, table_name: String) -> (r: Result<usize, Error>)
        requires
            old(self).wf(),
        ensures
            final(self).wf(),
            final(self).clients() == old(self).clients(),
            table_name@.len() == 0 <==> r == Err::<usize, Error>(Error::InvalidArgument),
            table_name@.len() > 0 <==> r is Ok,
            r is Err ==> final(self).builders() == old(self).builders(),
            r matches Ok(h) ==> {
                &&& h == old(self).builders().len()
                &&& final(self).builders().len() == h + 1
                &&& final(self).builders().drop_last() == old(self).builders()
                &&& final(self).builders()[h as int] matches Some(b) && b.table_view() == table_name@
                    && b.specs().len() == 0 && b.rows() == 0
            },
    {
        match RowBuilder::new(table_name) {
            Ok(b) => {
                let h = self.builders.len();
                self.builders.push(Some(b));
                proof {
                    assert(self.builders@.drop_last() =~= old(self).builders@);
                }
                Ok(h)
            },
            Err(e) => Err(e),
        }
    }

    /// Declares a column on builder `handle`, its type and role given by wire codes.
    pub fn add_column(&mut self, handle: usize, name: String, data_type: i32, semantic_type: i32) -> (r:
        Result<(), Error>)
        requires
            old(self).wf(),
        ensures
            final(self).wf(),
            final(self).clients() == old(self).clients(),
            r is Err ==> final(self).builders() == old(self).builders(),
            !old(self).live_builder(handle) ==> r == Err::<(), Error>(Error::InvalidHandle),
            old(self).live_builder(handle) && (data_type_of_code(data_type) is None
                || semantic_type_of_code(semantic_type) is None) ==> r == Err::<(), Error>(
                Error::InvalidArgument,
            ),
            old(self).live_builder(handle) && data_type_of_code(data_type) is Some
                && semantic_type_of_code(semantic_type) is Some ==> {
                let b = old(self).builders()[handle as int]->Some_0;
                let b2 = final(self).builders()[handle as int]->Some_0;
                let dt = data_type_of_code(data_type)->Some_0;
                let st = semantic_type_of_code(semantic_type)->Some_0;
                &&& r == add_column_outcome(b.specs(), name@)
                &&& r is Ok ==> final(self).builders()[handle as int] is Some
                &&& r is Ok ==> b2.specs() == b.specs().push(
                    ColumnSpec { name, data_type: dt, semantic_type: st },
                )
                &&& r is Ok ==> b2.rows() == b.rows() && b2.table_view() == b.table_view()
                &&& r is Ok ==> final(self).builders().len() == old(self).builders().len()
                &&& r is Ok ==> forall|i: int|
                    0 <= i < old(self).builders().len() && i != handle ==> final(self).builders()[i]
                        == old(self).builders()[i]
            },
    {
        if handle >= self.builders.len() {
            return Err(Error::InvalidHandle);
        }
        let dt = match decode_data_type(data_type) {
            Some(dt) => dt,
            None => {
                return if self.builders[handle].is_some() {
                    Err(Error::InvalidArgument)
                } else {
                    Err(Error::InvalidHandle)
                };
            },
        };
        let st = match decode_semantic_type(semantic_type) {
            Some(st) => st,
            None => {
                return if self.builders[handle].is_some() {
                    Err(Error::InvalidArgument)
                } else {
                    Err(Error::InvalidHandle)
                };
            },
        };
        match self.take_builder(handle) {
            None => {
                proof {
                    assert(self.builders() =~= old(self).builders());
                }
                Err(Error::InvalidHandle)
            },
            Some(mut b) => {
                let r = b.add_column(name, dt, st);
                self.put_builder(handle, b);
                proof {
                    if r is Err {
                        assert(self.builders() =~= old(self).builders());
                    }
                }
                r
            },
        }
    }

    /// Appends a row to builder `handle`. A builder that already holds the most rows
    /// a batch can count takes no more.
    pub fn add_row(&mut self, handle: usize, values: Vec<Value>) -> (r: Result<(), Error>)
        requires
            old(self).wf(),
        ensures
            final(self).wf(),
            final(self).clients() == old(self).clients(),
            r is Err ==> final(self).builders() == old(self).builders(),
            !old(self).live_builder(handle) ==> r == Err::<(), Error>(Error::InvalidHandle),
            old(self).live_builder(handle) ==> {
                let b = old(self).builders()[handle as int]->Some_0;
                let b2 = final(self).builders()[handle as int]->Some_0;
                &&& b.rows() == u32::MAX ==> r == Err::<(), Error>(Error::InvalidArgument)
                &&& b.rows() < u32::MAX ==> r == add_row_outcome(b.specs(), values@)
                &&& r is Ok ==> final(self).builders()[handle as int] is Some
                &&& r is Ok ==> b2.cells() == Seq::new(
                    b.cells().len(),
                    |j: int| b.cells()[j].push(values@[j]),
                )
                &&& r is Ok ==> b2.rows() == b.rows() + 1 && b2.specs() == b.specs()
                    && b2.table_view() == b.table_view()
                &&& r is Ok ==> final(self).builders().len() == old(self).builders().len()
                &&& r is Ok ==> forall|i: int|
                    0 <= i < old(self).builders().len() && i != handle ==> final(self).builders()[i]
                        == old(self).builders()[i]
            },
    {
        if handle >= self.builders.len() {
            return Err(Error::InvalidHandle);
        }
        match self.take_builder(handle) {
            None => {
                proof {
                    assert(self.builders() =~= old(self).builders());
                }
                Err(Error::InvalidHandle)
            },
            Some(mut b) => {
                if b.row_count() == u32::MAX {
                    self.put_builder(handle, b);
                    proof {
                        assert(self.builders() =~= old(self).builders());
                    }
                    return Err(Error::InvalidArgument);
                }
                let r = b.add_row(values);
                self.put_builder(handle, b);
                proof {
                    if r is Err {
                        assert(self.builders() =~= old(self).builders());
                    }
                }
                r
            },
        }
    }

    /// Makes a client and returns its handle.
    pub fn new_client(&mut self, database_name: String, endpoint: String) -> (r: Result<usize, Error>)
        requires
            old(self).wf(),
        ensures
            final(self).wf(),
            final(self).builders() == old(self).builders(),
            (database_name@.len() == 0 || endpoint@.len() == 0) <==> r == Err::<usize, Error>(
                Error::InvalidArgument,
            ),
            (database_name@.len() > 0 && endpoint@.len() > 0) <==> r is Ok,
            r is Err ==> final(self).clients() == old(self).clients(),
            r matches Ok(h) ==> {
                &&& h == old(self).clients().len()
                &&& final(self).clients().len() == h + 1
                &&& final(self).clients().drop_last() == old(self).clients()
                &&& final(self).clients()[h as int] matches Some(c) && c.database_view()
                    == database_name@ && c.endpoint_view() == endpoint@
            },
    {
        match Client::new(database_name, endpoint) {
            Ok(c) => {
                let h = self.clients.len();
                self.clients.push(Some(c));
                proof {
                    assert(self.clients@.drop_last() =~= old(self).clients@);
                }
                Ok(h)
            },
            Err(e) => Err(e),
        }
    }

    /// The batch that client `client` sends for the rows of builder `builder`, which is
    /// left with no rows.
    pub fn write_row(&mut self, client: usize, builder: usize) -> (r: Result<Batch, Error>)
        requires
            old(self).wf(),
        ensures
            final(self).wf(),
            final(self).clients() == old(self).clients(),
            r is Err ==> final(self).builders() == old(self).builders(),
            !old(self).live_client(client) || !old(self).live_builder(builder) ==> r == Err::<
                Batch,
                Error,
            >(Error::InvalidHandle),
            old(self).live_client(client) && old(self).live_builder(builder) ==> {
                let b = old(self).builders()[builder as int]->Some_0;
                let b2 = final(self).builders()[builder as int]->Some_0;
                &&& timestamp_count(b.specs()) != 1 <==> r is Err
                &&& r is Err ==> r == Err::<Batch, Error>(Error::MissingOrDuplicateTimestampColumn)
                &&& r is Ok ==> built_from(b, r->Ok_0)
                &&& r is Ok ==> final(self).builders()[builder as int] is Some && emptied(b, b2)
                &&& final(self).builders().len() == old(self).builders().len()
                &&& forall|i: int|
                    0 <= i < old(self).builders().len() && i != builder ==> final(self).builders()[i]
                        == old(self).builders()[i]
            },
    {
        if client >= self.clients.len() || builder >= self.builders.len() {
            return Err(Error::InvalidHandle);
        }
        if self.clients[client].is_none() {
            return Err(Error::InvalidHandle);
        }
        match self.take_builder(builder) {
            None => {
                proof {
                    assert(self.builders() =~= old(self).builders());
                }
                Err(Error::InvalidHandle)
            },
            Some(mut b) => {
                let r = b.build();
                self.put_builder(builder, b);
                proof {
                    if r is Err {
                        assert(self.builders() =~= old(self).builders());
                    }
                }
                r
            },
        }
    }

    /// Releases builder `handle`; a second release of one handle is reported.
    pub fn free_row_builder(&mut self, handle: usize) -> (r: Result<(), Error>)
        requires
            old(self).wf(),
        ensures
            final(self).wf(),
            final(self).clients() == old(self).clients(),
            old(self).live_builder(handle) <==> r is Ok,
            r is Err ==> r == Err::<(), Error>(Error::InvalidHandle) && final(self).builders()
                == old(self).builders(),
            r is Ok ==> final(self).builders() == old(self).builders().update(handle as int, None),
    {
        if handle >= self.builders.len() {
            return Err(Error::InvalidHandle);
        }
        match self.take_builder(handle) {
            None => {
                proof {
                    assert(self.builders() =~= old(self).builders());
                }
                Err(Error::InvalidHandle)
            },
            Some(_) => Ok(()),
        }
    }

    /// Releases client `handle`; a second release of one handle is reported.
    pub fn free_client(&mut self, handle: usize) -> (r: Result<(), Error>)
        requires
            old(self).wf(),
        ensures
            final(self).wf(),
            final(self).builders() == old(self).builders(),
            old(self).live_client(handle) <==> r is Ok,
            r is Err ==> r == Err::<(), Error>(Error::InvalidHandle) && final(self).clients()
                == old(self).clients(),
            r is Ok ==> final(self).clients() == old(self).clients().update(handle as int, None),
    {
        if handle >= self.clients.len() {
            return Err(Error::InvalidHandle);
        }
        let slot = self.clients.remove(handle);
        self.clients.insert(handle, None);
        proof {
            assert(self.clients@ =~= old(self).clients@.update(handle as int, None));
        }
        match slot {
            Some(_) => Ok(()),
            None => {
                proof {
                    assert(self.clients@ =~= old(self).clients@);
                }
                Err(Error::InvalidHandle)
            },
        }
    }
}

} // verus!
