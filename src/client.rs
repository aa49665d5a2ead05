use vstd::prelude::*;

use crate::error::Error;
use crate::row::{built_from, emptied, timestamp_count, Batch, RowBuilder};

verus! {

/// Where single batches go: a database on an endpoint.
pub struct Client {
    database_name: String,
    endpoint: String,
}

impl Client {
    pub closed spec fn database_view(&self) -> Seq<char> {
        self.database_name@
    }

    pub closed spec fn endpoint_view(&self) -> Seq<char> {
        self.endpoint@
    }

    /// A client for `database_name` at `endpoint`; both must be non-empty.
    pub fn new(database_name: String, endpoint: String) -> (r: Result<Client, Error>)
        ensures
            (database_name@.len() == 0 || endpoint@.len() == 0) <==> r == Err::<Client, Error>(
                Error::InvalidArgument,
            ),
            (database_name@.len() > 0 && endpoint@.len() > 0) <==> r is Ok,
            r matches Ok(c) ==> c.database_view() == database_name@ && c.endpoint_view()
                == endpoint@,
    {
        if database_name.as_str().is_empty() || endpoint.as_str().is_empty() {
            return Err(Error::InvalidArgument);
        }
        Ok(Client { database_name, endpoint })
    }

    pub fn database_name(&self) -> (r: &String)
        ensures
            r@ == self.database_view(),
    {
        &self.database_name
    }

    pub fn endpoint(&self) -> (r: &String)
        ensures
            r@ == self.endpoint_view(),
    {
        &self.endpoint
    }

    /// The one batch that a single write of `builder`'s rows sends, outside any
    /// pipeline; the builder is left with no rows.
    pub fn write_row(&self, builder: &mut RowBuilder) -> (r: Result<Batch, Error>)
        requires
            old(builder).wf(),
        ensures
            final(builder).wf(),
            timestamp_count(old(builder).specs()) != 1 <==> r is Err,
            r is Err ==> r == Err::<Batch, Error>(Error::MissingOrDuplicateTimestampColumn)
                && *final(builder) == *old(builder),
            r matches Ok(batch) ==> built_from(*old(builder), batch) && emptied(
                *old(builder),
                *final(builder),
            ),
    {
        builder.build()
    }
}

} // verus!
