use vstd::prelude::*;

verus! {

/// What can go wrong while building batches or streaming them.
#[derive(Clone, Copy, Debug, PartialEq, Eq, Structural)]
pub enum Error {
    /// An empty name or an otherwise malformed argument.
    InvalidArgument,
    /// A row whose number of values differs from the number of declared columns.
    ColumnCountMismatch,
    /// A value whose type does not fit its column's declared type.
    TypeMismatch,
    /// A column name declared twice in one table.
    DuplicateColumn,
    /// A table without exactly one timestamp column.
    MissingOrDuplicateTimestampColumn,
    /// An operation on a pipeline that no longer accepts it.
    PipelineClosed,
    /// The stream to the store could not be opened.
    StreamEstablishFailed,
    /// The store or the transport reported a failure.
    TransportError,
    /// A handle that names no live object.
    InvalidHandle,
}

/// The status code reported across the foreign-call boundary for `e`; success is zero.
pub open spec fn status_code_of(e: Error) -> i32 {
    match e {
        Error::InvalidArgument => 1,
        Error::ColumnCountMismatch => 2,
        Error::TypeMismatch => 3,
        Error::DuplicateColumn => 4,
        Error::MissingOrDuplicateTimestampColumn => 5,
        Error::PipelineClosed => 6,
        Error::StreamEstablishFailed => 7,
        Error::TransportError => 8,
        Error::InvalidHandle => 9,
    }
}

impl Error {
    pub fn status_code(&self) -> (r: i32)
        ensures
            r == status_code_of(*self),
            r != 0,
    {
        match self {
            Error::InvalidArgument => 1,
            Error::ColumnCountMismatch => 2,
            Error::TypeMismatch => 3,
            Error::DuplicateColumn => 4,
            Error::MissingOrDuplicateTimestampColumn => 5,
            Error::PipelineClosed => 6,
            Error::StreamEstablishFailed => 7,
            Error::TransportError => 8,
            Error::InvalidHandle => 9,
        }
    }
}

} // verus!
