//! Filters on the read and write halves of a stream.
use vstd::prelude::*;

verus! {

/// Filter applied to data read from a stream.
pub trait ReadFilter {}

/// Filter applied to data written to a stream.
pub trait WriteFilter {}

/// Filter applied to both halves of a stream.
pub trait Filter: ReadFilter + WriteFilter {}

impl<T: ReadFilter + WriteFilter> Filter for T {}

/// Read half of a filtered stream.
pub struct FilteredReader<R, F: ReadFilter> {
    pub reader: R,
    pub filter: F,
}

/// Write half of a filtered stream.
pub struct FilteredWriter<W, F: WriteFilter> {
    pub writer: W,
    pub filter: F,
}

/// A stream with a filter.
pub struct FilteredStream<S, F: Filter> {
    pub stream: S,
    pub filter: F,
}

} // verus!
