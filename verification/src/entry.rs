use vstd::prelude::*;

verus! {

/// An instant in time as the host reports it: milliseconds since the Unix
/// epoch. No calendar sanity is imposed; whatever the host supplies is kept
/// as-is.
#[derive(Debug, Clone, Copy, PartialEq, Eq, Structural)]
pub struct Timestamp {
    pub epoch_millis: i64,
}

/// The outcome of reading one named field from a host entry.
///
/// `Unreachable` records that the host refused the field read itself (the
/// entry was not field-addressable); it is distinct from the field holding an
/// unusable value, which the per-field types below express.
#[derive(Debug, Clone, PartialEq, Eq)]
pub enum FieldRead<V> {
    Unreachable,
    Value(V),
}

/// The outcome of reading an entry's `id` field.
///
/// A host object with no `id` property reports the read as succeeding with a
/// non-string value, so "absent" and "present but not a string" collapse into
/// `NotAString`; only a refused read is `Unreachable`.
#[derive(Debug, Clone, PartialEq, Eq)]
pub enum IdRead {
    Unreachable,
    NotAString,
    Id(String),
}

/// One host-delivered queue entry, reduced to the three named fields the
/// library ever reads: `id`, `timestamp`, and the serialized `body` payload.
/// The payload is kept opaque as raw bytes; decoding it is the codec's job.
#[derive(Debug, Clone, PartialEq, Eq)]
pub struct Entry {
    pub id: IdRead,
    pub timestamp: FieldRead<Timestamp>,
    pub body: FieldRead<Vec<u8>>,
}

} // verus!
