use vstd::prelude::*;

verus! {

/// Every failure this library reports.
///
/// Decode-time failures (`MissingIdentifierError`, `FieldAccessError`,
/// `DeserializationError`) are always local to a single batch entry and never
/// abort a traversal. Producer failures (`SerializationError`,
/// `TransportError`) are surfaced from `Queue::send`.
#[derive(Debug, Clone, PartialEq, Eq)]
pub enum QueueError {
    /// The entry lacks a string-shaped `id` field.
    MissingIdentifierError,
    /// A required field was structurally unreachable on the entry.
    FieldAccessError,
    /// The entry's `body` does not match the target type; carries the
    /// decoder's diagnostic.
    DeserializationError(String),
    /// The outgoing value could not be encoded; no submission was made.
    SerializationError(String),
    /// The host transport rejected or failed the submission.
    TransportError(String),
}

} // verus!
