use vstd::prelude::*;

use crate::codec::QueueMessage;
use crate::entry::Entry;
use crate::entry::FieldRead;
use crate::entry::IdRead;
use crate::entry::Timestamp;
use crate::error::QueueError;

verus! {

/// One decoded queue message: the entry's identifier, its delivery
/// timestamp, and its payload decoded as `T`. Immutable once constructed.
#[derive(Debug, Clone, PartialEq, Eq)]
pub struct Message<T> {
    pub body: T,
    pub timestamp: Timestamp,
    pub id: String,
}

/// What decoding one entry must come to, in the order the fields are read:
/// `timestamp` first, then `id`, then `body`.
pub enum ParseOutcome<T> {
    /// Every field read succeeded and the payload decodes as `T`.
    Parsed(Message<T>),
    /// Some required field was structurally unreachable.
    FieldUnreachable,
    /// The `id` field is absent or not string-shaped.
    MissingId,
    /// The payload is not a valid encoding of `T`.
    BadBody,
}

/// The decode outcome owed for one entry.
pub open spec fn parse_outcome<T: QueueMessage>(e: Entry) -> ParseOutcome<T> {
    match e.timestamp {
        FieldRead::Unreachable => ParseOutcome::FieldUnreachable,
        FieldRead::Value(ts) => match e.id {
            IdRead::Unreachable => ParseOutcome::FieldUnreachable,
            IdRead::NotAString => ParseOutcome::MissingId,
            IdRead::Id(id) => match e.body {
                FieldRead::Unreachable => ParseOutcome::FieldUnreachable,
                FieldRead::Value(p) => match T::decode_spec(p@) {
                    Option::None => ParseOutcome::BadBody,
                    Option::Some(b) => ParseOutcome::Parsed(
                        Message { body: b, timestamp: ts, id },
                    ),
                },
            },
        },
    }
}

/// Whether one yielded decode result is the one owed for the entry: the
/// parsed message on success, and the error named by the spec's taxonomy
/// otherwise (the deserialization diagnostic text is the decoder's own).
pub open spec fn item_matches_outcome<T: QueueMessage>(
    e: Entry,
    item: Result<Message<T>, QueueError>,
) -> bool {
    match parse_outcome::<T>(e) {
        ParseOutcome::Parsed(m) => item == Ok::<Message<T>, QueueError>(m),
        ParseOutcome::FieldUnreachable => item == Err::<Message<T>, QueueError>(
            QueueError::FieldAccessError,
        ),
        ParseOutcome::MissingId => item == Err::<Message<T>, QueueError>(
            QueueError::MissingIdentifierError,
        ),
        ParseOutcome::BadBody => (item matches Err(QueueError::DeserializationError(_))),
    }
}

/// Whether the entry decodes successfully as `T`.
pub open spec fn entry_parses<T: QueueMessage>(e: Entry) -> bool {
    parse_outcome::<T>(e) is Parsed
}

/// The message a well-formed entry decodes to.
pub open spec fn parsed_message<T: QueueMessage>(e: Entry) -> Message<T>
    recommends
        entry_parses::<T>(e),
{
    parse_outcome::<T>(e)->Parsed_0
}

/// On a well-formed entry, the only result the decode contract admits is the
/// entry's own message, `Ok`.
pub proof fn lemma_parsed_item_is_message<T: QueueMessage>(
    e: Entry,
    item: Result<Message<T>, QueueError>,
)
    requires
        entry_parses::<T>(e),
        item_matches_outcome::<T>(e, item),
    ensures
        item == Ok::<Message<T>, QueueError>(parsed_message::<T>(e)),
{
}

/// Per-slot fault isolation: what one slot is owed depends on that slot's
/// entry alone, so corrupting one entry (a missing identifier, an
/// undecodable body) leaves every other slot's owed outcome unchanged.
pub proof fn lemma_fault_isolation<T: QueueMessage>(a: Seq<Entry>, b: Seq<Entry>, j: int)
    requires
        a.len() == b.len(),
        forall|k: int| 0 <= k < a.len() && k != j ==> a[k] == b[k],
    ensures
        forall|k: int|
            0 <= k < a.len() && k != j ==> parse_outcome::<T>(#[trigger] a[k])
                == parse_outcome::<T>(b[k]),
{
}

/// Decode one entry into a `Message<T>`, or report exactly why it cannot be.
/// Pure: reads the entry and nothing else.
pub fn parse_message<T: QueueMessage>(entry: &Entry) -> (r: Result<Message<T>, QueueError>)
    ensures
        item_matches_outcome::<T>(*entry, r),
{
    match &entry.timestamp {
        FieldRead::Unreachable => Err(QueueError::FieldAccessError),
        FieldRead::Value(ts) => match &entry.id {
            IdRead::Unreachable => Err(QueueError::FieldAccessError),
            IdRead::NotAString => Err(QueueError::MissingIdentifierError),
            IdRead::Id(id) => match &entry.body {
                FieldRead::Unreachable => Err(QueueError::FieldAccessError),
                FieldRead::Value(p) => match T::decode(p) {
                    Ok(body) => Ok(Message { body, timestamp: *ts, id: id.clone() }),
                    Err(diag) => Err(QueueError::DeserializationError(diag)),
                },
            },
        },
    }
}

} // verus!
