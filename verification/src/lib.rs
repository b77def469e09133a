//! A client-side view of a host-delivered queue: a batch of opaque entries
//! decoded lazily and fallibly into typed messages, and a producer that
//! encodes typed values and submits them to the host transport.

pub mod batch;
pub mod codec;
pub mod entry;
pub mod error;
pub mod iter;
pub mod message;
pub mod producer;

pub use batch::MessageBatch;
pub use codec::ByteBody;
pub use codec::QueueMessage;
pub use entry::Entry;
pub use entry::FieldRead;
pub use entry::IdRead;
pub use entry::Timestamp;
pub use error::QueueError;
pub use iter::MessageIter;
pub use message::Message;
pub use message::parse_message;
pub use producer::MemTransport;
pub use producer::Queue;
pub use producer::Transport;
