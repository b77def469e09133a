use vstd::prelude::*;

use crate::codec::QueueMessage;
use crate::error::QueueError;

verus! {

/// The host transport a producer submits payloads to. Implementors are the
/// host binding layer's: this library only demands that an acknowledged
/// submission is exactly one more delivered payload, and a rejected one
/// delivers nothing. Whether any given submission is acknowledged is the
/// host's decision; no implementor owes success.
/// An implementation the verifier reads overrides `delivered` and proves
/// `submit` against it; one outside its reach may leave the default, of
/// which nothing is promised.
pub trait Transport {
    /// The payloads the transport has acknowledged, in submission order.
    open spec fn delivered(&self) -> Seq<Seq<u8>> {
        arbitrary()
    }

    /// Submit one payload and wait for the host's verdict; the rejection
    /// detail is the host's own.
    fn submit(&mut self, payload: &Vec<u8>) -> (r: Result<(), String>)
        ensures
            r is Ok ==> final(self).delivered() == old(self).delivered().push(payload@),
            r is Err ==> final(self).delivered() == old(self).delivered(),
    ;
}

/// A producer handle onto one named outbound queue: stateless beyond its
/// transport handle and safe to reuse across many sends.
pub struct Queue<H> {
    transport: H,
}

impl<H: Transport> Queue<H> {
    /// The payloads the underlying transport has acknowledged so far.
    pub closed spec fn delivered(&self) -> Seq<Seq<u8>> {
        self.transport.delivered()
    }

    /// Wrap a transport handle.
    pub fn new(transport: H) -> (q: Self)
        ensures
            q.delivered() == transport.delivered(),
    {
        Queue { transport }
    }

    /// Give the transport handle back, ending the producer.
    pub fn into_transport(self) -> (h: H)
        ensures
            h.delivered() == self.delivered(),
    {
        self.transport
    }

    /// Send one message: encode it, then submit the payload and wait for the
    /// host's verdict.
    ///
    /// An unencodable value fails with `SerializationError` before any host
    /// contact. An encodable one is submitted exactly once: on acknowledgment
    /// the transport has delivered exactly one more payload, and that payload
    /// decodes back to the sent value; on rejection it has delivered nothing
    /// new and the host's detail comes back as `TransportError`. No retry is
    /// attempted at any level.
    pub fn send<T: QueueMessage>(&mut self, message: &T) -> (r: Result<(), QueueError>)
        ensures
            !message.encodable() ==> (r matches Err(QueueError::SerializationError(_)))
                && final(self).delivered() == old(self).delivered(),
            message.encodable() ==> match r {
                Ok(()) => exists|p: Seq<u8>|
                    final(self).delivered() == old(self).delivered().push(p)
                        && #[trigger] T::decode_spec(p) == Some(*message),
                Err(e) => (e matches QueueError::TransportError(_))
                    && final(self).delivered() == old(self).delivered(),
            },
    {
        match message.encode() {
            Err(diag) => Err(QueueError::SerializationError(diag)),
            Ok(payload) => match self.transport.submit(&payload) {
                Ok(()) => {
                    proof {
                        assert(T::decode_spec(payload@) == Some(*message));
                    }
                    Ok(())
                },
                Err(detail) => Err(QueueError::TransportError(detail)),
            },
        }
    }
}

/// An in-memory stand-in for the host transport: acknowledges every
/// submission and records the payload, unless told to reject, in which case
/// it delivers nothing. Lets the producer path run without any host.
#[derive(Debug, Clone, PartialEq, Eq)]
pub struct MemTransport {
    pub log: Vec<Vec<u8>>,
    pub rejecting: bool,
}

impl MemTransport {
    /// An empty transport that acknowledges everything.
    pub fn new() -> (t: Self)
        ensures
            t.delivered() == Seq::<Seq<u8>>::empty(),
            !t.rejecting,
    {
        MemTransport { log: Vec::new(), rejecting: false }
    }

    /// How many payloads stand delivered.
    pub fn delivered_count(&self) -> (n: usize)
        ensures
            n == self.delivered().len(),
    {
        self.log.len()
    }

    /// The `i`-th delivered payload, in submission order.
    pub fn payload_at(&self, i: usize) -> (p: &Vec<u8>)
        requires
            i < self.delivered().len(),
        ensures
            p@ == self.delivered()[i as int],
    {
        &self.log[i]
    }
}

impl Transport for MemTransport {
    open spec fn delivered(&self) -> Seq<Seq<u8>> {
        self.log@.map_values(|v: Vec<u8>| v@)
    }

    fn submit(&mut self, payload: &Vec<u8>) -> (r: Result<(), String>) {
        if self.rejecting {
            Err(String::from_str("transport is rejecting submissions"))
        } else {
            let owned = payload.clone();
            self.log.push(owned);
            proof {
                assert(self.log@.map_values(|v: Vec<u8>| v@) =~= old(
                    self,
                ).log@.map_values(|v: Vec<u8>| v@).push(payload@));
            }
            Ok(())
        }
    }
}

} // verus!
