use vstd::prelude::*;

verus! {

/// A type that can cross the queue as a message body.
///
/// `decode_spec` is the type's one source of truth: it says which payloads
/// are a valid encoding of which value. `decode` must decide it exactly, and
/// `encode` must produce a payload that `decode_spec` maps back to the value
/// it was given, so that a sent value always reconstructs to itself.
/// Implementations the verifier reads override both spec functions and prove
/// the contracts against them; an implementation outside the verifier's
/// reach (the host binding layer's serde-backed bodies) may leave them at
/// their unspecified defaults, and nothing is then promised of it.
pub trait QueueMessage: Sized {
    /// Which value, if any, the given payload encodes.
    open spec fn decode_spec(p: Seq<u8>) -> Option<Self> {
        arbitrary()
    }

    /// Whether this value has an encoding at all.
    open spec fn encodable(&self) -> bool {
        arbitrary()
    }

    /// Decode a payload, with a diagnostic on failure.
    fn decode(p: &Vec<u8>) -> (r: Result<Self, String>)
        ensures
            match r {
                Ok(v) => Self::decode_spec(p@) == Some(v),
                Err(_) => Self::decode_spec(p@) is None,
            },
    ;

    /// Encode this value, with a diagnostic on failure.
    fn encode(&self) -> (r: Result<Vec<u8>, String>)
        ensures
            r is Ok <==> self.encodable(),
            (r matches Ok(p) ==> Self::decode_spec(p@) == Some(*self)),
    ;
}

/// The smallest useful message body: a single byte, encoded as the
/// one-element payload holding it. Serves as the library's own reference
/// implementation of `QueueMessage`.
#[derive(Debug, Clone, Copy, PartialEq, Eq, Structural)]
pub struct ByteBody {
    pub value: u8,
}

impl QueueMessage for ByteBody {
    open spec fn decode_spec(p: Seq<u8>) -> Option<ByteBody> {
        if p.len() == 1 {
            Some(ByteBody { value: p[0] })
        } else {
            None
        }
    }

    open spec fn encodable(&self) -> bool {
        true
    }

    fn decode(p: &Vec<u8>) -> (r: Result<ByteBody, String>) {
        if p.len() == 1 {
            Ok(ByteBody { value: p[0] })
        } else {
            Err(String::from_str("payload is not a single byte"))
        }
    }

    fn encode(&self) -> (r: Result<Vec<u8>, String>) {
        let mut p: Vec<u8> = Vec::new();
        p.push(self.value);
        Ok(p)
    }
}

} // verus!
