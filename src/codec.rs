//! The envelope codec: a service id and an opaque payload, framed as BCS
//! frames the pair `(u64, Vec<u8>)`.

use crate::error::Error;
use vstd::bytes::{lemma_auto_spec_u64_to_from_le_bytes, spec_u64_from_le_bytes, spec_u64_to_le_bytes};
use vstd::prelude::*;

verus! {

/// The longest payload that the codec frames: BCS's largest sequence.
pub const MAX_PAYLOAD_LEN: usize = 2147483647;

/// A typed message: the service it is addressed to and its payload.
pub struct Envelope {
    pub service_id: u64,
    pub payload: Vec<u8>,
}

/// The unsigned LEB128 form of `n`: seven bits a byte, lowest first, the high
/// bit set on every byte but the last.
pub open spec fn uleb128(n: nat) -> Seq<u8>
    decreases n,
{
    if n < 128 {
        seq![n as u8]
    } else {
        seq![(n % 128 + 128) as u8] + uleb128(n / 128)
    }
}

/// The bytes of an envelope: the id as eight little-endian bytes, then the
/// payload's length in LEB128, then the payload.
pub open spec fn envelope_bytes(service_id: u64, payload: Seq<u8>) -> Seq<u8> {
    spec_u64_to_le_bytes(service_id) + uleb128(payload.len()) + payload
}

/// Whether `b` is exactly the bytes of some envelope.
pub open spec fn is_envelope(b: Seq<u8>) -> bool {
    exists|id: u64, p: Seq<u8>| p.len() <= MAX_PAYLOAD_LEN && b == envelope_bytes(id, p)
}

/// The envelope that `b` holds, if any.
pub open spec fn decoded(b: Seq<u8>) -> Option<(u64, Seq<u8>)> {
    if is_envelope(b) {
        Some(choose|v: (u64, Seq<u8>)| v.1.len() <= MAX_PAYLOAD_LEN && b == envelope_bytes(v.0, v.1))
    } else {
        None
    }
}

/// Relies on `bcs::to_bytes` for `(u64, Vec<u8>)`: the integer as eight
/// little-endian bytes, then the vector as its ULEB128 length and its bytes;
/// it fails exactly when the vector is longer than `bcs::MAX_SEQUENCE_LENGTH`.
#[verifier::external_body]
fn bcs_to_bytes(value: &(u64, Vec<u8>)) -> (r: Option<Vec<u8>>)
    ensures
        r is Some <==> value.1@.len() <= MAX_PAYLOAD_LEN,
        r matches Some(b) ==> b@ == envelope_bytes(value.0, value.1@),
{
    bcs::to_bytes(value).ok()
}

/// Relies on `bcs::from_bytes` for `(u64, Vec<u8>)`: it accepts exactly the
/// canonical encodings of such a pair with nothing after them, and gives back
/// the pair encoded.
#[verifier::external_body]
fn bcs_from_bytes(bytes: &[u8]) -> (r: Option<(u64, Vec<u8>)>)
    ensures
        r matches Some(v) ==> v.1@.len() <= MAX_PAYLOAD_LEN && bytes@ == envelope_bytes(v.0, v.1@),
        r is None ==> !is_envelope(bytes@),
{
    bcs::from_bytes::<(u64, Vec<u8>)>(bytes).ok()
}

/// No LEB128 form is a proper prefix of another: one followed by `x` equals one
/// followed by `y` only for the same number and the same rest.
pub proof fn lemma_uleb128_prefix(n: nat, m: nat, x: Seq<u8>, y: Seq<u8>)
    requires
        uleb128(n) + x == uleb128(m) + y,
    ensures
        n == m,
        x == y,
    decreases n,
{
    let a = uleb128(n) + x;
    let b = uleb128(m) + y;
    assert(a[0] == b[0]);
    if n < 128 {
        assert(a[0] == n as u8);
        if m >= 128 {
            assert(b[0] == (m % 128 + 128) as u8);
        }
        assert(m < 128);
        assert(b[0] == m as u8);
        assert(x =~= a.subrange(1, a.len() as int));
        assert(y =~= b.subrange(1, b.len() as int));
    } else {
        assert(a[0] == (n % 128 + 128) as u8);
        if m < 128 {
            assert(b[0] == m as u8);
        }
        assert(m >= 128);
        assert(b[0] == (m % 128 + 128) as u8);
        assert(n % 128 == m % 128);
        assert(uleb128(n / 128) + x =~= a.subrange(1, a.len() as int));
        assert(uleb128(m / 128) + y =~= b.subrange(1, b.len() as int));
        lemma_uleb128_prefix(n / 128, m / 128, x, y);
        assert(n == 128 * (n / 128) + n % 128);
        assert(m == 128 * (m / 128) + m % 128);
    }
}

/// Distinct envelopes have distinct bytes.
pub proof fn lemma_envelope_bytes_injective(id1: u64, p1: Seq<u8>, id2: u64, p2: Seq<u8>)
    requires
        envelope_bytes(id1, p1) == envelope_bytes(id2, p2),
    ensures
        id1 == id2,
        p1 == p2,
{
    lemma_auto_spec_u64_to_from_le_bytes();
    let a = envelope_bytes(id1, p1);
    let b = envelope_bytes(id2, p2);
    assert(spec_u64_to_le_bytes(id1) =~= a.subrange(0, 8));
    assert(spec_u64_to_le_bytes(id2) =~= b.subrange(0, 8));
    assert(spec_u64_from_le_bytes(spec_u64_to_le_bytes(id1)) == id1);
    assert(spec_u64_from_le_bytes(spec_u64_to_le_bytes(id2)) == id2);
    assert(uleb128(p1.len()) + p1 =~= a.subrange(8, a.len() as int));
    assert(uleb128(p2.len()) + p2 =~= b.subrange(8, b.len() as int));
    lemma_uleb128_prefix(p1.len(), p2.len(), p1, p2);
}

/// Decoding the bytes of an envelope gives back its service id and its
/// payload, bit for bit.
pub proof fn lemma_envelope_round_trip(service_id: u64, payload: Seq<u8>)
    requires
        payload.len() <= MAX_PAYLOAD_LEN,
    ensures
        decoded(envelope_bytes(service_id, payload)) == Some((service_id, payload)),
{
    let b = envelope_bytes(service_id, payload);
    assert(is_envelope(b));
    let v = choose|v: (u64, Seq<u8>)| v.1.len() <= MAX_PAYLOAD_LEN && b == envelope_bytes(v.0, v.1);
    assert((service_id, payload).1.len() <= MAX_PAYLOAD_LEN && b == envelope_bytes((service_id, payload).0, (service_id, payload).1));
    lemma_envelope_bytes_injective(v.0, v.1, service_id, payload);
}

/// Encodes an envelope addressed to `service_id` that carries `payload`.
pub fn encode_envelope(service_id: u64, payload: Vec<u8>) -> (r: Result<Vec<u8>, Error>)
    ensures
        r is Ok <==> payload@.len() <= MAX_PAYLOAD_LEN,
        r matches Ok(b) ==> b@ == envelope_bytes(service_id, payload@),
        r matches Err(e) ==> e == Error::PayloadTooLong(payload@.len() as usize),
{
    let len = payload.len();
    let value = (service_id, payload);
    match bcs_to_bytes(&value) {
        Some(b) => Ok(b),
        None => Err(Error::PayloadTooLong(len)),
    }
}

/// Reads `bytes` as an envelope; `None` where they are not exactly one.
pub fn decode_envelope(bytes: &[u8]) -> (r: Option<Envelope>)
    ensures
        match decoded(bytes@) {
            Some(v) => r matches Some(e) && e.service_id == v.0 && e.payload@ == v.1,
            None => r is None,
        },
{
    match bcs_from_bytes(bytes) {
        Some(v) => {
            let (service_id, payload) = v;
            proof {
                lemma_envelope_round_trip(service_id, payload@);
            }
            Some(Envelope { service_id, payload })
        },
        None => None,
    }
}

} // verus!
