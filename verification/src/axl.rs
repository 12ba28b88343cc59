//! Sample batches and the packet codec: a fixed-capacity buffer of
//! half-precision samples (carried as their raw little-endian bit patterns)
//! is mapped deterministically to a transport-safe base64 byte sequence with
//! a compile-time output-length ceiling.

use vstd::prelude::*;
use vstd::arithmetic::div_mod::lemma_div_is_ordered;

verus! {

/// Capacity of a sample batch: how many compressed samples one packet holds.
pub const AXL_SZ: usize = 3072;

/// Maximum length of the base64 encoding of a fully populated sample buffer
/// (two bytes per sample, four output bytes for every three input bytes,
/// plus padding headroom).
pub const AXL_OUTN: usize = AXL_SZ * 2 * 4 / 3 + 4;

/// The little-endian byte serialization of a sample buffer: each sample
/// contributes its low byte, then its high byte.
pub open spec fn sample_bytes(s: Seq<u16>) -> Seq<u8> {
    Seq::new(
        2 * s.len(),
        |i: int|
            if i % 2 == 0 {
                (s[i / 2] % 256) as u8
            } else {
                (s[i / 2] / 256) as u8
            },
    )
}

/// The base64 encoding (standard alphabet, padded) of a byte sequence, as
/// computed by the base64 crate. Named rather than spelled out: the alphabet
/// table is the crate's business; the library only relies on the encoding
/// being a function of the input bytes, with the documented output length
/// and character set.
pub uninterp spec fn base64_of(b: Seq<u8>) -> Seq<u8>;

/// A byte of the standard base64 alphabet, or the padding byte: the output
/// of the codec is transport-safe text made of these alone.
pub open spec fn is_base64_byte(b: u8) -> bool {
    ||| 65 <= b <= 90  // 'A'..'Z'
    ||| 97 <= b <= 122  // 'a'..'z'
    ||| 48 <= b <= 57  // '0'..'9'
    ||| b == 43  // '+'
    ||| b == 47  // '/'
    ||| b == 61  // '=' padding

}

/// The full codec: serialize the samples little-endian, then base64.
pub open spec fn encoded(data: Seq<u16>) -> Seq<u8> {
    base64_of(sample_bytes(data))
}

/// Relies on base64::encode: standard alphabet with padding, so the output
/// is a function of the input bytes alone, holds four bytes for every
/// three-byte input group, the last group padded, and draws every byte
/// from the standard alphabet table or the padding byte. The requires
/// keeps the input short enough that the crate's output-size computation
/// cannot overflow (it panics on overflow).
#[verifier::external_body]
fn base64_encode(data: &[u8]) -> (r: Vec<u8>)
    requires
        (data@.len() + 2) / 3 * 4 <= usize::MAX,
    ensures
        r@ == base64_of(data@),
        r@.len() == 4 * ((data@.len() + 2) / 3),
        forall|i: int| 0 <= i < r@.len() ==> is_base64_byte(r@[i]),
{
    base64::encode(data).into_bytes()
}

/// Serialize a sample buffer to little-endian bytes: low byte then high
/// byte of each sample, in sample order.
fn sample_buffer_bytes(data: &Vec<u16>) -> (out: Vec<u8>)
    requires
        data@.len() * 2 <= usize::MAX,
    ensures
        out@ == sample_bytes(data@),
{
    let mut out: Vec<u8> = Vec::new();
    let mut i: usize = 0;
    while i < data.len()
        invariant
            i <= data@.len(),
            data@.len() * 2 <= usize::MAX,
            out@.len() == 2 * i,
            forall|k: int| 0 <= k < out@.len() ==> out@[k] == sample_bytes(data@)[k],
        decreases data@.len() - i,
    {
        let v: u16 = data[i];
        out.push((v % 256) as u8);
        out.push((v / 256) as u8);
        i = i + 1;
    }
    assert(out@ =~= sample_bytes(data@));
    out
}

/// A timestamped batch of compressed samples, produced by the acquisition
/// interrupt and consumed exactly once by the uplink client. Samples are
/// carried as the raw bit patterns of the half-precision values.
pub struct AxlPacket {
    /// Milliseconds since epoch at the time the batch was cut.
    pub timestamp: u32,
    /// The sample buffer; at most `AXL_SZ` entries.
    pub data: Vec<u16>,
}

impl AxlPacket {
    /// A well-formed batch never exceeds the fixed buffer capacity.
    pub open spec fn wf(&self) -> bool {
        self.data@.len() <= AXL_SZ
    }

    /// Encode the batch for transport. Deterministic: the output is a
    /// function of the sample bytes alone; its length never exceeds
    /// `AXL_OUTN`, for the empty buffer up to the fully populated one; and
    /// every byte is transport-safe base64 text.
    pub fn base64(&self) -> (r: Vec<u8>)
        requires
            self.wf(),
        ensures
            r@ == encoded(self.data@),
            r@.len() == 4 * ((2 * self.data@.len() + 2) / 3),
            r@.len() <= AXL_OUTN,
            forall|i: int| 0 <= i < r@.len() ==> is_base64_byte(r@[i]),
    {
        let bytes = sample_buffer_bytes(&self.data);
        proof {
            assert(bytes@.len() + 2 <= 6146);
            lemma_div_is_ordered(bytes@.len() + 2 as int, 6146, 3);
            assert((bytes@.len() + 2) / 3 <= 2048);
        }
        let r = base64_encode(bytes.as_slice());
        r
    }
}

/// Per-chunk metadata accompanying each uploaded payload fragment, so the
/// backend can reassemble fragments of one packet.
pub struct AxlPacketMeta {
    /// Timestamp of the packet the fragment belongs to.
    pub timestamp: u32,
    /// Byte offset of this fragment within the encoded payload.
    pub offset: u32,
}

/// Encoding is deterministic: two batches with equal sample buffers encode
/// to identical byte sequences, so encoding the same batch twice yields
/// the same output bytes.
pub proof fn lemma_encode_deterministic(a: AxlPacket, b: AxlPacket)
    requires
        a.data@ == b.data@,
    ensures
        encoded(a.data@) == encoded(b.data@),
{
}

} // verus!
