use vstd::prelude::*;
use vstd::slice::{slice_subrange, slice_to_vec};
use vstd::utf8::{decode_utf8, valid_utf8};

use crate::chunk_type::{utf8_string, valid_type, ChunkType};
use crate::error::ChunkError;

verus! {

/// The CRC-32/ISO-HDLC checksum (the one PNG and zlib use) of `bytes`.
pub uninterp spec fn crc32_iso_hdlc(bytes: Seq<u8>) -> u32;

/// Relies on `crc::Crc::<u32>::checksum` over the `CRC_32_ISO_HDLC`
/// catalog entry: the checksum depends on the bytes alone.
#[verifier::external_body]
fn checksum(bytes: &[u8]) -> (r: u32)
    ensures
        r == crc32_iso_hdlc(bytes@),
{
    let crc: crc::Crc<u32> = crc::Crc::<u32>::new(&crc::CRC_32_ISO_HDLC);
    crc.checksum(bytes)
}

/// The big-endian unsigned integer that four bytes spell.
pub open spec fn be_u32(b0: u8, b1: u8, b2: u8, b3: u8) -> u32 {
    ((b0 as u32) << 24u32) | ((b1 as u32) << 16u32) | ((b2 as u32) << 8u32) | (b3 as u32)
}

/// The big-endian integer held by the first four bytes of `s`.
pub open spec fn read_be32(s: Seq<u8>) -> u32 {
    be_u32(s[0], s[1], s[2], s[3])
}

/// The four big-endian bytes of `n`.
pub open spec fn be32_bytes(n: u32) -> Seq<u8> {
    seq![(n >> 24u32) as u8, (n >> 16u32) as u8, (n >> 8u32) as u8, n as u8]
}

/// What a chunk holds: its declared length, type code, payload and checksum.
pub struct ChunkModel {
    pub length: u32,
    pub ctype: Seq<u8>,
    pub data: Seq<u8>,
    pub crc: u32,
}

/// The chunk that the direct constructor builds from a type code and a payload.
pub open spec fn new_model(t: Seq<u8>, data: Seq<u8>) -> ChunkModel {
    ChunkModel { length: data.len() as u32, ctype: t, data, crc: crc32_iso_hdlc(t + data) }
}

/// The wire layout of a chunk: length, type, payload, checksum.
pub open spec fn encode(m: ChunkModel) -> Seq<u8> {
    be32_bytes(m.length) + m.ctype + m.data + be32_bytes(m.crc)
}

/// The bytes that the checksum covers: all but the length and checksum fields.
pub open spec fn checksum_region(v: Seq<u8>) -> Seq<u8> {
    v.subrange(4, v.len() - 4)
}

/// Decoding `v` when the checksum of its type and payload bytes is `actual`.
pub open spec fn decode_with(v: Seq<u8>, actual: u32) -> Result<ChunkModel, ChunkError> {
    if v.len() < 4 {
        Err(ChunkError::TruncatedHeader)
    } else if v.len() != read_be32(v) as int + 12 {
        Err(ChunkError::SizeMismatch)
    } else if !valid_type(v.subrange(4, 8)) {
        Err(ChunkError::InvalidChunkType)
    } else if read_be32(v.subrange(v.len() - 4, v.len() as int)) != actual {
        Err(ChunkError::ChecksumMismatch)
    } else {
        Ok(
            ChunkModel {
                length: read_be32(v),
                ctype: v.subrange(4, 8),
                data: v.subrange(8, v.len() - 4),
                crc: actual,
            },
        )
    }
}

/// Decoding `v` as a chunk.
pub open spec fn decode(v: Seq<u8>) -> Result<ChunkModel, ChunkError> {
    decode_with(v, crc32_iso_hdlc(checksum_region(v)))
}

/// The model of a decoding result.
pub open spec fn result_model(r: Result<Chunk, ChunkError>) -> Result<ChunkModel, ChunkError> {
    match r {
        Ok(c) => Ok(c@),
        Err(e) => Err(e),
    }
}

/// Reads the big-endian integer at `v[i..i + 4]`.
fn read_be32_at(v: &[u8], i: usize) -> (r: u32)
    requires
        i + 4 <= v@.len(),
    ensures
        r == read_be32(v@.subrange(i as int, i + 4)),
{
    ((v[i] as u32) << 24) | ((v[i + 1] as u32) << 16) | ((v[i + 2] as u32) << 8) | (v[i + 3] as u32)
}

/// Appends the four big-endian bytes of `n` to `out`.
fn push_be32(out: &mut Vec<u8>, n: u32)
    ensures
        final(out)@ == old(out)@ + be32_bytes(n),
{
    out.push((n >> 24) as u8);
    out.push((n >> 16) as u8);
    out.push((n >> 8) as u8);
    out.push(n as u8);
    assert(final(out)@ =~= old(out)@ + be32_bytes(n));
}

/// Appends all of `src` to `out`.
fn push_all(out: &mut Vec<u8>, src: &[u8])
    ensures
        final(out)@ == old(out)@ + src@,
{
    let ghost start = out@;
    let mut i: usize = 0;
    while i < src.len()
        invariant
            0 <= i <= src@.len(),
            out@ == start + src@.subrange(0, i as int),
        decreases src@.len() - i,
    {
        out.push(src[i]);
        i = i + 1;
        assert(out@ =~= start + src@.subrange(0, i as int));
    }
    assert(src@.subrange(0, i as int) =~= src@);
}

/// True when `a` and `b` hold the same bytes.
fn same_bytes(a: &[u8], b: &[u8]) -> (r: bool)
    ensures
        r == (a@ == b@),
{
    if a.len() != b.len() {
        return false;
    }
    let mut i: usize = 0;
    while i < a.len()
        invariant
            a@.len() == b@.len(),
            0 <= i <= a@.len(),
            forall|k: int| 0 <= k < i ==> a@[k] == b@[k],
        decreases a@.len() - i,
    {
        if a[i] != b[i] {
            return false;
        }
        i = i + 1;
    }
    assert(a@ =~= b@);
    true
}

/// A PNG chunk: length, type code, payload and checksum.
#[derive(Debug)]
pub struct Chunk {
    clength: u32,
    ctype: ChunkType,
    cdata: Vec<u8>,
    ccrc: u32,
}

impl View for Chunk {
    type V = ChunkModel;

    closed spec fn view(&self) -> ChunkModel {
        ChunkModel { length: self.clength, ctype: self.ctype@, data: self.cdata@, crc: self.ccrc }
    }
}

impl Chunk {
    /// The declared length is always the payload's length.
    #[verifier::type_invariant]
    spec fn inv(self) -> bool {
        self.clength as int == self.cdata@.len()
    }

    /// Decodes a chunk from its wire bytes, given the checksum `actual_crc`
    /// of the bytes between the length and checksum fields.
    pub fn decode_with_checksum(value: &[u8], actual_crc: u32) -> (r: Result<Chunk, ChunkError>)
        ensures
            result_model(r) == decode_with(value@, actual_crc),
    {
        let n = value.len();
        if n < 4 {
            return Err(ChunkError::TruncatedHeader);
        }
        let clength = read_be32_at(value, 0);
        if n < 12 || n - 12 != clength as usize {
            return Err(ChunkError::SizeMismatch);
        }
        let ctype = match ChunkType::try_from([value[4], value[5], value[6], value[7]]) {
            Ok(t) => t,
            Err(_) => {
                assert([value[4], value[5], value[6], value[7]]@ =~= value@.subrange(4, 8));
                return Err(ChunkError::InvalidChunkType);
            },
        };
        assert([value[4], value[5], value[6], value[7]]@ =~= value@.subrange(4, 8));
        let ccrc = read_be32_at(value, n - 4);
        if ccrc != actual_crc {
            return Err(ChunkError::ChecksumMismatch);
        }
        let cdata = slice_to_vec(slice_subrange(value, 8, n - 4));
        Ok(Chunk { clength, ctype, cdata, ccrc })
    }

    /// Decodes a chunk from its wire bytes, checking its size, its type code
    /// and its checksum.
    pub fn try_from(value: &[u8]) -> (r: Result<Chunk, ChunkError>)
        ensures
            result_model(r) == decode(value@),
            r matches Ok(c) ==> c@.length == c@.data.len() && valid_type(c@.ctype),
    {
        let n = value.len();
        if n < 4 {
            return Err(ChunkError::TruncatedHeader);
        }
        if n < 12 {
            // no declared length accounts for fewer than twelve bytes
            return Err(ChunkError::SizeMismatch);
        }
        let actual = checksum(slice_subrange(value, 4, n - 4));
        let r = Chunk::decode_with_checksum(value, actual);
        if let Ok(c) = &r {
            proof {
                use_type_invariant(c);
            }
        }
        r
    }

    /// Builds a chunk from a type code and a payload, computing its length
    /// and checksum.
    pub fn new(chunk_type: ChunkType, data: Vec<u8>) -> (r: Chunk)
        requires
            data@.len() <= u32::MAX,
        ensures
            r@ == new_model(chunk_type@, data@),
    {
        let clength = data.len() as u32;
        let b = chunk_type.bytes();
        let mut tocrc: Vec<u8> = Vec::new();
        push_all(&mut tocrc, b.as_slice());
        push_all(&mut tocrc, data.as_slice());
        let ccrc = checksum(tocrc.as_slice());
        Chunk { clength, ctype: chunk_type, cdata: data, ccrc }
    }

    /// The payload's length.
    pub fn length(&self) -> (r: u32)
        ensures
            r == self@.length,
            r as int == self@.data.len(),
    {
        proof {
            use_type_invariant(self);
        }
        self.clength
    }

    /// The type code.
    pub fn chunk_type(&self) -> (r: &ChunkType)
        ensures
            r@ == self@.ctype,
    {
        &self.ctype
    }

    /// The payload.
    pub fn data(&self) -> (r: &[u8])
        ensures
            r@ == self@.data,
    {
        self.cdata.as_slice()
    }

    /// The checksum.
    pub fn crc(&self) -> (r: u32)
        ensures
            r == self@.crc,
    {
        self.ccrc
    }

    /// The payload as text, when it is valid UTF-8.
    pub fn data_as_string(&self) -> (r: Result<String, ChunkError>)
        ensures
            match r {
                Ok(s) => valid_utf8(self@.data) && s@ == decode_utf8(self@.data),
                Err(e) => !valid_utf8(self@.data) && e == ChunkError::InvalidUtf8,
            },
    {
        match utf8_string(slice_to_vec(self.cdata.as_slice())) {
            Some(s) => Ok(s),
            None => Err(ChunkError::InvalidUtf8),
        }
    }

    /// The chunk's wire bytes.
    pub fn as_bytes(&self) -> (r: Vec<u8>)
        ensures
            r@ == encode(self@),
    {
        let mut out: Vec<u8> = Vec::new();
        push_be32(&mut out, self.clength);
        let b = self.ctype.bytes();
        push_all(&mut out, b.as_slice());
        push_all(&mut out, self.cdata.as_slice());
        push_be32(&mut out, self.ccrc);
        out
    }
}

/// Reading back the big-endian bytes of `n` gives `n`.
proof fn lemma_be32_round_trip(n: u32)
    ensures
        read_be32(be32_bytes(n)) == n,
{
    assert(be_u32((n >> 24u32) as u8, (n >> 16u32) as u8, (n >> 8u32) as u8, n as u8) == n)
        by (bit_vector);
}

/// Two four-byte fields that spell the same integer are the same bytes.
proof fn lemma_be32_injective(a: Seq<u8>, b: Seq<u8>)
    requires
        a.len() >= 4,
        b.len() >= 4,
        read_be32(a) == read_be32(b),
    ensures
        a.subrange(0, 4) == b.subrange(0, 4),
{
    let (a0, a1, a2, a3, b0, b1, b2, b3) = (a[0], a[1], a[2], a[3], b[0], b[1], b[2], b[3]);
    assert(be_u32(a0, a1, a2, a3) == be_u32(b0, b1, b2, b3) ==> a0 == b0 && a1 == b1 && a2 == b2
        && a3 == b3) by (bit_vector);
    assert(a.subrange(0, 4) =~= b.subrange(0, 4));
}

/// Encoding a chunk built from a valid type code and a payload, then
/// decoding the bytes, gives back the same chunk.
pub proof fn lemma_round_trip(t: Seq<u8>, data: Seq<u8>)
    requires
        valid_type(t),
        data.len() <= u32::MAX,
    ensures
        decode(encode(new_model(t, data))) == Ok::<ChunkModel, ChunkError>(new_model(t, data)),
{
    let m = new_model(t, data);
    let v = encode(m);
    let n = v.len();
    lemma_be32_round_trip(m.length);
    lemma_be32_round_trip(m.crc);
    assert(v.subrange(0, 4) =~= be32_bytes(m.length));
    assert(read_be32(v) == read_be32(v.subrange(0, 4)));
    assert(v.subrange(4, 8) =~= t);
    assert(v.subrange(8, n - 4) =~= data);
    assert(checksum_region(v) =~= t + data);
    assert(v.subrange(n - 4, n as int) =~= be32_bytes(m.crc));
}

/// A decoded chunk's length is its payload's length, and its type code is
/// valid.
pub proof fn lemma_decoded_length_matches_data(v: Seq<u8>)
    requires
        decode(v) is Ok,
    ensures
        decode(v)->Ok_0.length == decode(v)->Ok_0.data.len(),
        valid_type(decode(v)->Ok_0.ctype),
{
}

/// Any change to the length field of a well-formed chunk's bytes, with the
/// buffer's size kept, makes decoding fail with `SizeMismatch`.
pub proof fn lemma_length_field_change(v: Seq<u8>, w: Seq<u8>)
    requires
        decode(v) is Ok,
        w.len() == v.len(),
        w.subrange(0, 4) != v.subrange(0, 4),
    ensures
        decode(w) == Err::<ChunkModel, ChunkError>(ChunkError::SizeMismatch),
{
    if read_be32(w) == read_be32(v) {
        lemma_be32_injective(w, v);
    }
}

/// A change to the type or payload bytes of a well-formed chunk that keeps
/// the type code valid and changes the checksum of those bytes makes
/// decoding fail with `ChecksumMismatch`.
pub proof fn lemma_region_change(v: Seq<u8>, w: Seq<u8>)
    requires
        decode(v) is Ok,
        w.len() == v.len(),
        w.subrange(0, 4) == v.subrange(0, 4),
        w.subrange(w.len() - 4, w.len() as int) == v.subrange(v.len() - 4, v.len() as int),
        valid_type(w.subrange(4, 8)),
        crc32_iso_hdlc(checksum_region(w)) != crc32_iso_hdlc(checksum_region(v)),
    ensures
        decode(w) == Err::<ChunkModel, ChunkError>(ChunkError::ChecksumMismatch),
{
    assert(w[0] == w.subrange(0, 4)[0] && w[1] == w.subrange(0, 4)[1]);
    assert(w[2] == w.subrange(0, 4)[2] && w[3] == w.subrange(0, 4)[3]);
}

impl PartialEq for Chunk {
    fn eq(&self, other: &Chunk) -> (r: bool) {
        let r = self.clength == other.clength && self.ctype == other.ctype
            && same_bytes(self.cdata.as_slice(), other.cdata.as_slice()) && self.ccrc == other.ccrc;
        proof {
            if r {
                assert(self@ == other@);
            }
        }
        r
    }
}

impl vstd::std_specs::cmp::PartialEqSpecImpl for Chunk {
    open spec fn obeys_eq_spec() -> bool {
        true
    }

    open spec fn eq_spec(&self, other: &Chunk) -> bool {
        self@ == other@
    }
}

impl Eq for Chunk {}

} // verus!
