use vstd::prelude::*;
use crate::bytes::{be16, read16, push_be16, lemma_read16_be16};
use crate::chunk_types::HepChunkTypeId;
use crate::error::HepError;

verus! {

/// Bytes taken by the vendor id, type id and length fields of a chunk.
pub const CHUNK_HEADER_LEN: u16 = 6;

/// What a chunk holds, as plain values.
pub struct ChunkModel {
    pub vendor_id: u16,
    pub type_id: u16,
    pub length: u16,
    pub payload: Seq<u8>,
}

impl ChunkModel {
    /// The length field counts the header and the payload.
    pub open spec fn wf(self) -> bool {
        self.length == CHUNK_HEADER_LEN + self.payload.len()
    }

    /// The chunk on the wire: three big-endian 16-bit fields, then the payload.
    pub open spec fn bytes(self) -> Seq<u8> {
        be16(self.vendor_id) + be16(self.type_id) + be16(self.length) + self.payload
    }
}

/// Whether `b` starts with a whole chunk: a full header whose length is at
/// least the header's and no more than `b` holds.
pub open spec fn chunk_decodable(b: Seq<u8>) -> bool {
    b.len() >= CHUNK_HEADER_LEN && read16(b, 4) >= CHUNK_HEADER_LEN && read16(b, 4) <= b.len()
}

/// The chunk that starts `b`, where `chunk_decodable(b)`.
pub open spec fn chunk_at(b: Seq<u8>) -> ChunkModel {
    ChunkModel {
        vendor_id: read16(b, 0),
        type_id: read16(b, 2),
        length: read16(b, 4),
        payload: b.subrange(CHUNK_HEADER_LEN as int, read16(b, 4) as int),
    }
}

/// Decoding the bytes of a well-formed chunk, whatever follows them, gives
/// that chunk back.
pub proof fn lemma_decode_encode(c: ChunkModel, rest: Seq<u8>)
    requires
        c.wf(),
    ensures
        chunk_decodable(c.bytes() + rest),
        chunk_at(c.bytes() + rest) == c,
{
    let b = c.bytes() + rest;
    reveal(be16);
    lemma_read16_be16(c.vendor_id);
    lemma_read16_be16(c.type_id);
    lemma_read16_be16(c.length);
    assert(read16(b, 0) == read16(be16(c.vendor_id), 0));
    assert(read16(b, 2) == read16(be16(c.type_id), 0));
    assert(read16(b, 4) == read16(be16(c.length), 0));
    assert(b.subrange(CHUNK_HEADER_LEN as int, c.length as int) =~= c.payload);
}

/// One type-length-value record of a packet.
#[derive(Clone, Debug, PartialEq, Eq)]
pub struct HepChunk {
    pub vendor_id: u16,
    pub type_id: HepChunkTypeId,
    pub length: u16,
    pub payload: Vec<u8>,
}

impl View for HepChunk {
    type V = ChunkModel;

    open spec fn view(&self) -> ChunkModel {
        ChunkModel {
            vendor_id: self.vendor_id,
            type_id: self.type_id.0,
            length: self.length,
            payload: self.payload@,
        }
    }
}

impl HepChunk {
    /// The length field agrees with the payload.
    pub open spec fn wf(&self) -> bool {
        self@.wf()
    }

    /// Writes the chunk's fields big-endian, then its payload verbatim.
    pub fn encode(&self) -> (r: Vec<u8>)
        ensures
            r@ == self@.bytes(),
    {
        let mut out: Vec<u8> = Vec::new();
        self.encode_into(&mut out);
        assert(out@ =~= self@.bytes());
        out
    }

    /// Appends the chunk's wire bytes to `out`.
    pub fn encode_into(&self, out: &mut Vec<u8>)
        ensures
            final(out)@ == old(out)@ + self@.bytes(),
    {
        let ghost start = out@;
        push_be16(out, self.vendor_id);
        push_be16(out, self.type_id.0);
        push_be16(out, self.length);
        let mut i: usize = 0;
        while i < self.payload.len()
            invariant
                i <= self.payload@.len(),
                out@ == start + be16(self.vendor_id) + be16(self.type_id.0) + be16(self.length)
                    + self.payload@.subrange(0, i as int),
            decreases self.payload@.len() - i,
        {
            out.push(self.payload[i]);
            i = i + 1;
            assert(out@ =~= start + be16(self.vendor_id) + be16(self.type_id.0) + be16(self.length)
                + self.payload@.subrange(0, i as int));
        }
        assert(self.payload@.subrange(0, i as int) =~= self.payload@);
        assert(out@ =~= old(out)@ + self@.bytes());
    }

    /// Reads the chunk that starts `bytes`; bytes after its declared length
    /// are left alone.
    pub fn decode(bytes: &[u8]) -> (r: Result<HepChunk, HepError>)
        ensures
            match r {
                Ok(c) => chunk_decodable(bytes@) && c@ == chunk_at(bytes@) && c.wf(),
                Err(e) => !chunk_decodable(bytes@) && e == HepError::MalformedChunk,
            },
    {
        if bytes.len() < CHUNK_HEADER_LEN as usize {
            return Err(HepError::MalformedChunk);
        }
        let vendor_id: u16 = bytes[0] as u16 * 0x100 + bytes[1] as u16;
        let type_id: u16 = bytes[2] as u16 * 0x100 + bytes[3] as u16;
        let length: u16 = bytes[4] as u16 * 0x100 + bytes[5] as u16;
        if length < CHUNK_HEADER_LEN || length as usize > bytes.len() {
            return Err(HepError::MalformedChunk);
        }
        let mut payload: Vec<u8> = Vec::new();
        let mut i: usize = CHUNK_HEADER_LEN as usize;
        while i < length as usize
            invariant
                CHUNK_HEADER_LEN <= i <= length <= bytes@.len(),
                payload@ == bytes@.subrange(CHUNK_HEADER_LEN as int, i as int),
            decreases length - i,
        {
            payload.push(bytes[i]);
            i = i + 1;
            assert(payload@ =~= bytes@.subrange(CHUNK_HEADER_LEN as int, i as int));
        }
        let c = HepChunk { vendor_id, type_id: HepChunkTypeId(type_id), length, payload };
        assert(c@ == chunk_at(bytes@));
        Ok(c)
    }
}

} // verus!
