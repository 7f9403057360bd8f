use vstd::prelude::*;
use crate::bytes::{be16, be32, push_be16, lemma_be_len};
use crate::chunk::{ChunkModel, HepChunk, chunk_at, lemma_decode_encode};
use crate::error::HepError;

verus! {

/// The magic id that opens every packet: "HEP3" in ASCII.
pub const HEP_ID: u32 = 0x48455033;

/// Bytes taken by the magic id and the total length field of a packet.
pub const PACKET_HEADER_LEN: u16 = 6;

/// The largest value of a 16-bit length field.
pub const MAX_TOTAL_LEN: u16 = 0xffff;

/// Every chunk's length field agrees with its payload.
pub open spec fn all_wf(cs: Seq<ChunkModel>) -> bool {
    forall|i: int| 0 <= i < cs.len() ==> #[trigger] cs[i].wf()
}

/// The sum of the chunks' length fields.
pub open spec fn sum_lengths(cs: Seq<ChunkModel>) -> int
    decreases cs.len(),
{
    if cs.len() == 0 {
        0
    } else {
        sum_lengths(cs.drop_last()) + cs.last().length
    }
}

/// The chunks' wire bytes, one after another in their order.
pub open spec fn chunks_bytes(cs: Seq<ChunkModel>) -> Seq<u8>
    decreases cs.len(),
{
    if cs.len() == 0 {
        Seq::empty()
    } else {
        chunks_bytes(cs.drop_last()) + cs.last().bytes()
    }
}

/// A packet on the wire: magic id, total length, then the chunks.
pub open spec fn packet_bytes(total_length: u16, cs: Seq<ChunkModel>) -> Seq<u8> {
    be32(HEP_ID) + be16(total_length) + chunks_bytes(cs)
}

/// Well-formed chunks take exactly as many bytes as their lengths add up to.
pub proof fn lemma_chunks_bytes_len(cs: Seq<ChunkModel>)
    requires
        all_wf(cs),
    ensures
        chunks_bytes(cs).len() == sum_lengths(cs),
    decreases cs.len(),
{
    if cs.len() > 0 {
        assert(cs.last().wf());
        lemma_be_len(0, 0, 0);
        lemma_be_len(cs.last().vendor_id, 0, 0);
        lemma_be_len(cs.last().type_id, 0, 0);
        lemma_be_len(cs.last().length, 0, 0);
        lemma_chunks_bytes_len(cs.drop_last());
    }
}

/// The lengths of a prefix add up to no more than those of the whole.
pub proof fn lemma_sum_prefix(cs: Seq<ChunkModel>, i: int)
    requires
        0 <= i <= cs.len(),
    ensures
        sum_lengths(cs.subrange(0, i)) <= sum_lengths(cs),
    decreases cs.len(),
{
    if i == cs.len() {
        assert(cs.subrange(0, i) =~= cs);
    } else {
        assert(cs.drop_last().subrange(0, i) =~= cs.subrange(0, i));
        lemma_sum_prefix(cs.drop_last(), i);
    }
}

/// What a packet holds, as plain values.
pub struct HepModel {
    pub total_length: u16,
    pub chunks: Seq<ChunkModel>,
}

impl HepModel {
    /// The total length counts the packet header and every chunk.
    pub open spec fn wf(self) -> bool {
        all_wf(self.chunks) && self.total_length == PACKET_HEADER_LEN + sum_lengths(self.chunks)
    }

    pub open spec fn bytes(self) -> Seq<u8> {
        packet_bytes(self.total_length, self.chunks)
    }
}

/// The models of a sequence of chunks.
pub open spec fn chunk_models(cs: Seq<HepChunk>) -> Seq<ChunkModel> {
    cs.map_values(|c: HepChunk| c@)
}

/// A finished packet: its chunks in the order they were added, and a total
/// length that agrees with them.
pub struct Hep {
    total_length: u16,
    chunks: Vec<HepChunk>,
}

impl View for Hep {
    type V = HepModel;

    closed spec fn view(&self) -> HepModel {
        HepModel { total_length: self.total_length, chunks: chunk_models(self.chunks@) }
    }
}

impl Hep {
    pub open spec fn wf(&self) -> bool {
        self@.wf()
    }

    /// The magic id written at the start of the packet.
    pub fn hep_id(&self) -> (r: u32)
        ensures
            r == HEP_ID,
    {
        HEP_ID
    }

    pub fn total_length(&self) -> (r: u16)
        ensures
            r == self@.total_length,
    {
        self.total_length
    }

    pub fn chunks(&self) -> (r: &[HepChunk])
        ensures
            chunk_models(r@) == self@.chunks,
    {
        self.chunks.as_slice()
    }

    /// The packet on the wire; its length is the total length field.
    pub fn encode(&self) -> (r: Vec<u8>)
        requires
            self.wf(),
        ensures
            r@ == self@.bytes(),
            r@.len() == self@.total_length,
    {
        let ghost cs = self@.chunks;
        let mut out: Vec<u8> = Vec::new();
        push_be16(&mut out, (HEP_ID / 0x1_0000) as u16);
        push_be16(&mut out, (HEP_ID % 0x1_0000) as u16);
        assert(out@ =~= be32(HEP_ID)) by {
            reveal(be16);
            reveal(be32);
        }
        push_be16(&mut out, self.total_length);
        let mut i: usize = 0;
        while i < self.chunks.len()
            invariant
                i <= self.chunks@.len(),
                cs == chunk_models(self.chunks@),
                out@ == be32(HEP_ID) + be16(self@.total_length) + chunks_bytes(cs.subrange(0, i as int)),
            decreases self.chunks@.len() - i,
        {
            self.chunks[i].encode_into(&mut out);
            assert(cs.subrange(0, i + 1).drop_last() =~= cs.subrange(0, i as int));
            i = i + 1;
            assert(out@ =~= be32(HEP_ID) + be16(self@.total_length) + chunks_bytes(cs.subrange(0, i as int)));
        }
        assert(cs.subrange(0, i as int) =~= cs);
        proof {
            lemma_chunks_bytes_len(cs);
            lemma_be_len(self@.total_length, HEP_ID, 0);
        }
        out
    }
}

/// A well-formed packet's wire bytes are exactly as long as its total
/// length field, which counts the header and every chunk's length.
pub proof fn lemma_packet_length(h: HepModel)
    requires
        h.wf(),
    ensures
        h.total_length == PACKET_HEADER_LEN + sum_lengths(h.chunks),
        h.bytes().len() == h.total_length,
{
    lemma_chunks_bytes_len(h.chunks);
    lemma_be_len(h.total_length, HEP_ID, 0);
}

/// Chunks are written in the order they are given, each right after the
/// one before.
pub proof fn lemma_chunk_order(total_length: u16, a: ChunkModel, b: ChunkModel, c: ChunkModel)
    ensures
        packet_bytes(total_length, seq![a, b, c]) == be32(HEP_ID) + be16(total_length) + a.bytes()
            + b.bytes() + c.bytes(),
{
    let cs = seq![a, b, c];
    reveal_with_fuel(chunks_bytes, 4);
    assert(cs.drop_last() =~= seq![a, b]);
    assert(seq![a, b].drop_last() =~= seq![a]);
    assert(seq![a].drop_last() =~= Seq::<ChunkModel>::empty());
    assert(chunks_bytes(Seq::<ChunkModel>::empty()) == Seq::<u8>::empty());
    assert(chunks_bytes(seq![a]) =~= a.bytes());
    assert(packet_bytes(total_length, cs) =~= be32(HEP_ID) + be16(total_length) + a.bytes()
        + b.bytes() + c.bytes());
}

/// Swapping two different well-formed chunks changes the packet's bytes.
pub proof fn lemma_swap_changes_bytes(
    total_length: u16,
    a: ChunkModel,
    b: ChunkModel,
    c: ChunkModel,
)
    requires
        a.wf(),
        b.wf(),
        a != b,
    ensures
        packet_bytes(total_length, seq![a, b, c]) != packet_bytes(total_length, seq![b, a, c]),
{
    let hdr = be32(HEP_ID) + be16(total_length);
    let x = packet_bytes(total_length, seq![a, b, c]);
    let y = packet_bytes(total_length, seq![b, a, c]);
    lemma_chunk_order(total_length, a, b, c);
    lemma_chunk_order(total_length, b, a, c);
    let xs = a.bytes() + (b.bytes() + c.bytes());
    let ys = b.bytes() + (a.bytes() + c.bytes());
    reveal(be16);
    reveal(be32);
    assert(x.subrange(6, x.len() as int) =~= xs);
    assert(y.subrange(6, y.len() as int) =~= ys);
    lemma_decode_encode(a, b.bytes() + c.bytes());
    lemma_decode_encode(b, a.bytes() + c.bytes());
    if x == y {
        assert(chunk_at(xs) == chunk_at(ys));
    }
}

/// What a builder holds, as plain values.
pub struct BuilderModel {
    pub chunks: Seq<ChunkModel>,
    pub built: bool,
}

/// Collects chunks in order and turns them into one packet, once.
///
/// A builder with no chunks builds a packet that is the header alone. After a
/// build the builder holds no chunks and refuses further use.
pub struct HepBuilder {
    chunks: Vec<HepChunk>,
    built: bool,
}

impl View for HepBuilder {
    type V = BuilderModel;

    closed spec fn view(&self) -> BuilderModel {
        BuilderModel { chunks: chunk_models(self.chunks@), built: self.built }
    }
}

impl HepBuilder {
    pub open spec fn wf(&self) -> bool {
        all_wf(self@.chunks)
    }

    pub fn new() -> (r: Self)
        ensures
            r.wf(),
            r@.chunks == Seq::<ChunkModel>::empty(),
            !r@.built,
    {
        let r = HepBuilder { chunks: Vec::new(), built: false };
        assert(r@.chunks =~= Seq::<ChunkModel>::empty());
        r
    }

    /// Appends `hc` after the chunks added so far.
    pub fn add_chunk(&mut self, hc: HepChunk) -> (r: Result<(), HepError>)
        requires
            old(self).wf(),
            hc.wf(),
        ensures
            final(self).wf(),
            match r {
                Ok(()) => !old(self)@.built && final(self)@ == (BuilderModel {
                    chunks: old(self)@.chunks.push(hc@),
                    built: false,
                }),
                Err(e) => old(self)@.built && e == HepError::BuilderMisuse && final(self)@
                    == old(self)@,
            },
    {
        if self.built {
            return Err(HepError::BuilderMisuse);
        }
        let ghost hm = hc@;
        self.chunks.push(hc);
        assert(self@.chunks =~= old(self)@.chunks.push(hm));
        Ok(())
    }

    /// Turns the chunks into a packet whose total length is the header's six
    /// bytes plus every chunk's length. Fails where that sum would not fit
    /// 16 bits, and on a builder that has built already.
    pub fn build(&mut self) -> (r: Result<Hep, HepError>)
        requires
            old(self).wf(),
        ensures
            final(self).wf(),
            match r {
                Ok(h) => !old(self)@.built && PACKET_HEADER_LEN + sum_lengths(old(self)@.chunks)
                    <= MAX_TOTAL_LEN && h.wf() && h@.chunks == old(self)@.chunks
                    && h@.total_length == PACKET_HEADER_LEN + sum_lengths(old(self)@.chunks)
                    && final(self)@ == (BuilderModel {
                    chunks: Seq::<ChunkModel>::empty(),
                    built: true,
                }),
                Err(e) => final(self)@ == old(self)@ && (if old(self)@.built {
                    e == HepError::BuilderMisuse
                } else {
                    PACKET_HEADER_LEN + sum_lengths(old(self)@.chunks) > MAX_TOTAL_LEN && e
                        == HepError::PayloadTooLarge
                }),
            },
    {
        if self.built {
            return Err(HepError::BuilderMisuse);
        }
        let ghost cs = self@.chunks;
        let limit: u32 = (MAX_TOTAL_LEN - PACKET_HEADER_LEN) as u32;
        let mut total: u32 = 0;
        let mut i: usize = 0;
        while i < self.chunks.len()
            invariant
                i <= self.chunks@.len(),
                self@ == old(self)@,
                self.wf(),
                !old(self)@.built,
                cs == chunk_models(self.chunks@),
                total == sum_lengths(cs.subrange(0, i as int)),
                total <= limit,
                limit == MAX_TOTAL_LEN - PACKET_HEADER_LEN,
            decreases self.chunks@.len() - i,
        {
            assert(cs.subrange(0, i + 1).drop_last() =~= cs.subrange(0, i as int));
            total = total + self.chunks[i].length as u32;
            i = i + 1;
            if total > limit {
                proof {
                    lemma_sum_prefix(cs, i as int);
                }
                return Err(HepError::PayloadTooLarge);
            }
        }
        assert(cs.subrange(0, i as int) =~= cs);
        let mut chunks: Vec<HepChunk> = Vec::new();
        std::mem::swap(&mut chunks, &mut self.chunks);
        self.built = true;
        assert(self@.chunks =~= Seq::<ChunkModel>::empty());
        Ok(Hep { total_length: PACKET_HEADER_LEN + total as u16, chunks })
    }
}

} // verus!
