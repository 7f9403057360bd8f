use vstd::prelude::*;
use crate::bytes::{
    be16, be32, be48, push_be16, read16, read32, read48, lemma_read16_be16, lemma_read32_be32,
    lemma_read48_be48, lemma_be_len,
};
use crate::chunk::{
    ChunkModel, HepChunk, CHUNK_HEADER_LEN, chunk_at, chunk_decodable, lemma_decode_encode,
};
use crate::chunk_types::{
    HepChunkTypeId, AUTH_KEY, CAPTURE_AGENT_ID, CORRELATION_ID, ETHERNET_TYPE, GEO_LOCATION,
    GROUP_ID, GZIP_PACKET_PAYLOAD, IPV4_SOURCE_ADDRESS, IPV4_TARGET_ADDRESS, IPV6_SOURCE_ADDRESS,
    IPV6_TARGET_ADDRESS, IP_PROTOCOL_FAMILY, IP_PROTOCOL_ID, JITTER, KEEP_ALIVE_TIMER, MOS_VALUE,
    PACKET_PAYLOAD, PAYLOAD_JSON, PROTOCOL_TYPE, R_FACTOR, SOURCE_MAC, SOURCE_PORT, TARGET_MAC,
    TARGET_PORT, TCP_FLAG, TIMESTAMP_MICROSEC_OFFSET, TIMESTAMP_SEC, TRANSACTION_TYPE, VLAN_ID,
};
use crate::error::HepError;
use vstd::string::StrSliceExecFns;
use vstd::utf8::encode_utf8;

verus! {

/// The longest payload whose chunk length still fits 16 bits.
pub const MAX_PAYLOAD_LEN: usize = 65529;

/// The chunk that the factory makes for `payload` under `type_id`.
pub open spec fn factory_chunk(type_id: u16, payload: Seq<u8>) -> ChunkModel {
    ChunkModel {
        vendor_id: 0,
        type_id,
        length: (CHUNK_HEADER_LEN + payload.len()) as u16,
        payload,
    }
}

/// What a constructor of a variable-length chunk returns for `payload`.
pub open spec fn variable_chunk_result(
    type_id: u16,
    payload: Seq<u8>,
    r: Result<HepChunk, HepError>,
) -> bool {
    match r {
        Ok(c) => payload.len() <= MAX_PAYLOAD_LEN && c@ == factory_chunk(type_id, payload)
            && c.wf(),
        Err(e) => payload.len() > MAX_PAYLOAD_LEN && e == HepError::PayloadTooLarge,
    }
}

/// A factory chunk decodes back to itself: the payload that went in comes
/// out, and the length field agrees with it.
pub proof fn lemma_factory_round_trip(type_id: u16, payload: Seq<u8>)
    requires
        payload.len() <= MAX_PAYLOAD_LEN,
    ensures
        factory_chunk(type_id, payload).wf(),
        chunk_decodable(factory_chunk(type_id, payload).bytes()),
        chunk_at(factory_chunk(type_id, payload).bytes()) == factory_chunk(type_id, payload),
{
    lemma_decode_encode(factory_chunk(type_id, payload), Seq::empty());
    assert(factory_chunk(type_id, payload).bytes() + Seq::empty() =~= factory_chunk(
        type_id,
        payload,
    ).bytes());
}

/// A one-byte chunk decodes back to its value.
pub proof fn lemma_round_trip_u8(type_id: u16, v: u8)
    ensures
        chunk_decodable(factory_chunk(type_id, seq![v]).bytes()),
        chunk_at(factory_chunk(type_id, seq![v]).bytes()).payload == seq![v],
        chunk_at(factory_chunk(type_id, seq![v]).bytes()).type_id == type_id,
{
    lemma_factory_round_trip(type_id, seq![v]);
}

/// A 16-bit chunk decodes back to its value.
pub proof fn lemma_round_trip_u16(type_id: u16, v: u16)
    ensures
        chunk_decodable(factory_chunk(type_id, be16(v)).bytes()),
        chunk_at(factory_chunk(type_id, be16(v)).bytes()).payload.len() == 2,
        read16(chunk_at(factory_chunk(type_id, be16(v)).bytes()).payload, 0) == v,
        chunk_at(factory_chunk(type_id, be16(v)).bytes()).type_id == type_id,
{
    lemma_be_len(v, 0, 0);
    let c = factory_chunk(type_id, be16(v));
    assert(chunk_decodable(c.bytes()) && chunk_at(c.bytes()) == c) by {
        lemma_factory_round_trip(type_id, be16(v));
    }
    assert(read16(c.payload, 0) == v) by {
        lemma_read16_be16(v);
    }
}

/// A 32-bit chunk decodes back to its value.
pub proof fn lemma_round_trip_u32(type_id: u16, v: u32)
    ensures
        chunk_decodable(factory_chunk(type_id, be32(v)).bytes()),
        chunk_at(factory_chunk(type_id, be32(v)).bytes()).payload.len() == 4,
        read32(chunk_at(factory_chunk(type_id, be32(v)).bytes()).payload, 0) == v,
        chunk_at(factory_chunk(type_id, be32(v)).bytes()).type_id == type_id,
{
    lemma_be_len(0, v, 0);
    let c = factory_chunk(type_id, be32(v));
    assert(chunk_decodable(c.bytes()) && chunk_at(c.bytes()) == c) by {
        lemma_factory_round_trip(type_id, be32(v));
    }
    assert(read32(c.payload, 0) == v) by {
        lemma_read32_be32(v);
    }
}

/// A MAC address chunk decodes back to its 48-bit value.
pub proof fn lemma_round_trip_mac(type_id: u16, v: u64)
    requires
        v < 0x1_0000_0000_0000,
    ensures
        chunk_decodable(factory_chunk(type_id, be48(v)).bytes()),
        chunk_at(factory_chunk(type_id, be48(v)).bytes()).payload.len() == 6,
        read48(chunk_at(factory_chunk(type_id, be48(v)).bytes()).payload, 0) == v,
        chunk_at(factory_chunk(type_id, be48(v)).bytes()).type_id == type_id,
{
    lemma_be_len(0, 0, v);
    let c = factory_chunk(type_id, be48(v));
    assert(chunk_decodable(c.bytes()) && chunk_at(c.bytes()) == c) by {
        lemma_factory_round_trip(type_id, be48(v));
    }
    assert(read48(c.payload, 0) == v) by {
        lemma_read48_be48(v);
    }
}

fn make_chunk(type_id: u16, payload: Vec<u8>) -> (r: HepChunk)
    requires
        payload@.len() <= MAX_PAYLOAD_LEN,
    ensures
        r@ == factory_chunk(type_id, payload@),
        r.wf(),
{
    let length = CHUNK_HEADER_LEN + payload.len() as u16;
    HepChunk { vendor_id: 0, type_id: HepChunkTypeId(type_id), length, payload }
}

fn chunk_u8(type_id: u16, v: u8) -> (r: HepChunk)
    ensures
        r@ == factory_chunk(type_id, seq![v]),
        r.wf(),
{
    let mut payload: Vec<u8> = Vec::new();
    payload.push(v);
    assert(payload@ =~= seq![v]);
    make_chunk(type_id, payload)
}

fn chunk_u16(type_id: u16, v: u16) -> (r: HepChunk)
    ensures
        r@ == factory_chunk(type_id, be16(v)),
        r.wf(),
{
    let mut payload: Vec<u8> = Vec::new();
    push_be16(&mut payload, v);
    proof {
        lemma_be_len(v, 0, 0);
    }
    assert(payload@ =~= be16(v));
    make_chunk(type_id, payload)
}

fn chunk_u32(type_id: u16, v: u32) -> (r: HepChunk)
    ensures
        r@ == factory_chunk(type_id, be32(v)),
        r.wf(),
{
    let mut payload: Vec<u8> = Vec::new();
    payload.push((v / 0x100_0000) as u8);
    payload.push((v / 0x1_0000 % 0x100) as u8);
    payload.push((v / 0x100 % 0x100) as u8);
    payload.push((v % 0x100) as u8);
    assert(payload@ =~= be32(v)) by {
        reveal(be32);
    }
    make_chunk(type_id, payload)
}

fn chunk_mac(type_id: u16, v: u64) -> (r: HepChunk)
    ensures
        r@ == factory_chunk(type_id, be48(v)),
        r.wf(),
{
    let mut payload: Vec<u8> = Vec::new();
    payload.push((v / 0x100 / 0x100 / 0x100 / 0x100 / 0x100 % 0x100) as u8);
    payload.push((v / 0x100 / 0x100 / 0x100 / 0x100 % 0x100) as u8);
    payload.push((v / 0x100 / 0x100 / 0x100 % 0x100) as u8);
    payload.push((v / 0x100 / 0x100 % 0x100) as u8);
    payload.push((v / 0x100 % 0x100) as u8);
    payload.push((v % 0x100) as u8);
    assert(payload@ =~= be48(v)) by {
        reveal(be48);
    }
    make_chunk(type_id, payload)
}

fn chunk_array(type_id: u16, a: &[u8]) -> (r: HepChunk)
    requires
        a@.len() <= MAX_PAYLOAD_LEN,
    ensures
        r@ == factory_chunk(type_id, a@),
        r.wf(),
{
    let mut payload: Vec<u8> = Vec::new();
    let mut i: usize = 0;
    while i < a.len()
        invariant
            i <= a@.len(),
            payload@ == a@.subrange(0, i as int),
        decreases a@.len() - i,
    {
        payload.push(a[i]);
        i = i + 1;
        assert(payload@ =~= a@.subrange(0, i as int));
    }
    assert(payload@ =~= a@);
    make_chunk(type_id, payload)
}

fn chunk_vec(type_id: u16, arg: Vec<u8>) -> (r: Result<HepChunk, HepError>)
    ensures
        variable_chunk_result(type_id, arg@, r),
{
    if arg.len() > MAX_PAYLOAD_LEN {
        Err(HepError::PayloadTooLarge)
    } else {
        Ok(make_chunk(type_id, arg))
    }
}

/// One constructor per kind of chunk. Numbers are written big-endian in the
/// field's width, addresses verbatim, MAC addresses as their low six bytes;
/// byte and text payloads are taken as given, and refused where the chunk
/// would not fit its length field.
pub struct Chunk;

#[allow(non_snake_case)]
impl Chunk {
    pub fn ipProtocolFamily(arg: u8) -> (r: HepChunk)
        ensures
            r@ == factory_chunk(IP_PROTOCOL_FAMILY, seq![arg]),
            r.wf(),
    {
        chunk_u8(IP_PROTOCOL_FAMILY, arg)
    }

    pub fn ipProtocolId(arg: u8) -> (r: HepChunk)
        ensures
            r@ == factory_chunk(IP_PROTOCOL_ID, seq![arg]),
            r.wf(),
    {
        chunk_u8(IP_PROTOCOL_ID, arg)
    }

    pub fn ipv4SourceAddress(arg: [u8; 4]) -> (r: HepChunk)
        ensures
            r@ == factory_chunk(IPV4_SOURCE_ADDRESS, arg@),
            r.wf(),
    {
        chunk_array(IPV4_SOURCE_ADDRESS, &arg)
    }

    pub fn ipv4TargetAddress(arg: [u8; 4]) -> (r: HepChunk)
        ensures
            r@ == factory_chunk(IPV4_TARGET_ADDRESS, arg@),
            r.wf(),
    {
        chunk_array(IPV4_TARGET_ADDRESS, &arg)
    }

    pub fn ipv6SourceAddress(arg: [u8; 16]) -> (r: HepChunk)
        ensures
            r@ == factory_chunk(IPV6_SOURCE_ADDRESS, arg@),
            r.wf(),
    {
        chunk_array(IPV6_SOURCE_ADDRESS, &arg)
    }

    pub fn ipv6TargetAddress(arg: [u8; 16]) -> (r: HepChunk)
        ensures
            r@ == factory_chunk(IPV6_TARGET_ADDRESS, arg@),
            r.wf(),
    {
        chunk_array(IPV6_TARGET_ADDRESS, &arg)
    }

    pub fn sourcePort(arg: u16) -> (r: HepChunk)
        ensures
            r@ == factory_chunk(SOURCE_PORT, be16(arg)),
            r.wf(),
    {
        chunk_u16(SOURCE_PORT, arg)
    }

    pub fn targetPort(arg: u16) -> (r: HepChunk)
        ensures
            r@ == factory_chunk(TARGET_PORT, be16(arg)),
            r.wf(),
    {
        chunk_u16(TARGET_PORT, arg)
    }

    pub fn timestampSec(arg: u32) -> (r: HepChunk)
        ensures
            r@ == factory_chunk(TIMESTAMP_SEC, be32(arg)),
            r.wf(),
    {
        chunk_u32(TIMESTAMP_SEC, arg)
    }

    pub fn timestampMicrosecOffset(arg: u32) -> (r: HepChunk)
        ensures
            r@ == factory_chunk(TIMESTAMP_MICROSEC_OFFSET, be32(arg)),
            r.wf(),
    {
        chunk_u32(TIMESTAMP_MICROSEC_OFFSET, arg)
    }

    pub fn protocolType(arg: u8) -> (r: HepChunk)
        ensures
            r@ == factory_chunk(PROTOCOL_TYPE, seq![arg]),
            r.wf(),
    {
        chunk_u8(PROTOCOL_TYPE, arg)
    }

    pub fn captureAgentId(arg: u32) -> (r: HepChunk)
        ensures
            r@ == factory_chunk(CAPTURE_AGENT_ID, be32(arg)),
            r.wf(),
    {
        chunk_u32(CAPTURE_AGENT_ID, arg)
    }

    pub fn keepAliveTimer(arg: u16) -> (r: HepChunk)
        ensures
            r@ == factory_chunk(KEEP_ALIVE_TIMER, be16(arg)),
            r.wf(),
    {
        chunk_u16(KEEP_ALIVE_TIMER, arg)
    }

    pub fn authKey(arg: Vec<u8>) -> (r: Result<HepChunk, HepError>)
        ensures
            variable_chunk_result(AUTH_KEY, arg@, r),
    {
        chunk_vec(AUTH_KEY, arg)
    }

    pub fn packetPayload(arg: Vec<u8>) -> (r: Result<HepChunk, HepError>)
        ensures
            variable_chunk_result(PACKET_PAYLOAD, arg@, r),
    {
        chunk_vec(PACKET_PAYLOAD, arg)
    }

    pub fn gzipPacketPayload(arg: Vec<u8>) -> (r: Result<HepChunk, HepError>)
        ensures
            variable_chunk_result(GZIP_PACKET_PAYLOAD, arg@, r),
    {
        chunk_vec(GZIP_PACKET_PAYLOAD, arg)
    }

    pub fn correlationId(arg: Vec<u8>) -> (r: Result<HepChunk, HepError>)
        ensures
            variable_chunk_result(CORRELATION_ID, arg@, r),
    {
        chunk_vec(CORRELATION_ID, arg)
    }

    pub fn vlanId(arg: u16) -> (r: HepChunk)
        ensures
            r@ == factory_chunk(VLAN_ID, be16(arg)),
            r.wf(),
    {
        chunk_u16(VLAN_ID, arg)
    }

    pub fn groupId(arg: Vec<u8>) -> (r: Result<HepChunk, HepError>)
        ensures
            variable_chunk_result(GROUP_ID, arg@, r),
    {
        chunk_vec(GROUP_ID, arg)
    }

    pub fn sourceMac(arg: u64) -> (r: HepChunk)
        ensures
            r@ == factory_chunk(SOURCE_MAC, be48(arg)),
            r.wf(),
    {
        chunk_mac(SOURCE_MAC, arg)
    }

    pub fn targetMac(arg: u64) -> (r: HepChunk)
        ensures
            r@ == factory_chunk(TARGET_MAC, be48(arg)),
            r.wf(),
    {
        chunk_mac(TARGET_MAC, arg)
    }

    pub fn ethernetType(arg: u16) -> (r: HepChunk)
        ensures
            r@ == factory_chunk(ETHERNET_TYPE, be16(arg)),
            r.wf(),
    {
        chunk_u16(ETHERNET_TYPE, arg)
    }

    pub fn tcpFlag(arg: u16) -> (r: HepChunk)
        ensures
            r@ == factory_chunk(TCP_FLAG, be16(arg)),
            r.wf(),
    {
        chunk_u16(TCP_FLAG, arg)
    }

    pub fn mosValue(arg: u16) -> (r: HepChunk)
        ensures
            r@ == factory_chunk(MOS_VALUE, be16(arg)),
            r.wf(),
    {
        chunk_u16(MOS_VALUE, arg)
    }

    pub fn rFactor(arg: u16) -> (r: HepChunk)
        ensures
            r@ == factory_chunk(R_FACTOR, be16(arg)),
            r.wf(),
    {
        chunk_u16(R_FACTOR, arg)
    }

    pub fn geoLocation(arg: Vec<u8>) -> (r: Result<HepChunk, HepError>)
        ensures
            variable_chunk_result(GEO_LOCATION, arg@, r),
    {
        chunk_vec(GEO_LOCATION, arg)
    }

    pub fn jitter(arg: u32) -> (r: HepChunk)
        ensures
            r@ == factory_chunk(JITTER, be32(arg)),
            r.wf(),
    {
        chunk_u32(JITTER, arg)
    }

    pub fn transactionType(arg: Vec<u8>) -> (r: Result<HepChunk, HepError>)
        ensures
            variable_chunk_result(TRANSACTION_TYPE, arg@, r),
    {
        chunk_vec(TRANSACTION_TYPE, arg)
    }

    /// The payload is the UTF-8 encoding of `arg`.
    pub fn payloadJson(arg: String) -> (r: Result<HepChunk, HepError>)
        ensures
            variable_chunk_result(PAYLOAD_JSON, encode_utf8(arg@), r),
    {
        let bytes = arg.as_str().as_bytes_vec();
        chunk_vec(PAYLOAD_JSON, bytes)
    }
}

} // verus!
