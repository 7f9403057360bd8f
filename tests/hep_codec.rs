use hep::chunk::HepChunk;
use hep::chunk_types::{
    HepChunkTypeId, IP_FAMILY_IPV4, IP_PROTOCOL_FAMILY, PACKET_PAYLOAD, PAYLOAD_JSON, SOURCE_MAC,
    SOURCE_PORT,
};
use hep::error::HepError;
use hep::factory::Chunk;
use hep::packet::{HepBuilder, HEP_ID};

fn be16(b: &[u8], i: usize) -> u16 {
    (b[i] as u16) << 8 | b[i + 1] as u16
}

#[test]
fn create_payload_chunk() {
    let c = Chunk::packetPayload(vec![1, 2, 3, 4, 5u8]).unwrap();
    assert_eq!(c.payload, vec![1, 2, 3, 4, 5]);
}

#[test]
fn payload_chunk_fields_and_bytes() {
    let c = Chunk::packetPayload(vec![1, 2, 3, 4, 5]).unwrap();
    assert_eq!(c.vendor_id, 0x0000);
    assert_eq!(c.type_id, HepChunkTypeId(0x000f));
    assert_eq!(c.type_id.0, PACKET_PAYLOAD);
    assert_eq!(c.length, 11);
    assert_eq!(c.payload, vec![1, 2, 3, 4, 5]);
    assert_eq!(c.encode(), vec![0x00, 0x00, 0x00, 0x0f, 0x00, 0x0b, 1, 2, 3, 4, 5]);
}

#[test]
fn packet_of_family_and_port() {
    let mut b = HepBuilder::new();
    b.add_chunk(Chunk::ipProtocolFamily(IP_FAMILY_IPV4)).unwrap();
    b.add_chunk(Chunk::sourcePort(5060)).unwrap();
    let h = b.build().unwrap();
    assert_eq!(h.total_length(), 21);
    assert_eq!(h.hep_id(), HEP_ID);
    let bytes = h.encode();
    assert_eq!(bytes.len(), 21);
    assert_eq!(&bytes[0..4], "HEP3".as_bytes());
    assert_eq!(be16(&bytes, 4), 21);
    assert_eq!(
        &bytes[6..],
        &[0, 0, 0, 1, 0, 7, 0x02, 0, 0, 0, 7, 0, 8, 0x13, 0xc4][..]
    );
}

#[test]
fn fixed_width_round_trips() {
    let c = Chunk::sourcePort(5060);
    let d = HepChunk::decode(&c.encode()).unwrap();
    assert_eq!(d, c);
    assert_eq!(d.type_id.0, SOURCE_PORT);
    assert_eq!(be16(&d.payload, 0), 5060);

    let c = Chunk::timestampSec(0x1234_5678);
    let d = HepChunk::decode(&c.encode()).unwrap();
    assert_eq!(d.payload, vec![0x12, 0x34, 0x56, 0x78]);
    assert_eq!(d.length, 10);

    let c = Chunk::ipProtocolFamily(IP_FAMILY_IPV4);
    let d = HepChunk::decode(&c.encode()).unwrap();
    assert_eq!(d.type_id.0, IP_PROTOCOL_FAMILY);
    assert_eq!(d.payload, vec![0x02]);
    assert_eq!(d.length, 7);

    let c = Chunk::ipv4SourceAddress([192, 168, 1, 2]);
    let d = HepChunk::decode(&c.encode()).unwrap();
    assert_eq!(d.payload, vec![192, 168, 1, 2]);
    assert_eq!(d.length, 10);

    let a = [1u8, 2, 3, 4, 5, 6, 7, 8, 9, 10, 11, 12, 13, 14, 15, 16];
    let c = Chunk::ipv6TargetAddress(a);
    let d = HepChunk::decode(&c.encode()).unwrap();
    assert_eq!(d.payload, a.to_vec());
    assert_eq!(d.length, 22);
}

#[test]
fn mac_chunk_keeps_six_low_bytes() {
    let c = Chunk::sourceMac(0x0000_a1b2_c3d4_e5f6);
    assert_eq!(c.type_id.0, SOURCE_MAC);
    assert_eq!(c.length, 12);
    assert_eq!(c.payload, vec![0xa1, 0xb2, 0xc3, 0xd4, 0xe5, 0xf6]);
    let d = HepChunk::decode(&c.encode()).unwrap();
    assert_eq!(d, c);
}

#[test]
fn factory_chunks_length_matches_payload() {
    let chunks = vec![
        Chunk::ipProtocolId(0x11),
        Chunk::targetPort(80),
        Chunk::timestampMicrosecOffset(7),
        Chunk::protocolType(1),
        Chunk::captureAgentId(2001),
        Chunk::keepAliveTimer(30),
        Chunk::vlanId(12),
        Chunk::targetMac(1),
        Chunk::ethernetType(0x0800),
        Chunk::tcpFlag(2),
        Chunk::mosValue(430),
        Chunk::rFactor(93),
        Chunk::jitter(5),
        Chunk::ipv4TargetAddress([10, 0, 0, 1]),
        Chunk::ipv6SourceAddress([0; 16]),
        Chunk::authKey(vec![9; 3]).unwrap(),
        Chunk::gzipPacketPayload(vec![]).unwrap(),
        Chunk::correlationId(vec![1, 2]).unwrap(),
        Chunk::groupId(vec![3]).unwrap(),
        Chunk::geoLocation(vec![4, 5, 6]).unwrap(),
        Chunk::transactionType(vec![7]).unwrap(),
    ];
    for c in &chunks {
        assert_eq!(c.length as usize, 6 + c.payload.len());
        assert_eq!(c.vendor_id, 0);
    }
}

#[test]
fn variable_chunk_boundaries() {
    let c = Chunk::authKey(vec![]).unwrap();
    assert_eq!(c.length, 6);
    let c = Chunk::packetPayload(vec![0xab; 65529]).unwrap();
    assert_eq!(c.length, 65535);
    assert_eq!(c.encode().len(), 65535);
    assert_eq!(Chunk::packetPayload(vec![0xab; 65530]), Err(HepError::PayloadTooLarge));
    assert_eq!(Chunk::groupId(vec![0; 70000]), Err(HepError::PayloadTooLarge));
}

#[test]
fn json_chunk_is_utf8() {
    let c = Chunk::payloadJson("{\"a\":\"é\"}".to_string()).unwrap();
    assert_eq!(c.type_id.0, PAYLOAD_JSON);
    assert_eq!(c.payload, "{\"a\":\"é\"}".as_bytes().to_vec());
    assert_eq!(c.length, 6 + 10);
}

#[test]
fn decode_rejects_malformed_input() {
    assert_eq!(HepChunk::decode(&[]), Err(HepError::MalformedChunk));
    assert_eq!(HepChunk::decode(&[0, 0, 0, 1, 0]), Err(HepError::MalformedChunk));
    assert_eq!(HepChunk::decode(&[0, 0, 0, 1, 0, 5]), Err(HepError::MalformedChunk));
    assert_eq!(HepChunk::decode(&[0, 0, 0, 1, 0, 8, 1]), Err(HepError::MalformedChunk));
}

#[test]
fn decode_reads_only_declared_length() {
    let d = HepChunk::decode(&[0, 3, 0, 0x0f, 0, 8, 1, 2, 99, 98]).unwrap();
    assert_eq!(d.vendor_id, 3);
    assert_eq!(d.type_id.0, 0x0f);
    assert_eq!(d.length, 8);
    assert_eq!(d.payload, vec![1, 2]);
}

#[test]
fn packet_length_is_header_plus_chunks() {
    let mut b = HepBuilder::new();
    b.add_chunk(Chunk::packetPayload(vec![1; 100]).unwrap()).unwrap();
    b.add_chunk(Chunk::timestampSec(1)).unwrap();
    b.add_chunk(Chunk::timestampSec(1)).unwrap();
    let h = b.build().unwrap();
    assert_eq!(h.total_length(), 6 + 106 + 10 + 10);
    assert_eq!(h.encode().len(), h.total_length() as usize);
    assert_eq!(h.chunks().len(), 3);
}

#[test]
fn chunks_keep_their_order() {
    let a = Chunk::sourcePort(1);
    let b = Chunk::targetPort(2);
    let c = Chunk::vlanId(3);
    let mut bld = HepBuilder::new();
    bld.add_chunk(a.clone()).unwrap();
    bld.add_chunk(b.clone()).unwrap();
    bld.add_chunk(c.clone()).unwrap();
    let abc = bld.build().unwrap().encode();
    let mut expected = abc[0..6].to_vec();
    expected.extend(a.encode());
    expected.extend(b.encode());
    expected.extend(c.encode());
    assert_eq!(abc, expected);

    let mut bld = HepBuilder::new();
    bld.add_chunk(b).unwrap();
    bld.add_chunk(a).unwrap();
    bld.add_chunk(c).unwrap();
    let bac = bld.build().unwrap().encode();
    assert_eq!(bac.len(), abc.len());
    assert_ne!(bac, abc);
}

#[test]
fn builder_refuses_use_after_build() {
    let mut b = HepBuilder::new();
    let h = b.build().unwrap();
    assert_eq!(h.total_length(), 6);
    assert_eq!(h.encode(), vec![0x48, 0x45, 0x50, 0x33, 0, 6]);
    assert!(matches!(b.build(), Err(HepError::BuilderMisuse)));
    assert_eq!(b.add_chunk(Chunk::sourcePort(1)), Err(HepError::BuilderMisuse));
}

#[test]
fn builder_refuses_oversized_packet() {
    let mut b = HepBuilder::new();
    b.add_chunk(Chunk::packetPayload(vec![0; 65529]).unwrap()).unwrap();
    assert!(matches!(b.build(), Err(HepError::PayloadTooLarge)));
    let mut b = HepBuilder::new();
    b.add_chunk(Chunk::packetPayload(vec![0; 65523]).unwrap()).unwrap();
    assert_eq!(b.build().unwrap().total_length(), 65535);
}

#[test]
fn type_id_primitive_values() {
    let t = HepChunkTypeId::new(0x0025);
    assert_eq!(t.to_primitive_values(), (0x0025,));
    assert_eq!(t.0, PAYLOAD_JSON);
}
