use vstd::prelude::*;

verus! {

/// The 16-bit identifier that gives a chunk its meaning.
#[derive(Clone, Copy, Debug, PartialEq, Eq, Structural, PartialOrd, Ord, Hash)]
pub struct HepChunkTypeId(pub u16);

impl HepChunkTypeId {
    /// Wraps a raw identifier.
    pub fn new(value: u16) -> (r: Self)
        ensures
            r.0 == value,
    {
        HepChunkTypeId(value)
    }

    /// The identifier as the tuple of primitive values it is written with.
    pub fn to_primitive_values(&self) -> (r: (u16,))
        ensures
            r.0 == self.0,
    {
        (self.0,)
    }
}

pub const IP_PROTOCOL_FAMILY: u16 = 0x0001;
pub const IP_PROTOCOL_ID: u16 = 0x0002;
pub const IPV4_SOURCE_ADDRESS: u16 = 0x0003;
pub const IPV4_TARGET_ADDRESS: u16 = 0x0004;
pub const IPV6_SOURCE_ADDRESS: u16 = 0x0005;
pub const IPV6_TARGET_ADDRESS: u16 = 0x0006;
pub const SOURCE_PORT: u16 = 0x0007;
pub const TARGET_PORT: u16 = 0x0008;
pub const TIMESTAMP_SEC: u16 = 0x0009;
pub const TIMESTAMP_MICROSEC_OFFSET: u16 = 0x000a;
pub const PROTOCOL_TYPE: u16 = 0x000b;
pub const CAPTURE_AGENT_ID: u16 = 0x000c;
pub const KEEP_ALIVE_TIMER: u16 = 0x000d;
pub const AUTH_KEY: u16 = 0x000e;
pub const PACKET_PAYLOAD: u16 = 0x000f;
pub const GZIP_PACKET_PAYLOAD: u16 = 0x0010;
pub const CORRELATION_ID: u16 = 0x0011;
pub const VLAN_ID: u16 = 0x0012;
pub const GROUP_ID: u16 = 0x0013;
pub const SOURCE_MAC: u16 = 0x0014;
pub const TARGET_MAC: u16 = 0x0015;
pub const ETHERNET_TYPE: u16 = 0x0016;
pub const TCP_FLAG: u16 = 0x0017;

/// Identifiers from here up to `RESERVED_LAST` are kept for future chunk kinds.
pub const RESERVED_FIRST: u16 = 0x0018;
pub const RESERVED_LAST: u16 = 0x001f;

pub const MOS_VALUE: u16 = 0x0020;
pub const R_FACTOR: u16 = 0x0021;
pub const GEO_LOCATION: u16 = 0x0022;
pub const JITTER: u16 = 0x0023;
pub const TRANSACTION_TYPE: u16 = 0x0024;
pub const PAYLOAD_JSON: u16 = 0x0025;

/// Values of the IP protocol family chunk.
pub const IP_FAMILY_IPV4: u8 = 0x02;
pub const IP_FAMILY_IPV6: u8 = 0x0a;

/// Values of the IP protocol id chunk.
pub const IP_PROTO_TCP: u8 = 0x06;
pub const IP_PROTO_UDP: u8 = 0x11;

/// Values of the protocol type chunk.
pub const SUB_PROTOCOL_RESERVED: u8 = 0x00;
pub const SUB_PROTOCOL_SIP: u8 = 0x01;
pub const SUB_PROTOCOL_XMPP: u8 = 0x02;
pub const SUB_PROTOCOL_SDP: u8 = 0x03;

} // verus!
