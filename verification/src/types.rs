//! The messages of BMP and their parts, each with the bytes that it is read
//! from.

use crate::addr::IpAddress;
use crate::bgp::bgp_header_parse;
use crate::bgp::bgp_open_parse;
use crate::bgp::open_parse;
use crate::bgp::BGP_HEADER_LEN;
use crate::bgp::BGP_OPEN;
use crate::error::invalid_utf8_text;
use crate::error::invalid_value_text;
use crate::error::truncated_text;
use crate::error::unexpected_record_text;
use crate::error::Error;
use crate::error::Failure;
use crate::wire::be_value;
use crate::wire::buf_advance;
use crate::wire::buf_bytes;
use crate::wire::buf_get_u128;
use crate::wire::buf_get_u16;
use crate::wire::buf_get_u32;
use crate::wire::buf_get_u8;
use crate::wire::buf_len;
use crate::text::string_from_utf8;
use crate::wire::is_tail_of;
use crate::wire::lemma_tail_of_tail;
use crate::wire::take_bytes;
use crate::wire::take_u16;
use crate::wire::take_u8;
use bytes::BytesMut;
use vstd::prelude::*;
use vstd::std_specs::convert::FromSpecImpl;
use vstd::utf8::decode_utf8;
use vstd::utf8::valid_utf8;

verus! {

/// BMP message types (RFC 7854, section 10.1).
#[derive(Copy, Clone, Debug, Eq, PartialEq, Hash, Structural)]
pub enum MessageKind {
    /// Route Monitoring
    RouteMonitoring,
    /// Statistics Report
    StatisticsReport,
    /// Peer Down
    PeerDown,
    /// Peer Up
    PeerUp,
    /// Initiation
    Initiation,
    /// Termination
    Termination,
    /// Route Mirroring
    RouteMirroring,
}

impl MessageKind {
    /// The number that stands for this kind on the wire.
    pub open spec fn code(self) -> u8 {
        match self {
            MessageKind::RouteMonitoring => 0,
            MessageKind::StatisticsReport => 1,
            MessageKind::PeerDown => 2,
            MessageKind::PeerUp => 3,
            MessageKind::Initiation => 4,
            MessageKind::Termination => 5,
            MessageKind::RouteMirroring => 6,
        }
    }

    /// The kind that `value` stands for, if it stands for one.
    pub open spec fn of(value: u8) -> Option<MessageKind> {
        if value == 0 {
            Some(MessageKind::RouteMonitoring)
        } else if value == 1 {
            Some(MessageKind::StatisticsReport)
        } else if value == 2 {
            Some(MessageKind::PeerDown)
        } else if value == 3 {
            Some(MessageKind::PeerUp)
        } else if value == 4 {
            Some(MessageKind::Initiation)
        } else if value == 5 {
            Some(MessageKind::Termination)
        } else if value == 6 {
            Some(MessageKind::RouteMirroring)
        } else {
            None
        }
    }

    /// The name of this kind.
    pub open spec fn name(self) -> Seq<char> {
        match self {
            MessageKind::RouteMonitoring => "route_monitoring"@,
            MessageKind::StatisticsReport => "statistics_report"@,
            MessageKind::PeerUp => "peer_up"@,
            MessageKind::PeerDown => "peer_down"@,
            MessageKind::Initiation => "initiation"@,
            MessageKind::Termination => "termination"@,
            MessageKind::RouteMirroring => "route_mirroring"@,
        }
    }

    /// The kind that `value` stands for. Any number above six is refused.
    pub fn try_from(value: u8) -> (r: Result<MessageKind, Error>)
        ensures
            match r {
                Ok(kind) => MessageKind::of(value) == Some(kind),
                Err(e) => MessageKind::of(value) is None && e.failure() == Failure::Decode(
                    invalid_value_text("Message Type"@, value as nat),
                ),
            },
    {
        match value {
            0 => Ok(MessageKind::RouteMonitoring),
            1 => Ok(MessageKind::StatisticsReport),
            2 => Ok(MessageKind::PeerDown),
            3 => Ok(MessageKind::PeerUp),
            4 => Ok(MessageKind::Initiation),
            5 => Ok(MessageKind::Termination),
            6 => Ok(MessageKind::RouteMirroring),
            v => Err(Error::invalid_value("Message Type", v as u32)),
        }
    }

    /// The name of this kind.
    pub fn to_string(&self) -> (s: String)
        ensures
            s@ == self.name(),
    {
        match self {
            MessageKind::RouteMonitoring => String::from_str("route_monitoring"),
            MessageKind::StatisticsReport => String::from_str("statistics_report"),
            MessageKind::PeerUp => String::from_str("peer_up"),
            MessageKind::PeerDown => String::from_str("peer_down"),
            MessageKind::Initiation => String::from_str("initiation"),
            MessageKind::Termination => String::from_str("termination"),
            MessageKind::RouteMirroring => String::from_str("route_mirroring"),
        }
    }
}

/// BMP peer types (RFC 7854, section 10.2).
#[derive(Copy, Clone, Debug, Eq, PartialEq, Hash, Structural)]
pub enum PeerType {
    /// Global Instance Peer
    GlobalInstance,
    /// RD Instance Peer
    RdInstance,
    /// Local Instance Peer
    LocalInstance,
}

impl PeerType {
    /// The number that stands for this type on the wire.
    pub open spec fn code(self) -> u8 {
        match self {
            PeerType::GlobalInstance => 0,
            PeerType::RdInstance => 1,
            PeerType::LocalInstance => 2,
        }
    }

    /// The type that `value` stands for, if it stands for one.
    pub open spec fn of(value: u8) -> Option<PeerType> {
        if value == 0 {
            Some(PeerType::GlobalInstance)
        } else if value == 1 {
            Some(PeerType::RdInstance)
        } else if value == 2 {
            Some(PeerType::LocalInstance)
        } else {
            None
        }
    }

    /// The name of this type.
    pub open spec fn name(self) -> Seq<char> {
        match self {
            PeerType::GlobalInstance => "global"@,
            PeerType::RdInstance => "rd"@,
            PeerType::LocalInstance => "local"@,
        }
    }

    /// The type that `value` stands for. Any number above two is refused.
    pub fn try_from(value: u8) -> (r: Result<PeerType, Error>)
        ensures
            match r {
                Ok(peer_type) => PeerType::of(value) == Some(peer_type),
                Err(e) => PeerType::of(value) is None && e.failure() == Failure::Decode(
                    invalid_value_text("Peer Type"@, value as nat),
                ),
            },
    {
        match value {
            0 => Ok(PeerType::GlobalInstance),
            1 => Ok(PeerType::RdInstance),
            2 => Ok(PeerType::LocalInstance),
            v => Err(Error::invalid_value("Peer Type", v as u32)),
        }
    }

    /// The name of this type.
    pub fn to_string(&self) -> (s: String)
        ensures
            s@ == self.name(),
    {
        match self {
            PeerType::GlobalInstance => String::from_str("global"),
            PeerType::RdInstance => String::from_str("rd"),
            PeerType::LocalInstance => String::from_str("local"),
        }
    }
}

/// BMP peer flags (RFC 7854, section 10.3).
#[derive(Copy, Clone, Debug, Eq, PartialEq, Hash, Structural)]
#[allow(non_snake_case)]
pub struct PeerFlags {
    /// The peer address is an IPv6 address.
    pub V: bool,
    /// The message reflects the post-policy Adj-RIB-In.
    pub L: bool,
    /// The message uses the two-byte AS_PATH format.
    pub A: bool,
}

impl PeerFlags {
    /// The flags that a byte holds: bit 7 is `V`, bit 6 is `L`, bit 5 is `A`;
    /// the other bits are ignored.
    pub open spec fn of(value: u8) -> PeerFlags {
        PeerFlags {
            V: value & 0b10000000 == 0b10000000,
            L: value & 0b01000000 == 0b01000000,
            A: value & 0b00100000 == 0b00100000,
        }
    }
}

impl From<u8> for PeerFlags {
    fn from(value: u8) -> (flags: PeerFlags) {
        PeerFlags {
            V: value & 0b10000000 == 0b10000000,
            L: value & 0b01000000 == 0b01000000,
            A: value & 0b00100000 == 0b00100000,
        }
    }
}

impl FromSpecImpl<u8> for PeerFlags {
    open spec fn obeys_from_spec() -> bool {
        true
    }

    open spec fn from_spec(value: u8) -> PeerFlags {
        PeerFlags::of(value)
    }
}

/// BMP Initiation message TLVs (RFC 7854, section 10.5).
#[derive(Copy, Clone, Debug, Eq, PartialEq, Hash, Structural)]
pub enum InformationType {
    /// Generic string
    String,
    /// sysDescr
    SysDescr,
    /// sysName
    SysName,
}

impl InformationType {
    /// The number that stands for this type on the wire.
    pub open spec fn code(self) -> u16 {
        match self {
            InformationType::String => 0,
            InformationType::SysDescr => 1,
            InformationType::SysName => 2,
        }
    }

    /// The type that `value` stands for, if it stands for one.
    pub open spec fn of(value: u16) -> Option<InformationType> {
        if value == 0 {
            Some(InformationType::String)
        } else if value == 1 {
            Some(InformationType::SysDescr)
        } else if value == 2 {
            Some(InformationType::SysName)
        } else {
            None
        }
    }

    /// The name of this type.
    pub open spec fn name(self) -> Seq<char> {
        match self {
            InformationType::String => "string"@,
            InformationType::SysDescr => "sys_descr"@,
            InformationType::SysName => "sys_name"@,
        }
    }

    /// The type that `value` stands for. Any number above two is refused.
    pub fn try_from(value: u16) -> (r: Result<InformationType, Error>)
        ensures
            match r {
                Ok(information_type) => InformationType::of(value) == Some(information_type),
                Err(e) => InformationType::of(value) is None && e.failure() == Failure::Decode(
                    invalid_value_text("Information Type"@, value as nat),
                ),
            },
    {
        match value {
            0 => Ok(InformationType::String),
            1 => Ok(InformationType::SysDescr),
            2 => Ok(InformationType::SysName),
            v => Err(Error::invalid_value("Information Type", v as u32)),
        }
    }

    /// The name of this type.
    pub fn to_string(&self) -> (s: String)
        ensures
            s@ == self.name(),
    {
        match self {
            InformationType::String => String::from_str("string"),
            InformationType::SysDescr => String::from_str("sys_descr"),
            InformationType::SysName => String::from_str("sys_name"),
        }
    }
}

/// The address in a 16-byte address field: all of it for IPv6, its last
/// four bytes for IPv4, whose first twelve are reserved.
pub open spec fn address_of(v6: bool, field: Seq<u8>) -> IpAddress {
    if v6 {
        IpAddress::V6(be_value(field) as u128)
    } else {
        IpAddress::V4(be_value(field.subrange(12, 16)) as u32)
    }
}

/// Reads a 16-byte address field.
fn decode_address(v6: bool, buf: &mut BytesMut) -> (addr: IpAddress)
    requires
        buf_bytes(*old(buf)).len() >= 16,
    ensures
        addr == address_of(v6, buf_bytes(*old(buf)).take(16)),
        buf_bytes(*final(buf)) == buf_bytes(*old(buf)).skip(16),
{
    let ghost field = buf_bytes(*buf).take(16);
    if v6 {
        IpAddress::V6(buf_get_u128(buf))
    } else {
        buf_advance(buf, 12);
        assert(buf_bytes(*buf).take(4) =~= field.subrange(12, 16));
        let bits = buf_get_u32(buf);
        assert(buf_bytes(*buf) =~= buf_bytes(*old(buf)).skip(16));
        IpAddress::V4(bits)
    }
}

/// The per-peer header, which follows the common header in most BMP
/// messages.
#[derive(Copy, Clone, Debug)]
pub struct PeerHeader {
    /// Peer type
    pub peer_type: PeerType,
    /// Peer flags
    pub peer_flags: PeerFlags,
    /// Peer distinguisher; what it means depends on the peer type
    pub peer_distinguisher: (u32, u32),
    /// Peer address (the remote address of the BGP session)
    pub peer_addr: IpAddress,
    /// Peer ASN
    pub peer_asn: u32,
    /// Peer BGP router ID, the bits of an IPv4 address
    pub peer_bgp_id: u32,
    /// Timestamp (seconds since the epoch)
    pub timestamp: u32,
    /// Milliseconds to be added to `timestamp`
    pub timestamp_ms: u32,
}

/// The number of bytes of a per-peer header.
pub const PEER_HEADER_LEN: usize = 42;

impl PeerHeader {
    /// The per-peer header that `bytes` begin with: the peer type, the flags,
    /// eight bytes of distinguisher, sixteen of address, four of AS number
    /// (the first two reserved where the flag `A` is set), the router ID, and
    /// the two halves of the timestamp.
    pub open spec fn of(bytes: Seq<u8>) -> Result<PeerHeader, Failure> {
        if bytes.len() < PEER_HEADER_LEN {
            Err(Failure::Decode(truncated_text()))
        } else if PeerType::of(bytes[0]) is None {
            Err(Failure::Decode(invalid_value_text("Peer Type"@, bytes[0] as nat)))
        } else {
            let flags = PeerFlags::of(bytes[1]);
            Ok(
                PeerHeader {
                    peer_type: PeerType::of(bytes[0])->0,
                    peer_flags: flags,
                    peer_distinguisher: (
                        be_value(bytes.subrange(2, 6)) as u32,
                        be_value(bytes.subrange(6, 10)) as u32,
                    ),
                    peer_addr: address_of(flags.V, bytes.subrange(10, 26)),
                    peer_asn: if flags.A {
                        be_value(bytes.subrange(28, 30)) as u32
                    } else {
                        be_value(bytes.subrange(26, 30)) as u32
                    },
                    peer_bgp_id: be_value(bytes.subrange(30, 34)) as u32,
                    timestamp: be_value(bytes.subrange(34, 38)) as u32,
                    timestamp_ms: be_value(bytes.subrange(38, 42)) as u32,
                },
            )
        }
    }

    /// Reads a per-peer header off the front of `buf`.
    pub fn decode(buf: &mut BytesMut) -> (r: Result<PeerHeader, Error>)
        ensures
            match r {
                Ok(header) => PeerHeader::of(buf_bytes(*old(buf))) == Ok::<PeerHeader, Failure>(
                    header,
                ) && buf_bytes(*final(buf)) == buf_bytes(*old(buf)).skip(PEER_HEADER_LEN as int),
                Err(e) => PeerHeader::of(buf_bytes(*old(buf))) == Err::<PeerHeader, Failure>(
                    e.failure(),
                ) && is_tail_of(buf_bytes(*final(buf)), buf_bytes(*old(buf))),
            },
    {
        let ghost bytes = buf_bytes(*buf);
        if buf_len(buf) < PEER_HEADER_LEN {
            assert(bytes.skip(0) =~= bytes);
            return Err(Error::truncated());
        }
        let peer_type = match PeerType::try_from(buf_get_u8(buf)) {
            Ok(t) => t,
            Err(e) => {
                return Err(e);
            },
        };
        let peer_flags = PeerFlags::from(buf_get_u8(buf));
        assert(buf_bytes(*buf) =~= bytes.skip(2));
        assert(bytes.skip(2).take(4) =~= bytes.subrange(2, 6));
        let d0 = buf_get_u32(buf);
        assert(buf_bytes(*buf) =~= bytes.skip(6));
        assert(bytes.skip(6).take(4) =~= bytes.subrange(6, 10));
        let d1 = buf_get_u32(buf);
        assert(buf_bytes(*buf) =~= bytes.skip(10));
        assert(bytes.skip(10).take(16) =~= bytes.subrange(10, 26));
        let peer_addr = decode_address(peer_flags.V, buf);
        assert(buf_bytes(*buf) =~= bytes.skip(26));
        let peer_asn = if peer_flags.A {
            buf_advance(buf, 2);
            assert(buf_bytes(*buf) =~= bytes.skip(28));
            assert(bytes.skip(28).take(2) =~= bytes.subrange(28, 30));
            buf_get_u16(buf) as u32
        } else {
            assert(bytes.skip(26).take(4) =~= bytes.subrange(26, 30));
            buf_get_u32(buf)
        };
        assert(buf_bytes(*buf) =~= bytes.skip(30));
        assert(bytes.skip(30).take(4) =~= bytes.subrange(30, 34));
        let peer_bgp_id = buf_get_u32(buf);
        assert(buf_bytes(*buf) =~= bytes.skip(34));
        assert(bytes.skip(34).take(4) =~= bytes.subrange(34, 38));
        let timestamp = buf_get_u32(buf);
        assert(buf_bytes(*buf) =~= bytes.skip(38));
        assert(bytes.skip(38).take(4) =~= bytes.subrange(38, 42));
        let timestamp_ms = buf_get_u32(buf);
        assert(buf_bytes(*buf) =~= bytes.skip(42));
        Ok(
            PeerHeader {
                peer_type,
                peer_flags,
                peer_distinguisher: (d0, d1),
                peer_addr,
                peer_asn,
                peer_bgp_id,
                timestamp,
                timestamp_ms,
            },
        )
    }
}

/// An Information TLV, as Initiation and Peer Up messages carry them.
#[derive(Clone, Debug)]
pub struct InformationTlv {
    /// The type of the information
    pub information_type: InformationType,
    /// The information
    pub value: String,
}

/// An [`InformationTlv`] with its value as a sequence of characters.
pub struct InformationTlvView {
    pub information_type: InformationType,
    pub value: Seq<char>,
}

impl View for InformationTlv {
    type V = InformationTlvView;

    open spec fn view(&self) -> InformationTlvView {
        InformationTlvView { information_type: self.information_type, value: self.value@ }
    }
}

/// The views of a list of TLVs, in order.
pub open spec fn tlv_views(tlvs: Seq<InformationTlv>) -> Seq<InformationTlvView> {
    Seq::new(tlvs.len(), |i: int| tlvs[i]@)
}

impl InformationTlv {
    /// The number of bytes that a TLV takes after its type code: two of length
    /// and as many of value as the length says.
    pub open spec fn size(bytes: Seq<u8>) -> nat {
        2 + be_value(bytes.take(2))
    }

    /// The TLV of type code `kind` whose length and value `bytes` begin with.
    /// The type code must stand for a type, the value must be there in full,
    /// and it must be well-formed UTF-8.
    pub open spec fn of(kind: u16, bytes: Seq<u8>) -> Result<InformationTlvView, Failure> {
        if InformationType::of(kind) is None {
            Err(Failure::Decode(invalid_value_text("Information Type"@, kind as nat)))
        } else if bytes.len() < 2 || bytes.len() < InformationTlv::size(bytes) {
            Err(Failure::Decode(truncated_text()))
        } else if !valid_utf8(bytes.subrange(2, InformationTlv::size(bytes) as int)) {
            Err(Failure::Decode(invalid_utf8_text()))
        } else {
            Ok(
                InformationTlvView {
                    information_type: InformationType::of(kind)->0,
                    value: decode_utf8(bytes.subrange(2, InformationTlv::size(bytes) as int)),
                },
            )
        }
    }

    /// Reads the length and the value of a TLV off the front of `buf`; the
    /// caller has read its type code, `kind`.
    pub fn decode(kind: u16, buf: &mut BytesMut) -> (r: Result<InformationTlv, Error>)
        ensures
            match r {
                Ok(tlv) => InformationTlv::of(kind, buf_bytes(*old(buf))) == Ok::<
                    InformationTlvView,
                    Failure,
                >(tlv@) && buf_bytes(*final(buf)) == buf_bytes(*old(buf)).skip(
                    InformationTlv::size(buf_bytes(*old(buf))) as int,
                ),
                Err(e) => InformationTlv::of(kind, buf_bytes(*old(buf))) == Err::<
                    InformationTlvView,
                    Failure,
                >(e.failure()) && is_tail_of(buf_bytes(*final(buf)), buf_bytes(*old(buf))),
            },
    {
        let ghost bytes = buf_bytes(*buf);
        proof {
            assert(bytes.skip(0) =~= bytes);
        }
        let information_type = match InformationType::try_from(kind) {
            Ok(t) => t,
            Err(e) => {
                return Err(e);
            },
        };
        let len = match take_u16(buf) {
            Ok(n) => n as usize,
            Err(e) => {
                return Err(e);
            },
        };
        let raw = match take_bytes(buf, len) {
            Ok(v) => v,
            Err(e) => {
                return Err(e);
            },
        };
        proof {
            assert(raw@ =~= bytes.subrange(2, InformationTlv::size(bytes) as int));
            assert(buf_bytes(*buf) =~= bytes.skip(InformationTlv::size(bytes) as int));
        }
        match string_from_utf8(raw) {
            Some(value) => Ok(InformationTlv { information_type, value }),
            None => Err(Error::invalid_utf8()),
        }
    }
}

/// `more` after `front`, or the failure that `more` is.
pub open spec fn after_front(
    front: Seq<InformationTlvView>,
    more: Result<Seq<InformationTlvView>, Failure>,
) -> Result<Seq<InformationTlvView>, Failure> {
    match more {
        Ok(tlvs) => Ok(front + tlvs),
        Err(f) => Err(f),
    }
}

/// The TLVs that `bytes` are made of, each with a type code of two bytes
/// before its length and value. Where `lenient` is set, a type code that
/// stands for no type ends the list, and what follows it is not read;
/// otherwise it is a failure.
pub open spec fn tlvs_of(bytes: Seq<u8>, lenient: bool) -> Result<Seq<InformationTlvView>, Failure>
    decreases bytes.len(),
{
    if bytes.len() == 0 {
        Ok(Seq::empty())
    } else if bytes.len() < 2 {
        Err(Failure::Decode(truncated_text()))
    } else {
        let kind = be_value(bytes.take(2)) as u16;
        let body = bytes.skip(2);
        if lenient && InformationType::of(kind) is None {
            Ok(Seq::empty())
        } else {
            match InformationTlv::of(kind, body) {
                Err(f) => Err(f),
                Ok(tlv) => {
                    if InformationTlv::size(body) <= body.len() {
                        after_front(
                            seq![tlv],
                            tlvs_of(body.skip(InformationTlv::size(body) as int), lenient),
                        )
                    } else {
                        Err(Failure::Decode(truncated_text()))
                    }
                },
            }
        }
    }
}

/// Reads TLVs off `buf` until it is empty or, where `lenient` is set, until a
/// type code stands for no type.
pub fn decode_tlvs(buf: &mut BytesMut, lenient: bool) -> (r: Result<Vec<InformationTlv>, Error>)
    ensures
        match r {
            Ok(tlvs) => tlvs_of(buf_bytes(*old(buf)), lenient) == Ok::<
                Seq<InformationTlvView>,
                Failure,
            >(tlv_views(tlvs@)) && (!lenient ==> buf_bytes(*final(buf)).len() == 0),
            Err(e) => tlvs_of(buf_bytes(*old(buf)), lenient) == Err::<
                Seq<InformationTlvView>,
                Failure,
            >(e.failure()),
        },
        is_tail_of(buf_bytes(*final(buf)), buf_bytes(*old(buf))),
{
    let ghost whole = buf_bytes(*buf);
    let mut tlvs: Vec<InformationTlv> = Vec::new();
    proof {
        assert(whole.skip(0) =~= whole);
        assert(tlv_views(tlvs@) =~= Seq::empty());
        assert(after_front(tlv_views(tlvs@), tlvs_of(whole, lenient)) =~= tlvs_of(whole, lenient))
            by {
            match tlvs_of(whole, lenient) {
                Ok(t) => {
                    assert(Seq::<InformationTlvView>::empty() + t =~= t);
                },
                Err(_) => {},
            }
        }
    }
    while buf_len(buf) > 0
        invariant
            whole == buf_bytes(*old(buf)),
            is_tail_of(buf_bytes(*buf), whole),
            tlvs_of(whole, lenient) == after_front(
                tlv_views(tlvs@),
                tlvs_of(buf_bytes(*buf), lenient),
            ),
        decreases buf_bytes(*buf).len(),
    {
        let ghost bytes = buf_bytes(*buf);
        let ghost front = tlv_views(tlvs@);
        let kind = match take_u16(buf) {
            Ok(k) => k,
            Err(e) => {
                return Err(e);
            },
        };
        proof {
            lemma_skip_tail(bytes, whole, 2);
        }
        if lenient && kind > 2 {
            proof {
                assert(front + Seq::<InformationTlvView>::empty() =~= front);
            }
            return Ok(tlvs);
        }
        let ghost body = buf_bytes(*buf);
        let tlv = match InformationTlv::decode(kind, buf) {
            Ok(t) => t,
            Err(e) => {
                proof {
                    lemma_tail_of_tail(buf_bytes(*buf), body, whole);
                }
                return Err(e);
            },
        };
        tlvs.push(tlv);
        proof {
            lemma_skip_tail(body, whole, InformationTlv::size(body) as int);
            let rest = tlvs_of(buf_bytes(*buf), lenient);
            assert(tlv_views(tlvs@) =~= front + seq![tlv@]);
            match rest {
                Ok(t) => {
                    assert(front + (seq![tlv@] + t) =~= (front + seq![tlv@]) + t);
                },
                Err(_) => {},
            }
        }
    }
    proof {
        assert(tlv_views(tlvs@) + Seq::<InformationTlvView>::empty() =~= tlv_views(tlvs@));
    }
    Ok(tlvs)
}

/// The OPEN message that `bytes` begin with, header and all, and the bytes
/// that follow it. The header must be there in full and say that an OPEN
/// message follows, and the BGP parser must accept what follows.
pub open spec fn open_record_of(bytes: Seq<u8>) -> Result<(bgp_rs::Open, Seq<u8>), Failure> {
    if bytes.len() < BGP_HEADER_LEN {
        Err(Failure::Wire)
    } else if bytes[18] != BGP_OPEN {
        Err(Failure::Decode(unexpected_record_text(bytes[18] as nat)))
    } else {
        let body = bytes.skip(BGP_HEADER_LEN as int);
        let parsed = open_parse(body);
        if parsed.open is Some && parsed.consumed <= body.len() {
            Ok((parsed.open->0, body.skip(parsed.consumed as int)))
        } else {
            Err(Failure::Wire)
        }
    }
}

/// Reads a BGP OPEN message, header and all, off the front of `buf`.
pub fn decode_open_record(buf: &mut BytesMut) -> (r: Result<bgp_rs::Open, Error>)
    ensures
        match r {
            Ok(open) => open_record_of(buf_bytes(*old(buf))) == Ok::<
                (bgp_rs::Open, Seq<u8>),
                Failure,
            >((open, buf_bytes(*final(buf)))),
            Err(e) => open_record_of(buf_bytes(*old(buf))) == Err::<
                (bgp_rs::Open, Seq<u8>),
                Failure,
            >(e.failure()),
        },
        is_tail_of(buf_bytes(*final(buf)), buf_bytes(*old(buf))),
{
    let ghost bytes = buf_bytes(*buf);
    let header = match bgp_header_parse(buf) {
        Ok(h) => h,
        Err(e) => {
            return Err(Error::from(e));
        },
    };
    if header.record_type != BGP_OPEN {
        return Err(Error::unexpected_record(header.record_type));
    }
    let ghost body = buf_bytes(*buf);
    let r = bgp_open_parse(buf);
    proof {
        lemma_tail_of_tail(buf_bytes(*buf), body, bytes);
    }
    match r {
        Ok(open) => Ok(open),
        Err(e) => Err(Error::from(e)),
    }
}

/// A Peer Up notification: a peering session has come up.
#[derive(Clone, Debug)]
pub struct PeerUp {
    /// The local address of the BGP session
    pub local_addr: IpAddress,
    /// The local TCP port
    pub local_port: u16,
    /// The remote TCP port
    pub remote_port: u16,
    /// The OPEN message that the monitored router sent
    pub sent_open: Option<bgp_rs::Open>,
    /// The OPEN message that the monitored router received
    pub recv_open: Option<bgp_rs::Open>,
    /// Information TLVs
    pub information: Vec<InformationTlv>,
}

/// A [`PeerUp`] with its TLVs as a sequence of views.
pub struct PeerUpView {
    pub local_addr: IpAddress,
    pub local_port: u16,
    pub remote_port: u16,
    pub sent_open: Option<bgp_rs::Open>,
    pub recv_open: Option<bgp_rs::Open>,
    pub information: Seq<InformationTlvView>,
}

impl View for PeerUp {
    type V = PeerUpView;

    open spec fn view(&self) -> PeerUpView {
        PeerUpView {
            local_addr: self.local_addr,
            local_port: self.local_port,
            remote_port: self.remote_port,
            sent_open: self.sent_open,
            recv_open: self.recv_open,
            information: tlv_views(self.information@),
        }
    }
}

/// The number of bytes of a Peer Up message before its OPEN messages.
pub const PEER_UP_FIXED_LEN: usize = 20;

impl PeerUp {
    /// The Peer Up message that `bytes` are, for a peer whose addresses are
    /// IPv6 where `v6` is set: sixteen bytes of local address, the two ports,
    /// and then either nothing, or the OPEN message that was sent, the one
    /// that was received, and TLVs to the end.
    pub open spec fn of(v6: bool, bytes: Seq<u8>) -> Result<PeerUpView, Failure> {
        if bytes.len() < PEER_UP_FIXED_LEN {
            Err(Failure::Decode(truncated_text()))
        } else {
            let local_addr = address_of(v6, bytes.take(16));
            let local_port = be_value(bytes.subrange(16, 18)) as u16;
            let remote_port = be_value(bytes.subrange(18, 20)) as u16;
            let rest = bytes.skip(PEER_UP_FIXED_LEN as int);
            if rest.len() == 0 {
                Ok(
                    PeerUpView {
                        local_addr,
                        local_port,
                        remote_port,
                        sent_open: None,
                        recv_open: None,
                        information: Seq::empty(),
                    },
                )
            } else {
                match open_record_of(rest) {
                    Err(f) => Err(f),
                    Ok((sent, after_sent)) => match open_record_of(after_sent) {
                        Err(f) => Err(f),
                        Ok((received, after_received)) => match tlvs_of(after_received, false) {
                            Err(f) => Err(f),
                            Ok(information) => Ok(
                                PeerUpView {
                                    local_addr,
                                    local_port,
                                    remote_port,
                                    sent_open: Some(sent),
                                    recv_open: Some(received),
                                    information,
                                },
                            ),
                        },
                    },
                }
            }
        }
    }

    /// Reads a Peer Up message, which is all that `buf` holds.
    pub fn decode(peer_flags: &PeerFlags, buf: &mut BytesMut) -> (r: Result<PeerUp, Error>)
        ensures
            match r {
                Ok(peer_up) => PeerUp::of(peer_flags.V, buf_bytes(*old(buf))) == Ok::<
                    PeerUpView,
                    Failure,
                >(peer_up@) && buf_bytes(*final(buf)).len() == 0,
                Err(e) => PeerUp::of(peer_flags.V, buf_bytes(*old(buf))) == Err::<
                    PeerUpView,
                    Failure,
                >(e.failure()),
            },
            is_tail_of(buf_bytes(*final(buf)), buf_bytes(*old(buf))),
    {
        let ghost bytes = buf_bytes(*buf);
        proof {
            assert(bytes.skip(0) =~= bytes);
        }
        if buf_len(buf) < PEER_UP_FIXED_LEN {
            return Err(Error::truncated());
        }
        let local_addr = decode_address(peer_flags.V, buf);
        proof {
            assert(buf_bytes(*buf).take(2) =~= bytes.subrange(16, 18));
        }
        let local_port = buf_get_u16(buf);
        proof {
            assert(buf_bytes(*buf) =~= bytes.skip(18));
            assert(buf_bytes(*buf).take(2) =~= bytes.subrange(18, 20));
        }
        let remote_port = buf_get_u16(buf);
        let ghost rest = buf_bytes(*buf);
        proof {
            assert(rest =~= bytes.skip(20));
        }
        if buf_len(buf) == 0 {
            let information: Vec<InformationTlv> = Vec::new();
            proof {
                assert(tlv_views(information@) =~= Seq::empty());
            }
            return Ok(
                PeerUp {
                    local_addr,
                    local_port,
                    remote_port,
                    sent_open: None,
                    recv_open: None,
                    information,
                },
            );
        }
        let sent = match decode_open_record(buf) {
            Ok(open) => open,
            Err(e) => {
                proof {
                    lemma_tail_of_tail(buf_bytes(*buf), rest, bytes);
                }
                return Err(e);
            },
        };
        let ghost after_sent = buf_bytes(*buf);
        proof {
            lemma_tail_of_tail(after_sent, rest, bytes);
        }
        let received = match decode_open_record(buf) {
            Ok(open) => open,
            Err(e) => {
                proof {
                    lemma_tail_of_tail(buf_bytes(*buf), after_sent, bytes);
                }
                return Err(e);
            },
        };
        let ghost after_received = buf_bytes(*buf);
        proof {
            lemma_tail_of_tail(after_received, after_sent, bytes);
        }
        let r = decode_tlvs(buf, false);
        proof {
            lemma_tail_of_tail(buf_bytes(*buf), after_received, bytes);
        }
        match r {
            Ok(information) => Ok(
                PeerUp {
                    local_addr,
                    local_port,
                    remote_port,
                    sent_open: Some(sent),
                    recv_open: Some(received),
                    information,
                },
            ),
            Err(e) => Err(e),
        }
    }
}

/// A Peer Down notification: a peering session has ended.
#[derive(Clone, Debug)]
pub struct PeerDown {
    /// Why the session ended, as the number on the wire
    pub reason: u8,
    /// What follows the reason, as it stands on the wire
    pub data: Vec<u8>,
}

/// A [`PeerDown`] with its data as a sequence of bytes.
pub struct PeerDownView {
    pub reason: u8,
    pub data: Seq<u8>,
}

impl View for PeerDown {
    type V = PeerDownView;

    open spec fn view(&self) -> PeerDownView {
        PeerDownView { reason: self.reason, data: self.data@ }
    }
}

impl PeerDown {
    /// The Peer Down message that `bytes` are: one byte of reason, and data
    /// to the end.
    pub open spec fn of(bytes: Seq<u8>) -> Result<PeerDownView, Failure> {
        if bytes.len() < 1 {
            Err(Failure::Decode(truncated_text()))
        } else {
            Ok(PeerDownView { reason: bytes[0], data: bytes.skip(1) })
        }
    }

    /// Reads a Peer Down message, which is all that `buf` holds.
    pub fn decode(buf: &mut BytesMut) -> (r: Result<PeerDown, Error>)
        ensures
            match r {
                Ok(peer_down) => PeerDown::of(buf_bytes(*old(buf))) == Ok::<PeerDownView, Failure>(
                    peer_down@,
                ) && buf_bytes(*final(buf)).len() == 0,
                Err(e) => PeerDown::of(buf_bytes(*old(buf))) == Err::<PeerDownView, Failure>(
                    e.failure(),
                ) && buf_bytes(*final(buf)) == buf_bytes(*old(buf)),
            },
    {
        let reason = match take_u8(buf) {
            Ok(v) => v,
            Err(e) => {
                return Err(e);
            },
        };
        let n = buf_len(buf);
        let data = match take_bytes(buf, n) {
            Ok(v) => v,
            Err(e) => {
                return Err(e);
            },
        };
        proof {
            assert(data@ =~= buf_bytes(*old(buf)).skip(1));
        }
        Ok(PeerDown { reason, data })
    }
}

/// What a BMP message carries.
#[derive(Debug)]
pub enum MessageData {
    /// The message is of a kind whose payload is not read.
    Unimplemented,
    /// Initiation: sent once at the start of a session, to describe the
    /// monitored router
    Initiation(Vec<InformationTlv>),
    /// Peer Up: a peering session has come up.
    PeerUp((PeerHeader, PeerUp)),
    /// Peer Down: a peering session has ended.
    PeerDown((PeerHeader, PeerDown)),
    /// Route Monitoring: a BGP UPDATE message of a peering session
    RouteMonitoring((PeerHeader, bgp_rs::Update)),
}

/// A [`MessageData`] with each payload as its view.
pub enum MessageDataView {
    Unimplemented,
    Initiation(Seq<InformationTlvView>),
    PeerUp(PeerHeader, PeerUpView),
    PeerDown(PeerHeader, PeerDownView),
    RouteMonitoring(PeerHeader, bgp_rs::Update),
}

impl View for MessageData {
    type V = MessageDataView;

    open spec fn view(&self) -> MessageDataView {
        match self {
            MessageData::Unimplemented => MessageDataView::Unimplemented,
            MessageData::Initiation(tlvs) => MessageDataView::Initiation(tlv_views(tlvs@)),
            MessageData::PeerUp(pair) => MessageDataView::PeerUp(pair.0, pair.1@),
            MessageData::PeerDown(pair) => MessageDataView::PeerDown(pair.0, pair.1@),
            MessageData::RouteMonitoring(pair) => MessageDataView::RouteMonitoring(pair.0, pair.1),
        }
    }
}

/// A BMP message.
#[derive(Debug)]
pub struct BmpMessage {
    /// The BMP version, which should be 3
    pub version: u8,
    /// The kind of the message
    pub kind: MessageKind,
    /// What the message carries
    pub message: MessageData,
}

/// A [`BmpMessage`] with what it carries as a view.
pub struct BmpMessageView {
    pub version: u8,
    pub kind: MessageKind,
    pub message: MessageDataView,
}

impl View for BmpMessage {
    type V = BmpMessageView;

    open spec fn view(&self) -> BmpMessageView {
        BmpMessageView { version: self.version, kind: self.kind, message: self.message@ }
    }
}

/// What is left of a tail after skipping is a tail of the whole.
proof fn lemma_skip_tail(part: Seq<u8>, whole: Seq<u8>, k: int)
    requires
        is_tail_of(part, whole),
        0 <= k <= part.len(),
    ensures
        is_tail_of(part.skip(k), whole),
{
    assert(is_tail_of(part.skip(k), part));
    lemma_tail_of_tail(part.skip(k), part, whole);
}

} // verus!
