//! What the decoder has from the BGP parser: the header of a BGP message, the
//! OPEN message, and the capabilities that an OPEN message announces.

use crate::capabilities::entries_map;
use crate::capabilities::CapabilityModel;
use crate::capabilities::CapabilitySet;
use crate::capabilities::Family;
use crate::capabilities::FamilyEntry;
use crate::capabilities::FilterEntry;
use crate::wire::be_value;
use crate::wire::buf_bytes;
use crate::wire::is_tail_of;
use bytes::Buf;
use bytes::BytesMut;
use vstd::prelude::*;

verus! {

#[verifier::external_type_specification]
#[verifier::external_body]
pub struct ExOpen(bgp_rs::Open);

#[verifier::external_type_specification]
#[verifier::external_body]
pub struct ExUpdate(bgp_rs::Update);

#[verifier::external_type_specification]
#[verifier::external_body]
pub struct ExCapabilities(bgp_rs::Capabilities);

/// The number of bytes of the header of a BGP message.
pub const BGP_HEADER_LEN: usize = 19;

/// The record type of a BGP OPEN message.
pub const BGP_OPEN: u8 = 1;

/// The header of a BGP message.
#[derive(Copy, Clone, Debug)]
pub struct BgpHeader {
    /// The marker, sixteen bytes that are all ones in a well-formed message
    pub marker: [u8; 16],
    /// The length of the message in bytes, this header included
    pub length: u16,
    /// The type of the message that follows
    pub record_type: u8,
}

impl BgpHeader {
    /// Whether this is the header that `bytes` begin with: sixteen bytes of
    /// marker, two of length, one of record type.
    pub open spec fn heads(self, bytes: Seq<u8>) -> bool {
        &&& bytes.len() >= BGP_HEADER_LEN
        &&& self.marker@ == bytes.take(16)
        &&& self.length == be_value(bytes.subrange(16, 18))
        &&& self.record_type == bytes[18]
    }
}

/// `bgp_rs::Header::parse`, reading from the buffer: the parser takes sixteen
/// bytes of marker, two of length and one of record type, and fails only where
/// the buffer ends before that. Whatever happens, it only takes bytes off the
/// front of the buffer.
#[verifier::external_body]
pub(crate) fn bgp_header_parse(buf: &mut BytesMut) -> (r: Result<BgpHeader, std::io::Error>)
    ensures
        r is Ok <==> buf_bytes(*old(buf)).len() >= BGP_HEADER_LEN,
        r matches Ok(header) ==> header.heads(buf_bytes(*old(buf))),
        r is Ok ==> buf_bytes(*final(buf)) == buf_bytes(*old(buf)).skip(BGP_HEADER_LEN as int),
        is_tail_of(buf_bytes(*final(buf)), buf_bytes(*old(buf))),
{
    let h = bgp_rs::Header::parse(&mut buf.reader())?;
    Ok(BgpHeader { marker: h.marker, length: h.length, record_type: h.record_type })
}

/// What the BGP parser makes of the body of an OPEN message.
pub struct OpenParse {
    /// The message, where the bytes are read as one
    pub open: Option<bgp_rs::Open>,
    /// The number of bytes that the parser takes to read it
    pub consumed: nat,
}

/// What `bgp_rs::Open::parse` makes of `bytes`, which begin after the header
/// of the BGP message.
pub uninterp spec fn open_parse(bytes: Seq<u8>) -> OpenParse;

/// `bgp_rs::Open::parse`, reading from the buffer. Whether it accepts the
/// bytes, the message that it makes of them and the number of bytes that it
/// takes depend on the bytes alone: two calls on equal bytes give messages
/// with equal fields. (The filters of an outbound-route-filtering capability
/// stand in a hash set; they are equal as sets.) It never takes more than the
/// buffer holds, and only off its front.
#[verifier::external_body]
pub(crate) fn bgp_open_parse(buf: &mut BytesMut) -> (r: Result<bgp_rs::Open, std::io::Error>)
    ensures
        r is Ok <==> open_parse(buf_bytes(*old(buf))).open is Some,
        r matches Ok(open) ==> open_parse(buf_bytes(*old(buf))).open == Some(open),
        r is Ok ==> open_parse(buf_bytes(*old(buf))).consumed <= buf_bytes(*old(buf)).len()
            && buf_bytes(*final(buf)) == buf_bytes(*old(buf)).skip(
            open_parse(buf_bytes(*old(buf))).consumed as int,
        ),
        is_tail_of(buf_bytes(*final(buf)), buf_bytes(*old(buf))),
{
    bgp_rs::Open::parse(&mut buf.reader())
}

/// What a `bgp_rs::Capabilities` holds. A family stands as the numbers of its
/// AFI and SAFI, the next hop of a family as the number of its AFI, and a
/// direction as its number: 1 to receive, 2 to send, 3 for both.
pub uninterp spec fn capability_model(caps: bgp_rs::Capabilities) -> CapabilityModel;

/// The capabilities that the parameters of an OPEN message announce, as
/// `bgp_rs::Capabilities::from_parameters` collects them.
pub uninterp spec fn open_capability_model(open: bgp_rs::Open) -> CapabilityModel;

/// `bgp_rs::Capabilities::from_parameters`, on the parameters of an OPEN
/// message.
#[verifier::external_body]
pub(crate) fn open_capabilities(open: &bgp_rs::Open) -> (caps: bgp_rs::Capabilities)
    ensures
        capability_model(caps) == open_capability_model(*open),
{
    bgp_rs::Capabilities::from_parameters(open.parameters.clone())
}

/// The flags among a speaker's capabilities.
pub struct CapabilityFlags {
    pub route_refresh: bool,
    pub bgpsec: bool,
    pub four_octet_asn: bool,
    pub extended_path_nlri: bool,
    pub enhanced_route_refresh: bool,
    pub long_lived_graceful_restart: bool,
}

/// The sets among a speaker's capabilities, each as a list.
pub struct CapabilityLists {
    pub mp_bgp: Vec<Family>,
    pub outbound_route_filtering: Vec<FilterEntry>,
    pub graceful_restart: Vec<Family>,
}

/// The fields of a speaker's capabilities that are keyed by family, each as a
/// list of entries.
pub struct CapabilityEntries {
    pub extended_next_hop: Vec<FamilyEntry<u16>>,
    pub multiple_labels: Vec<FamilyEntry<u8>>,
    pub add_path: Vec<FamilyEntry<u8>>,
}

/// The six flags of a `bgp_rs::Capabilities`, field by field.
#[verifier::external_body]
pub(crate) fn capability_flags(caps: &bgp_rs::Capabilities) -> (flags: CapabilityFlags)
    ensures
        flags.route_refresh == capability_model(*caps).route_refresh,
        flags.bgpsec == capability_model(*caps).bgpsec,
        flags.four_octet_asn == capability_model(*caps).four_octet_asn,
        flags.extended_path_nlri == capability_model(*caps).extended_path_nlri,
        flags.enhanced_route_refresh == capability_model(*caps).enhanced_route_refresh,
        flags.long_lived_graceful_restart == capability_model(*caps).long_lived_graceful_restart,
{
    CapabilityFlags {
        route_refresh: caps.ROUTE_REFRESH_SUPPORT,
        bgpsec: caps.BGPSEC_SUPPORT,
        four_octet_asn: caps.FOUR_OCTET_ASN_SUPPORT,
        extended_path_nlri: caps.EXTENDED_PATH_NLRI_SUPPORT,
        enhanced_route_refresh: caps.ENHANCED_ROUTE_REFRESH_SUPPORT,
        long_lived_graceful_restart: caps.LONG_LIVED_GRACEFUL_RESTART,
    }
}

/// The three hash sets of a `bgp_rs::Capabilities`, each handed out as a list
/// of its items, in the order in which the set is walked.
#[verifier::external_body]
pub(crate) fn capability_lists(caps: &bgp_rs::Capabilities) -> (lists: CapabilityLists)
    ensures
        lists.mp_bgp@.to_set() == capability_model(*caps).mp_bgp,
        lists.outbound_route_filtering@.to_set() == capability_model(
            *caps,
        ).outbound_route_filtering,
        lists.graceful_restart@.to_set() == capability_model(*caps).graceful_restart,
{
    let mp = caps.MP_BGP_SUPPORT.iter().map(|f| (f.0 as u16, f.1 as u8));
    let orf = caps.OUTBOUND_ROUTE_FILTERING_SUPPORT.iter().map(
        |f| (f.0 as u16, f.1 as u8, f.2, f.3 as u8),
    );
    let gr = caps.GRACEFUL_RESTART_SUPPORT.iter().map(|f| (f.0 as u16, f.1 as u8));
    CapabilityLists {
        mp_bgp: mp.collect(),
        outbound_route_filtering: orf.collect(),
        graceful_restart: gr.collect(),
    }
}

/// The three hash maps of a `bgp_rs::Capabilities`, each handed out as a list
/// of its entries, in the order in which the map is walked.
#[verifier::external_body]
pub(crate) fn capability_entries(caps: &bgp_rs::Capabilities) -> (entries: CapabilityEntries)
    ensures
        entries_map(entries.extended_next_hop@) == capability_model(*caps).extended_next_hop,
        entries_map(entries.multiple_labels@) == capability_model(*caps).multiple_labels,
        entries_map(entries.add_path@) == capability_model(*caps).add_path,
{
    let nh = caps.EXTENDED_NEXT_HOP_ENCODING.iter().map(
        |(f, v)| ((f.0 as u16, f.1 as u8), *v as u16),
    );
    let ml = caps.MULTIPLE_LABELS_SUPPORT.iter().map(|(f, v)| ((f.0 as u16, f.1 as u8), *v));
    let ap = caps.ADD_PATH_SUPPORT.iter().map(|(f, v)| ((f.0 as u16, f.1 as u8), *v as u8));
    CapabilityEntries {
        extended_next_hop: nh.collect(),
        multiple_labels: ml.collect(),
        add_path: ap.collect(),
    }
}

/// The capabilities that an OPEN message announces.
pub fn capabilities_of_open(open: &bgp_rs::Open) -> (set: CapabilitySet)
    ensures
        set@ == open_capability_model(*open),
{
    let caps = open_capabilities(open);
    let flags = capability_flags(&caps);
    let lists = capability_lists(&caps);
    let entries = capability_entries(&caps);
    CapabilitySet {
        mp_bgp: lists.mp_bgp,
        route_refresh: flags.route_refresh,
        outbound_route_filtering: lists.outbound_route_filtering,
        extended_next_hop: entries.extended_next_hop,
        bgpsec: flags.bgpsec,
        multiple_labels: entries.multiple_labels,
        graceful_restart: lists.graceful_restart,
        four_octet_asn: flags.four_octet_asn,
        add_path: entries.add_path,
        extended_path_nlri: flags.extended_path_nlri,
        enhanced_route_refresh: flags.enhanced_route_refresh,
        long_lived_graceful_restart: flags.long_lived_graceful_restart,
    }
}

} // verus!
