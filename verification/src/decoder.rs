//! The streaming decoder: from the bytes of a monitoring session, as they
//! come in, to its messages.

use crate::addr::IpAddress;
use crate::bgp::bgp_header_parse;
use crate::bgp::capabilities_of_open;
use crate::bgp::open_capability_model;
use crate::bgp::BgpHeader;
use crate::bgp::BGP_HEADER_LEN;
use crate::capabilities::session_capabilities;
use crate::capabilities::CapabilityModel;
use crate::capabilities::CapabilitySet;
use crate::error::invalid_length_text;
use crate::error::invalid_value_text;
use crate::error::no_capabilities_text;
use crate::error::truncated_text;
use crate::error::Error;
use crate::error::Failure;
use crate::store::evicted;
use crate::store::no_sessions;
use crate::store::recorded;
use crate::store::CapabilityStore;
use crate::store::Sessions;
use crate::types::decode_tlvs;
use crate::types::tlvs_of;
use crate::types::BmpMessage;
use crate::types::BmpMessageView;
use crate::types::MessageData;
use crate::types::MessageDataView;
use crate::types::MessageKind;
use crate::types::PeerDown;
use crate::types::PeerHeader;
use crate::types::PeerUp;
use crate::types::PeerUpView;
use crate::types::PEER_HEADER_LEN;
use crate::wire::be_value;
use crate::wire::buf_bytes;
use crate::wire::buf_get_u32;
use crate::wire::buf_get_u8;
use crate::wire::buf_len;
use crate::wire::buf_split_to;
use crate::wire::buf_to_vec;
use crate::wire::take_u8;
use bytes::BytesMut;
use vstd::prelude::*;

verus! {

/// The number of bytes of the common header before the message kind: one of
/// version and four of length.
pub const BMP_HEADER_LEN: usize = 5;

/// Where the decoder stands in the stream.
#[derive(Copy, Clone, Debug)]
pub enum DecoderState {
    /// Before the common header of the next message
    Head,
    /// After a common header: the version it gave, and the number of bytes of
    /// the message still to come
    Data((u8, usize)),
}

/// A Route Monitoring message whose BGP UPDATE message is still to be parsed:
/// all that the parser needs for it, and all that the message holds besides.
#[derive(Debug)]
pub struct PendingUpdate {
    /// The BMP version of the message
    pub version: u8,
    /// The per-peer header of the message
    pub peer_header: PeerHeader,
    /// The capabilities of the session that the UPDATE message belongs to
    pub capabilities: CapabilitySet,
    /// The header of the BGP message
    pub header: BgpHeader,
    /// The bytes of the BGP message after its header
    pub body: Vec<u8>,
}

/// A [`PendingUpdate`] with its capabilities and its bytes as their views.
pub struct PendingUpdateView {
    pub version: u8,
    pub peer_header: PeerHeader,
    pub capabilities: CapabilityModel,
    pub header: BgpHeader,
    pub body: Seq<u8>,
}

impl View for PendingUpdate {
    type V = PendingUpdateView;

    open spec fn view(&self) -> PendingUpdateView {
        PendingUpdateView {
            version: self.version,
            peer_header: self.peer_header,
            capabilities: self.capabilities@,
            header: self.header,
            body: self.body@,
        }
    }
}

impl PendingUpdate {
    /// The message, once the BGP parser has given its answer on the UPDATE
    /// message: a Route Monitoring message that holds it, or the parser's
    /// error.
    pub fn complete(self, parsed: Result<bgp_rs::Update, std::io::Error>) -> (r: Result<
        BmpMessage,
        Error,
    >)
        ensures
            match parsed {
                Ok(update) => r matches Ok(message) && message@ == (BmpMessageView {
                    version: self.version,
                    kind: MessageKind::RouteMonitoring,
                    message: MessageDataView::RouteMonitoring(self.peer_header, update),
                }),
                Err(e) => r matches Err(error) && error == Error::WireError(e),
            },
    {
        match parsed {
            Ok(update) => Ok(
                BmpMessage {
                    version: self.version,
                    kind: MessageKind::RouteMonitoring,
                    message: MessageData::RouteMonitoring((self.peer_header, update)),
                },
            ),
            Err(e) => Err(Error::WireError(e)),
        }
    }
}

/// What the decoder makes of one message.
#[derive(Debug)]
pub enum Decoded {
    /// A message, read in full
    Message(BmpMessage),
    /// A Route Monitoring message, read as far as the BGP UPDATE message
    Update(PendingUpdate),
}

/// A [`Decoded`] with what it holds as a view.
pub enum DecodedView {
    Message(BmpMessageView),
    Update(PendingUpdateView),
}

impl View for Decoded {
    type V = DecodedView;

    open spec fn view(&self) -> DecodedView {
        match self {
            Decoded::Message(m) => DecodedView::Message(m@),
            Decoded::Update(p) => DecodedView::Update(p@),
        }
    }
}

/// The header of a BGP message that `bytes` begin with.
pub open spec fn bgp_header_of(bytes: Seq<u8>) -> BgpHeader {
    choose|header: BgpHeader| header.heads(bytes)
}

/// Only one header heads given bytes.
pub proof fn lemma_bgp_header_unique(header: BgpHeader, bytes: Seq<u8>)
    requires
        header.heads(bytes),
    ensures
        header == bgp_header_of(bytes),
{
    let other = bgp_header_of(bytes);
    assert(other.heads(bytes));
    assert(header.marker@ =~= other.marker@);
    assert(header.marker == other.marker);
}

/// The capabilities that an OPEN message announces, if there is one.
pub open spec fn announced(open: Option<bgp_rs::Open>) -> Option<CapabilityModel> {
    match open {
        Some(o) => Some(open_capability_model(o)),
        None => None,
    }
}

/// The capabilities of the session that a Peer Up message reports.
pub open spec fn peer_up_session(header: PeerHeader, peer_up: PeerUpView) -> CapabilityModel {
    CapabilityModel::session(
        announced(peer_up.sent_open),
        announced(peer_up.recv_open),
        header.peer_flags.A,
    )
}

/// What one message comes to: what is handed out for it, and the table of
/// sessions after it.
pub struct FrameOutcome {
    pub result: Result<DecodedView, Failure>,
    pub sessions: Sessions,
}

/// A failure, which leaves the table of sessions as it was.
pub open spec fn failed(f: Failure, sessions: Sessions) -> FrameOutcome {
    FrameOutcome { result: Err(f), sessions }
}

/// A message of the given kind, read in full.
pub open spec fn message_read(
    version: u8,
    kind: MessageKind,
    message: MessageDataView,
    sessions: Sessions,
) -> FrameOutcome {
    FrameOutcome {
        result: Ok(DecodedView::Message(BmpMessageView { version, kind, message })),
        sessions,
    }
}

/// What an Initiation message comes to: its TLVs, up to the first type code
/// that stands for no type.
pub open spec fn initiation_frame(version: u8, payload: Seq<u8>, sessions: Sessions)
    -> FrameOutcome {
    match tlvs_of(payload, true) {
        Err(f) => failed(f, sessions),
        Ok(tlvs) => message_read(
            version,
            MessageKind::Initiation,
            MessageDataView::Initiation(tlvs),
            sessions,
        ),
    }
}

/// What a Peer Up message comes to: the message, and a table in which the
/// peer's session is on record. A session that was on record keeps its
/// capabilities.
pub open spec fn peer_up_frame(version: u8, payload: Seq<u8>, sessions: Sessions) -> FrameOutcome {
    match PeerHeader::of(payload) {
        Err(f) => failed(f, sessions),
        Ok(header) => match PeerUp::of(header.peer_flags.V, payload.skip(PEER_HEADER_LEN as int)) {
            Err(f) => failed(f, sessions),
            Ok(peer_up) => message_read(
                version,
                MessageKind::PeerUp,
                MessageDataView::PeerUp(header, peer_up),
                recorded(sessions, header.peer_addr.key(), peer_up_session(header, peer_up)),
            ),
        },
    }
}

/// What a Peer Down message comes to: the message, and a table in which the
/// peer's session is no longer on record.
pub open spec fn peer_down_frame(version: u8, payload: Seq<u8>, sessions: Sessions)
    -> FrameOutcome {
    match PeerHeader::of(payload) {
        Err(f) => failed(f, sessions),
        Ok(header) => match PeerDown::of(payload.skip(PEER_HEADER_LEN as int)) {
            Err(f) => failed(f, sessions),
            Ok(peer_down) => message_read(
                version,
                MessageKind::PeerDown,
                MessageDataView::PeerDown(header, peer_down),
                evicted(sessions, header.peer_addr.key()),
            ),
        },
    }
}

/// What a Route Monitoring message comes to: a failure where the peer's
/// session is not on record or the header of the BGP message is cut short,
/// and else the BGP message with the capabilities of the session.
pub open spec fn route_monitoring_frame(version: u8, payload: Seq<u8>, sessions: Sessions)
    -> FrameOutcome {
    match PeerHeader::of(payload) {
        Err(f) => failed(f, sessions),
        Ok(header) => {
            let record = payload.skip(PEER_HEADER_LEN as int);
            if !sessions.contains_key(header.peer_addr.key()) {
                failed(Failure::Decode(no_capabilities_text(header.peer_addr)), sessions)
            } else if record.len() < BGP_HEADER_LEN {
                failed(Failure::Wire, sessions)
            } else {
                FrameOutcome {
                    result: Ok(
                        DecodedView::Update(
                            PendingUpdateView {
                                version,
                                peer_header: header,
                                capabilities: sessions[header.peer_addr.key()],
                                header: bgp_header_of(record),
                                body: record.skip(BGP_HEADER_LEN as int),
                            },
                        ),
                    ),
                    sessions,
                }
            }
        },
    }
}

/// What the message with the given body comes to. The body begins with the
/// byte that gives the kind of the message.
#[verifier::opaque]
pub open spec fn decode_frame(version: u8, body: Seq<u8>, sessions: Sessions) -> FrameOutcome {
    if body.len() < 1 {
        failed(Failure::Decode(truncated_text()), sessions)
    } else {
        let payload = body.skip(1);
        match MessageKind::of(body[0]) {
            None => failed(
                Failure::Decode(invalid_value_text("Message Type"@, body[0] as nat)),
                sessions,
            ),
            Some(MessageKind::Initiation) => initiation_frame(version, payload, sessions),
            Some(MessageKind::PeerUp) => peer_up_frame(version, payload, sessions),
            Some(MessageKind::PeerDown) => peer_down_frame(version, payload, sessions),
            Some(MessageKind::RouteMonitoring) => route_monitoring_frame(
                version,
                payload,
                sessions,
            ),
            Some(kind) => message_read(version, kind, MessageDataView::Unimplemented, sessions),
        }
    }
}

/// Whether what a call returned is what the message comes to.
pub open spec fn returns_outcome(r: Result<Decoded, Error>, outcome: Result<DecodedView, Failure>)
    -> bool {
    match r {
        Ok(decoded) => outcome == Ok::<DecodedView, Failure>(decoded@),
        Err(e) => outcome == Err::<DecodedView, Failure>(e.failure()),
    }
}

/// The capabilities of the session that a Peer Up message reports.
pub fn peer_up_capabilities(header: &PeerHeader, peer_up: &PeerUp) -> (caps: CapabilitySet)
    ensures
        caps@ == peer_up_session(*header, peer_up@),
        caps@.four_octet_asn == !header.peer_flags.A,
{
    match (&peer_up.sent_open, &peer_up.recv_open) {
        (Some(sent), Some(received)) => {
            let local = capabilities_of_open(sent);
            let remote = capabilities_of_open(received);
            session_capabilities(Some(&local), Some(&remote), header.peer_flags.A)
        },
        _ => session_capabilities(None, None, header.peer_flags.A),
    }
}

/// Reads an Initiation message off `buf`, which holds what follows the kind.
pub fn decode_initiation(version: u8, buf: &mut BytesMut) -> (r: Result<Decoded, Error>)
    ensures
        forall|sessions: Sessions|
            returns_outcome(
                r,
                #[trigger] initiation_frame(version, buf_bytes(*old(buf)), sessions).result,
            ),
{
    match decode_tlvs(buf, true) {
        Ok(tlvs) => Ok(
            Decoded::Message(
                BmpMessage {
                    version,
                    kind: MessageKind::Initiation,
                    message: MessageData::Initiation(tlvs),
                },
            ),
        ),
        Err(e) => Err(e),
    }
}

/// Reads a Peer Up message off `buf`, which holds what follows the kind, and
/// puts the peer's session on record.
pub fn decode_peer_up(store: &mut CapabilityStore, version: u8, buf: &mut BytesMut) -> (r: Result<
    Decoded,
    Error,
>)
    ensures
        returns_outcome(r, peer_up_frame(version, buf_bytes(*old(buf)), old(store)@).result),
        final(store)@ == peer_up_frame(version, buf_bytes(*old(buf)), old(store)@).sessions,
{
    let peer_header = match PeerHeader::decode(buf) {
        Ok(h) => h,
        Err(e) => {
            return Err(e);
        },
    };
    let message = match PeerUp::decode(&peer_header.peer_flags, buf) {
        Ok(m) => m,
        Err(e) => {
            return Err(e);
        },
    };
    if !store.contains(&peer_header.peer_addr) {
        let caps = peer_up_capabilities(&peer_header, &message);
        store.record(&peer_header.peer_addr, caps);
    }
    Ok(
        Decoded::Message(
            BmpMessage {
                version,
                kind: MessageKind::PeerUp,
                message: MessageData::PeerUp((peer_header, message)),
            },
        ),
    )
}

/// Reads a Peer Down message off `buf`, which holds what follows the kind,
/// and takes the peer's session off the record.
pub fn decode_peer_down(store: &mut CapabilityStore, version: u8, buf: &mut BytesMut) -> (r:
    Result<Decoded, Error>)
    ensures
        returns_outcome(r, peer_down_frame(version, buf_bytes(*old(buf)), old(store)@).result),
        final(store)@ == peer_down_frame(version, buf_bytes(*old(buf)), old(store)@).sessions,
{
    let peer_header = match PeerHeader::decode(buf) {
        Ok(h) => h,
        Err(e) => {
            return Err(e);
        },
    };
    let message = match PeerDown::decode(buf) {
        Ok(m) => m,
        Err(e) => {
            return Err(e);
        },
    };
    store.evict(&peer_header.peer_addr);
    Ok(
        Decoded::Message(
            BmpMessage {
                version,
                kind: MessageKind::PeerDown,
                message: MessageData::PeerDown((peer_header, message)),
            },
        ),
    )
}

/// Reads a Route Monitoring message off `buf`, which holds what follows the
/// kind, as far as the BGP UPDATE message.
pub fn decode_route_monitoring(store: &CapabilityStore, version: u8, buf: &mut BytesMut) -> (r:
    Result<Decoded, Error>)
    ensures
        returns_outcome(r, route_monitoring_frame(version, buf_bytes(*old(buf)), store@).result),
{
    let peer_header = match PeerHeader::decode(buf) {
        Ok(h) => h,
        Err(e) => {
            return Err(e);
        },
    };
    let capabilities = match store.lookup(&peer_header.peer_addr) {
        Some(caps) => caps.duplicate(),
        None => {
            return Err(Error::no_capabilities(&peer_header.peer_addr));
        },
    };
    let ghost record = buf_bytes(*buf);
    let header = match bgp_header_parse(buf) {
        Ok(h) => h,
        Err(e) => {
            return Err(Error::from(e));
        },
    };
    let body = buf_to_vec(buf);
    proof {
        lemma_bgp_header_unique(header, record);
    }
    Ok(Decoded::Update(PendingUpdate { version, peer_header, capabilities, header, body }))
}

/// What a call of the decoder comes to.
pub struct Step {
    /// Where the decoder stands afterwards
    pub state: DecoderState,
    /// The bytes that are left in the buffer
    pub rest: Seq<u8>,
    /// The table of sessions afterwards
    pub sessions: Sessions,
    /// What the call returns: a message, a failure, or nothing yet
    pub output: Result<Option<DecodedView>, Failure>,
}

/// What the common header at the front of `bytes` says: nothing while fewer
/// than five bytes are there; else the version and the number of bytes of the
/// message that follow the header. The length on the wire counts the header
/// too, so a length under five is a failure.
pub open spec fn head_of(bytes: Seq<u8>) -> Result<Option<(u8, usize)>, Failure> {
    if bytes.len() < BMP_HEADER_LEN {
        Ok(None)
    } else {
        let total = be_value(bytes.subrange(1, 5));
        if total < BMP_HEADER_LEN {
            Err(Failure::Decode(invalid_length_text(total)))
        } else {
            Ok(Some((bytes[0], (total - BMP_HEADER_LEN) as usize)))
        }
    }
}

/// What a call comes to after a common header that announced `length` more
/// bytes: nothing while fewer are there; else what the message of those bytes
/// comes to, with the bytes after them left in the buffer and the decoder
/// before the next header, whether the message was read or not.
pub open spec fn data_step(version: u8, length: usize, bytes: Seq<u8>, sessions: Sessions) -> Step {
    if bytes.len() < length {
        Step { state: DecoderState::Data((version, length)), rest: bytes, sessions, output: Ok(None) }
    } else {
        let outcome = decode_frame(version, bytes.take(length as int), sessions);
        Step {
            state: DecoderState::Head,
            rest: bytes.skip(length as int),
            sessions: outcome.sessions,
            output: match outcome.result {
                Ok(decoded) => Ok(Some(decoded)),
                Err(f) => Err(f),
            },
        }
    }
}

/// What a call of the decoder comes to, from where it stands, what the buffer
/// holds, and the table of sessions.
#[verifier::opaque]
pub open spec fn step(state: DecoderState, bytes: Seq<u8>, sessions: Sessions) -> Step {
    match state {
        DecoderState::Data((version, length)) => data_step(version, length, bytes, sessions),
        DecoderState::Head => match head_of(bytes) {
            Ok(None) => Step { state: DecoderState::Head, rest: bytes, sessions, output: Ok(None) },
            Err(f) => Step {
                state: DecoderState::Head,
                rest: bytes.skip(BMP_HEADER_LEN as int),
                sessions,
                output: Err(f),
            },
            Ok(Some((version, length))) => data_step(
                version,
                length,
                bytes.skip(BMP_HEADER_LEN as int),
                sessions,
            ),
        },
    }
}

/// Whether what a call returned is the given output.
pub open spec fn returns_output(
    r: Result<Option<Decoded>, Error>,
    output: Result<Option<DecodedView>, Failure>,
) -> bool {
    match r {
        Ok(Some(decoded)) => output == Ok::<Option<DecodedView>, Failure>(Some(decoded@)),
        Ok(None) => output == Ok::<Option<DecodedView>, Failure>(None),
        Err(e) => output == Err::<Option<DecodedView>, Failure>(e.failure()),
    }
}

/// The number of bytes that the decoder waits for: a common header, or the
/// rest of the message whose header it has read.
pub open spec fn wanted(state: DecoderState) -> usize {
    match state {
        DecoderState::Head => BMP_HEADER_LEN,
        DecoderState::Data((_, length)) => length,
    }
}

/// A streaming decoder of BMP messages. It holds where it stands in the
/// stream and the table of the sessions that are up; the bytes are the
/// caller's.
pub struct BmpDecoder {
    client_capabilities: CapabilityStore,
    state: DecoderState,
}

impl Clone for BmpDecoder {
    fn clone(&self) -> (copy: BmpDecoder)
        ensures
            copy.phase() == self.phase(),
            copy.sessions() == self.sessions(),
    {
        BmpDecoder { client_capabilities: self.client_capabilities.clone(), state: self.state }
    }
}

impl BmpDecoder {
    /// Where the decoder stands in the stream.
    pub closed spec fn phase(&self) -> DecoderState {
        self.state
    }

    /// The table of the sessions that are up.
    pub closed spec fn sessions(&self) -> Sessions {
        self.client_capabilities@
    }

    /// A decoder at the start of a stream, with no session on record.
    pub fn new() -> (decoder: BmpDecoder)
        ensures
            decoder.phase() == DecoderState::Head,
            decoder.sessions() == no_sessions(),
    {
        BmpDecoder { client_capabilities: CapabilityStore::new(), state: DecoderState::Head }
    }

    /// Where the decoder stands in the stream.
    pub fn state(&self) -> (state: DecoderState)
        ensures
            state == self.phase(),
    {
        self.state
    }

    /// The number of bytes that the decoder waits for, for a caller that
    /// wants to make room for them.
    pub fn reserve_hint(&self) -> (n: usize)
        ensures
            n == wanted(self.phase()),
    {
        match self.state {
            DecoderState::Head => BMP_HEADER_LEN,
            DecoderState::Data((_, length)) => length,
        }
    }

    /// The capabilities of the session with the peer at `addr`, if one is on
    /// record.
    pub fn capabilities(&self, addr: &IpAddress) -> (found: Option<&CapabilitySet>)
        ensures
            found is Some <==> self.sessions().contains_key(addr.key()),
            found matches Some(caps) ==> caps@ == self.sessions()[addr.key()],
    {
        self.client_capabilities.lookup(addr)
    }

    /// Reads a common header off the front of `src`, once it is there in
    /// full. The decoder itself does not change.
    pub fn decode_head(&mut self, src: &mut BytesMut) -> (r: Result<Option<(u8, usize)>, Error>)
        ensures
            final(self).phase() == old(self).phase(),
            final(self).sessions() == old(self).sessions(),
            match r {
                Ok(found) => head_of(buf_bytes(*old(src))) == Ok::<Option<(u8, usize)>, Failure>(
                    found,
                ),
                Err(e) => head_of(buf_bytes(*old(src))) == Err::<Option<(u8, usize)>, Failure>(
                    e.failure(),
                ),
            },
            buf_bytes(*final(src)) == if buf_bytes(*old(src)).len() < BMP_HEADER_LEN {
                buf_bytes(*old(src))
            } else {
                buf_bytes(*old(src)).skip(BMP_HEADER_LEN as int)
            },
    {
        let ghost bytes = buf_bytes(*src);
        if buf_len(src) < BMP_HEADER_LEN {
            return Ok(None);
        }
        let version = buf_get_u8(src);
        proof {
            assert(buf_bytes(*src).take(4) =~= bytes.subrange(1, 5));
        }
        let total = buf_get_u32(src);
        proof {
            assert(buf_bytes(*src) =~= bytes.skip(5));
        }
        if total < 5 {
            return Err(Error::invalid_length(total));
        }
        let remaining = (total - 5) as usize;
        Ok(Some((version, remaining)))
    }

    /// Reads the message that a common header announced, once its `length`
    /// bytes are there in full. The bytes of the message leave the buffer
    /// whether it is read or not; the bytes after it stay.
    pub fn decode_data(&mut self, version: u8, length: usize, src: &mut BytesMut) -> (r: Result<
        Option<Decoded>,
        Error,
    >)
        ensures
            final(self).phase() == old(self).phase(),
            returns_output(
                r,
                data_step(version, length, buf_bytes(*old(src)), old(self).sessions()).output,
            ),
            buf_bytes(*final(src)) == data_step(
                version,
                length,
                buf_bytes(*old(src)),
                old(self).sessions(),
            ).rest,
            final(self).sessions() == data_step(
                version,
                length,
                buf_bytes(*old(src)),
                old(self).sessions(),
            ).sessions,
    {
        if buf_len(src) < length {
            return Ok(None);
        }
        let mut buf = buf_split_to(src, length);
        proof {
            reveal(decode_frame);
        }
        let kind_byte = match take_u8(&mut buf) {
            Ok(b) => b,
            Err(e) => {
                return Err(e);
            },
        };
        let kind = match MessageKind::try_from(kind_byte) {
            Ok(k) => k,
            Err(e) => {
                return Err(e);
            },
        };
        let r = match kind {
            MessageKind::Initiation => decode_initiation(version, &mut buf),
            MessageKind::PeerUp => decode_peer_up(&mut self.client_capabilities, version, &mut buf),
            MessageKind::PeerDown => decode_peer_down(
                &mut self.client_capabilities,
                version,
                &mut buf,
            ),
            MessageKind::RouteMonitoring => decode_route_monitoring(
                &self.client_capabilities,
                version,
                &mut buf,
            ),
            _ => Ok(
                Decoded::Message(BmpMessage { version, kind, message: MessageData::Unimplemented }),
            ),
        };
        match r {
            Ok(decoded) => Ok(Some(decoded)),
            Err(e) => Err(e),
        }
    }

    /// Takes the next message off the front of `src`, if it is there in full.
    ///
    /// `Ok(None)` asks for more bytes; the call can be made again once `src`
    /// holds more. Otherwise one message has left `src`, read or not, and the
    /// decoder stands before the next header: a failure costs the message that
    /// it is about, and nothing of what follows.
    pub fn decode(&mut self, src: &mut BytesMut) -> (r: Result<Option<Decoded>, Error>)
        ensures
            returns_output(
                r,
                step(old(self).phase(), buf_bytes(*old(src)), old(self).sessions()).output,
            ),
            final(self).phase() == step(
                old(self).phase(),
                buf_bytes(*old(src)),
                old(self).sessions(),
            ).state,
            buf_bytes(*final(src)) == step(
                old(self).phase(),
                buf_bytes(*old(src)),
                old(self).sessions(),
            ).rest,
            final(self).sessions() == step(
                old(self).phase(),
                buf_bytes(*old(src)),
                old(self).sessions(),
            ).sessions,
    {
        proof {
            reveal(step);
        }
        let (version, length) = match self.state {
            DecoderState::Head => match self.decode_head(src) {
                Ok(Some((version, length))) => {
                    self.state = DecoderState::Data((version, length));
                    (version, length)
                },
                Ok(None) => {
                    return Ok(None);
                },
                Err(e) => {
                    return Err(e);
                },
            },
            DecoderState::Data((version, length)) => (version, length),
        };
        match self.decode_data(version, length, src) {
            Ok(Some(decoded)) => {
                self.state = DecoderState::Head;
                Ok(Some(decoded))
            },
            Ok(None) => Ok(None),
            Err(e) => {
                self.state = DecoderState::Head;
                Err(e)
            },
        }
    }
}

} // verus!
