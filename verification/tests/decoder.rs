use bmp_protocol::addr::IpAddress;
use bmp_protocol::capabilities::CapabilitySet;
use bmp_protocol::decoder::Decoded;
use bmp_protocol::decoder::DecoderState;
use bmp_protocol::decoder::PendingUpdate;
use bmp_protocol::error::Error;
use bmp_protocol::stream::decode_all;
use bmp_protocol::types::BmpMessage;
use bmp_protocol::types::InformationType;
use bmp_protocol::types::MessageData;
use bmp_protocol::types::MessageKind;
use bmp_protocol::BmpDecoder;
use bytes::BytesMut;

fn frame(version: u8, kind: u8, payload: &[u8]) -> Vec<u8> {
    let mut v = vec![version];
    v.extend_from_slice(&((payload.len() + 6) as u32).to_be_bytes());
    v.push(kind);
    v.extend_from_slice(payload);
    v
}

fn peer_header(flags: u8, last: u8) -> Vec<u8> {
    let mut v = vec![0u8, flags];
    v.extend_from_slice(&[0; 8]);
    v.extend_from_slice(&[0; 12]);
    v.extend_from_slice(&[10, 0, 0, last]);
    v.extend_from_slice(&[0x00, 0x00, 0xFD, 0xE8]);
    v.extend_from_slice(&[192, 0, 2, 1]);
    v.extend_from_slice(&[0x5E, 0, 0, 0]);
    v.extend_from_slice(&[0, 0, 0, 0]);
    v
}

fn open_record(capabilities: &[u8]) -> Vec<u8> {
    let mut params: Vec<u8> = Vec::new();
    if !capabilities.is_empty() {
        params.push(2);
        params.push(capabilities.len() as u8);
        params.extend_from_slice(capabilities);
    }
    let mut v = vec![0xFFu8; 16];
    v.extend_from_slice(&((29 + params.len()) as u16).to_be_bytes());
    v.push(1);
    v.push(4);
    v.extend_from_slice(&[0xFD, 0xE8, 0x00, 0xB4, 192, 0, 2, 1]);
    v.push(params.len() as u8);
    v.extend_from_slice(&params);
    v
}

fn peer_up(flags: u8, last: u8, sent: &[u8], received: &[u8]) -> Vec<u8> {
    let mut p = peer_header(flags, last);
    p.extend_from_slice(&[0; 12]);
    p.extend_from_slice(&[10, 0, 0, 254]);
    p.extend_from_slice(&[0, 179, 0xC0, 0x00]);
    p.extend_from_slice(&open_record(sent));
    p.extend_from_slice(&open_record(received));
    frame(3, 3, &p)
}

fn peer_up_without_opens(flags: u8, last: u8) -> Vec<u8> {
    let mut p = peer_header(flags, last);
    p.extend_from_slice(&[0; 12]);
    p.extend_from_slice(&[10, 0, 0, 254]);
    p.extend_from_slice(&[0, 179, 0xC0, 0x00]);
    frame(3, 3, &p)
}

fn peer_down(last: u8) -> Vec<u8> {
    let mut p = peer_header(0, last);
    p.push(1);
    frame(3, 2, &p)
}

fn update_record() -> Vec<u8> {
    let mut v = vec![0xFFu8; 16];
    let attributes = [0x40u8, 1, 1, 0, 0x40, 3, 4, 10, 0, 0, 254];
    let nlri = [24u8, 203, 0, 113];
    v.extend_from_slice(&((23 + attributes.len() + nlri.len()) as u16).to_be_bytes());
    v.push(2);
    v.extend_from_slice(&[0, 0]);
    v.extend_from_slice(&(attributes.len() as u16).to_be_bytes());
    v.extend_from_slice(&attributes);
    v.extend_from_slice(&nlri);
    v
}

fn route_monitoring(last: u8) -> Vec<u8> {
    let mut p = peer_header(0, last);
    p.extend_from_slice(&update_record());
    frame(3, 0, &p)
}

fn initiation(name: &str) -> Vec<u8> {
    let mut p = vec![0u8, 2];
    p.extend_from_slice(&(name.len() as u16).to_be_bytes());
    p.extend_from_slice(name.as_bytes());
    frame(3, 4, &p)
}

fn parse_update(pending: &PendingUpdate) -> Result<bgp_rs::Update, std::io::Error> {
    let header = bgp_rs::Header {
        marker: pending.header.marker,
        length: pending.header.length,
        record_type: pending.header.record_type,
    };
    let mut caps = bgp_rs::Capabilities::default();
    caps.FOUR_OCTET_ASN_SUPPORT = pending.capabilities.four_octet_asn;
    caps.EXTENDED_PATH_NLRI_SUPPORT = pending.capabilities.extended_path_nlri;
    bgp_rs::Update::parse(&header, &mut &pending.body[..], &caps)
}

fn finish(decoded: Decoded) -> Result<BmpMessage, Error> {
    match decoded {
        Decoded::Message(m) => Ok(m),
        Decoded::Update(p) => {
            let parsed = parse_update(&p);
            p.complete(parsed)
        }
    }
}

fn drain(decoder: &mut BmpDecoder, src: &mut BytesMut, out: &mut Vec<String>) {
    loop {
        match decoder.decode(src) {
            Ok(None) => return,
            Ok(Some(decoded)) => out.push(format!("{:?}", finish(decoded))),
            Err(e) => out.push(format!("{:?}", Err::<BmpMessage, Error>(e))),
        }
    }
}

fn decode_message(e: Error) -> String {
    match e {
        Error::DecodeError(m) => m,
        other => panic!("not a decode error: {:?}", other),
    }
}

fn sample_stream() -> Vec<u8> {
    let mut stream = Vec::new();
    stream.extend_from_slice(&initiation("router-1"));
    stream.extend_from_slice(&peer_up(0, 1, &[2, 0, 65, 4, 0, 0, 0xFD, 0xE8], &[65, 4, 0, 0, 0xFD, 0xE9]));
    stream.extend_from_slice(&route_monitoring(1));
    stream.extend_from_slice(&frame(3, 1, &[1, 2, 3]));
    stream.extend_from_slice(&route_monitoring(2));
    stream.extend_from_slice(&peer_down(1));
    stream.extend_from_slice(&route_monitoring(1));
    stream.extend_from_slice(&frame(3, 5, &[]));
    stream
}

#[test]
fn initiation_without_tlvs() {
    let mut decoder = BmpDecoder::new();
    let mut src = BytesMut::from(&[0x03u8, 0x00, 0x00, 0x00, 0x06, 0x04][..]);
    let decoded = decoder.decode(&mut src).unwrap().unwrap();
    match decoded {
        Decoded::Message(message) => {
            assert_eq!(message.version, 3);
            assert_eq!(message.kind, MessageKind::Initiation);
            match message.message {
                MessageData::Initiation(tlvs) => assert!(tlvs.is_empty()),
                other => panic!("unexpected payload: {:?}", other),
            }
        }
        other => panic!("unexpected result: {:?}", other),
    }
    assert!(src.is_empty());
    assert!(decoder.decode(&mut src).unwrap().is_none());
}

#[test]
fn initiation_stops_at_unknown_tlv_type() {
    let mut payload = vec![0u8, 1, 0, 3, b'i', b'o', b's'];
    payload.extend_from_slice(&[0, 3, 0, 2, b'x', b'y']);
    payload.extend_from_slice(&[0, 2, 0, 1, b'n']);
    let mut src = BytesMut::from(&frame(3, 4, &payload)[..]);
    src.extend_from_slice(&initiation("next"));
    let mut decoder = BmpDecoder::new();
    match decoder.decode(&mut src).unwrap().unwrap() {
        Decoded::Message(BmpMessage { version: 3, kind: MessageKind::Initiation, message: MessageData::Initiation(tlvs) }) => {
            assert_eq!(tlvs.len(), 1);
            assert_eq!(tlvs[0].information_type, InformationType::SysDescr);
            assert_eq!(tlvs[0].value, "ios");
        }
        other => panic!("unexpected result: {:?}", other),
    }
    match decoder.decode(&mut src).unwrap().unwrap() {
        Decoded::Message(BmpMessage { message: MessageData::Initiation(tlvs), .. }) => {
            assert_eq!(tlvs.len(), 1);
            assert_eq!(tlvs[0].information_type, InformationType::SysName);
            assert_eq!(tlvs[0].value, "next");
        }
        other => panic!("unexpected result: {:?}", other),
    }
    assert!(src.is_empty());
}

#[test]
fn unknown_kind_fails_and_the_stream_goes_on() {
    let mut src = BytesMut::from(&frame(3, 0xFF, &[9, 9, 9])[..]);
    src.extend_from_slice(&initiation("after"));
    let mut decoder = BmpDecoder::new();
    let e = decoder.decode(&mut src).unwrap_err();
    assert_eq!(decode_message(e), "invalid value for BMP Message Type: 255");
    assert!(matches!(decoder.state(), DecoderState::Head));
    match decoder.decode(&mut src).unwrap().unwrap() {
        Decoded::Message(BmpMessage { kind: MessageKind::Initiation, message: MessageData::Initiation(tlvs), .. }) => {
            assert_eq!(tlvs[0].value, "after");
        }
        other => panic!("unexpected result: {:?}", other),
    }
    assert!(src.is_empty());
}

#[test]
fn kinds_whose_payload_is_not_read() {
    for kind in [1u8, 5, 6] {
        let mut src = BytesMut::from(&frame(3, kind, &[1, 2, 3, 4])[..]);
        let mut decoder = BmpDecoder::new();
        match decoder.decode(&mut src).unwrap().unwrap() {
            Decoded::Message(m) => {
                assert_eq!(m.version, 3);
                assert_eq!(m.kind, MessageKind::try_from(kind).unwrap());
                assert!(matches!(m.message, MessageData::Unimplemented));
            }
            other => panic!("unexpected result: {:?}", other),
        }
        assert!(src.is_empty());
    }
}

#[test]
fn header_waits_for_five_bytes() {
    let mut decoder = BmpDecoder::new();
    let mut src = BytesMut::from(&[3u8, 0, 0, 0][..]);
    assert!(decoder.decode(&mut src).unwrap().is_none());
    assert_eq!(src.len(), 4);
    assert!(matches!(decoder.state(), DecoderState::Head));
    assert_eq!(decoder.reserve_hint(), 5);
    assert!(decoder.decode_head(&mut src).unwrap().is_none());
    assert_eq!(src.len(), 4);
}

#[test]
fn header_gives_version_and_remaining_length() {
    let mut decoder = BmpDecoder::new();
    let mut src = BytesMut::from(&[3u8, 0, 0, 1, 0x2C, 4, 7][..]);
    assert_eq!(decoder.decode_head(&mut src).unwrap(), Some((3, 295)));
    assert_eq!(&src[..], &[4, 7]);
}

#[test]
fn header_with_length_under_five() {
    let mut decoder = BmpDecoder::new();
    let mut src = BytesMut::from(&[3u8, 0, 0, 0, 4][..]);
    src.extend_from_slice(&initiation("x"));
    let e = decoder.decode(&mut src).unwrap_err();
    assert_eq!(decode_message(e), "invalid BMP message length: 4");
    assert!(matches!(decoder.state(), DecoderState::Head));
    assert!(matches!(
        decoder.decode(&mut src).unwrap().unwrap(),
        Decoded::Message(BmpMessage { kind: MessageKind::Initiation, .. })
    ));
}

#[test]
fn header_with_length_of_the_header_alone() {
    let mut decoder = BmpDecoder::new();
    let mut src = BytesMut::from(&[3u8, 0, 0, 0, 5][..]);
    let e = decoder.decode(&mut src).unwrap_err();
    assert_eq!(decode_message(e), "unexpected end of BMP message");
    assert!(matches!(decoder.state(), DecoderState::Head));
    assert!(src.is_empty());
}

#[test]
fn body_waits_for_all_its_bytes() {
    let message = initiation("router");
    let mut decoder = BmpDecoder::new();
    let mut src = BytesMut::from(&message[..message.len() - 1]);
    assert!(decoder.decode(&mut src).unwrap().is_none());
    assert!(matches!(decoder.state(), DecoderState::Data((3, 11))));
    assert_eq!(decoder.reserve_hint(), 11);
    assert_eq!(src.len(), 10);
    assert!(decoder.decode(&mut src).unwrap().is_none());
    assert_eq!(src.len(), 10);
    src.extend_from_slice(&message[message.len() - 1..]);
    src.extend_from_slice(&[3, 0]);
    assert!(decoder.decode(&mut src).unwrap().is_some());
    assert!(matches!(decoder.state(), DecoderState::Head));
    assert_eq!(&src[..], &[3, 0]);
}

#[test]
fn decode_data_leaves_what_follows() {
    let mut decoder = BmpDecoder::new();
    let mut src = BytesMut::from(&[4u8, 0, 2, 0, 1, b'n', 0xAB, 0xCD][..]);
    match decoder.decode_data(3, 6, &mut src).unwrap().unwrap() {
        Decoded::Message(BmpMessage { version: 3, kind: MessageKind::Initiation, message: MessageData::Initiation(tlvs) }) => {
            assert_eq!(tlvs[0].value, "n");
        }
        other => panic!("unexpected result: {:?}", other),
    }
    assert_eq!(&src[..], &[0xAB, 0xCD]);
    assert!(decoder.decode_data(3, 3, &mut src).unwrap().is_none());
    assert_eq!(&src[..], &[0xAB, 0xCD]);
}

#[test]
fn pieces_of_any_size_give_the_same_messages() {
    let stream = sample_stream();
    let mut whole = Vec::new();
    let mut decoder = BmpDecoder::new();
    let mut src = BytesMut::from(&stream[..]);
    drain(&mut decoder, &mut src, &mut whole);
    assert_eq!(whole.len(), 8);
    assert!(src.is_empty());
    for size in [1usize, 2, 3, 5, 7, 64, 1000] {
        let mut pieces = Vec::new();
        let mut decoder = BmpDecoder::new();
        let mut src = BytesMut::new();
        for piece in stream.chunks(size) {
            src.extend_from_slice(piece);
            drain(&mut decoder, &mut src, &mut pieces);
        }
        assert_eq!(pieces, whole);
        assert!(src.is_empty());
    }
}

#[test]
fn sample_stream_message_by_message() {
    let stream = sample_stream();
    let mut out = Vec::new();
    let mut decoder = BmpDecoder::new();
    let mut src = BytesMut::from(&stream[..]);
    drain(&mut decoder, &mut src, &mut out);
    assert!(out[0].starts_with("Ok(BmpMessage { version: 3, kind: Initiation"));
    assert!(out[1].starts_with("Ok(BmpMessage { version: 3, kind: PeerUp"));
    assert!(out[2].starts_with("Ok(BmpMessage { version: 3, kind: RouteMonitoring"));
    assert!(out[3].starts_with("Ok(BmpMessage { version: 3, kind: StatisticsReport, message: Unimplemented"));
    assert_eq!(out[4], "Err(DecodeError(\"No capabilities found for neighbor 10.0.0.2\"))");
    assert!(out[5].starts_with("Ok(BmpMessage { version: 3, kind: PeerDown"));
    assert_eq!(out[6], "Err(DecodeError(\"No capabilities found for neighbor 10.0.0.1\"))");
    assert!(out[7].starts_with("Ok(BmpMessage { version: 3, kind: Termination, message: Unimplemented"));
}

#[test]
fn decoding_twice_gives_equal_messages() {
    let stream = sample_stream();
    let mut first = Vec::new();
    let mut second = Vec::new();
    let mut src = BytesMut::from(&stream[..]);
    drain(&mut BmpDecoder::new(), &mut src, &mut first);
    let mut src = BytesMut::from(&stream[..]);
    drain(&mut BmpDecoder::new(), &mut src, &mut second);
    assert_eq!(first, second);
    assert_eq!(first.len(), 8);
}

#[test]
fn route_monitoring_only_while_the_session_is_up() {
    let mut decoder = BmpDecoder::new();
    let addr = IpAddress::V4(0x0A00_0001);

    let mut src = BytesMut::from(&route_monitoring(1)[..]);
    let e = decoder.decode(&mut src).unwrap_err();
    assert_eq!(decode_message(e), "No capabilities found for neighbor 10.0.0.1");
    assert!(decoder.capabilities(&addr).is_none());

    let mut src = BytesMut::from(&peer_up(0, 1, &[], &[])[..]);
    assert!(matches!(
        decoder.decode(&mut src).unwrap().unwrap(),
        Decoded::Message(BmpMessage { kind: MessageKind::PeerUp, .. })
    ));
    assert!(decoder.capabilities(&addr).is_some());

    let mut src = BytesMut::from(&route_monitoring(1)[..]);
    let pending = match decoder.decode(&mut src).unwrap().unwrap() {
        Decoded::Update(p) => p,
        other => panic!("unexpected result: {:?}", other),
    };
    assert_eq!(pending.version, 3);
    assert_eq!(pending.peer_header.peer_addr, addr);
    assert_eq!(pending.header.marker, [0xFF; 16]);
    assert_eq!(pending.header.length, 38);
    assert_eq!(pending.header.record_type, 2);
    assert_eq!(pending.body, update_record()[19..].to_vec());
    assert!(pending.capabilities.four_octet_asn);
    let parsed = parse_update(&pending);
    let message = pending.complete(parsed).unwrap();
    assert_eq!(message.version, 3);
    assert_eq!(message.kind, MessageKind::RouteMonitoring);
    match message.message {
        MessageData::RouteMonitoring((header, update)) => {
            assert_eq!(header.peer_addr, addr);
            assert_eq!(update.attributes.len(), 2);
            assert_eq!(update.announced_routes.len(), 1);
            assert!(update.withdrawn_routes.is_empty());
        }
        other => panic!("unexpected payload: {:?}", other),
    }

    let mut src = BytesMut::from(&route_monitoring(2)[..]);
    let e = decoder.decode(&mut src).unwrap_err();
    assert_eq!(decode_message(e), "No capabilities found for neighbor 10.0.0.2");

    let mut src = BytesMut::from(&peer_down(1)[..]);
    match decoder.decode(&mut src).unwrap().unwrap() {
        Decoded::Message(BmpMessage { kind: MessageKind::PeerDown, message: MessageData::PeerDown((header, down)), .. }) => {
            assert_eq!(header.peer_addr, addr);
            assert_eq!(down.reason, 1);
            assert!(down.data.is_empty());
        }
        other => panic!("unexpected result: {:?}", other),
    }
    assert!(decoder.capabilities(&addr).is_none());

    let mut src = BytesMut::from(&route_monitoring(1)[..]);
    let e = decoder.decode(&mut src).unwrap_err();
    assert_eq!(decode_message(e), "No capabilities found for neighbor 10.0.0.1");
}

#[test]
fn route_monitoring_with_short_bgp_header() {
    let mut decoder = BmpDecoder::new();
    let mut src = BytesMut::from(&peer_up_without_opens(0, 1)[..]);
    decoder.decode(&mut src).unwrap().unwrap();
    let mut p = peer_header(0, 1);
    p.extend_from_slice(&[0xFF; 18]);
    let mut src = BytesMut::from(&frame(3, 0, &p)[..]);
    src.extend_from_slice(&initiation("x"));
    match decoder.decode(&mut src).unwrap_err() {
        Error::WireError(e) => assert_eq!(e.kind(), std::io::ErrorKind::UnexpectedEof),
        other => panic!("unexpected error: {:?}", other),
    }
    assert!(decoder.decode(&mut src).unwrap().is_some());
}

#[test]
fn update_that_the_parser_refuses() {
    let mut decoder = BmpDecoder::new();
    let mut src = BytesMut::from(&peer_up_without_opens(0, 1)[..]);
    decoder.decode(&mut src).unwrap().unwrap();
    let mut record = update_record();
    record.truncate(30);
    let mut p = peer_header(0, 1);
    p.extend_from_slice(&record);
    let mut src = BytesMut::from(&frame(3, 0, &p)[..]);
    let pending = match decoder.decode(&mut src).unwrap().unwrap() {
        Decoded::Update(p) => p,
        other => panic!("unexpected result: {:?}", other),
    };
    let parsed = parse_update(&pending);
    assert!(parsed.is_err());
    match pending.complete(parsed).unwrap_err() {
        Error::WireError(_) => {}
        other => panic!("unexpected error: {:?}", other),
    }
}

#[test]
fn first_peer_up_wins() {
    let mut decoder = BmpDecoder::new();
    let addr = IpAddress::V4(0x0A00_0001);
    let both = [2u8, 0];
    let mut src = BytesMut::from(&peer_up(0, 1, &both, &both)[..]);
    decoder.decode(&mut src).unwrap().unwrap();
    assert!(decoder.capabilities(&addr).unwrap().route_refresh);
    let mut src = BytesMut::from(&peer_up(0x20, 1, &[], &[])[..]);
    decoder.decode(&mut src).unwrap().unwrap();
    let caps: &CapabilitySet = decoder.capabilities(&addr).unwrap();
    assert!(caps.route_refresh);
    assert!(caps.four_octet_asn);
}

#[test]
fn peer_up_records_what_both_sides_announce() {
    let mut decoder = BmpDecoder::new();
    let sent = [1u8, 4, 0, 1, 0, 1, 1, 4, 0, 2, 0, 1, 2, 0, 69, 4, 0, 1, 1, 3];
    let received = [1u8, 4, 0, 2, 0, 1, 2, 0, 69, 8, 0, 1, 1, 1, 0, 2, 1, 1];
    let mut src = BytesMut::from(&peer_up(0x20, 7, &sent, &received)[..]);
    decoder.decode(&mut src).unwrap().unwrap();
    let caps = decoder.capabilities(&IpAddress::V4(0x0A00_0007)).unwrap();
    assert_eq!(caps.mp_bgp, vec![(2, 1)]);
    assert!(caps.route_refresh);
    assert_eq!(caps.add_path, vec![((1, 1), 3)]);
    assert!(caps.extended_path_nlri);
    assert!(!caps.four_octet_asn);
    assert!(!caps.bgpsec);
    assert!(caps.graceful_restart.is_empty());
}

#[test]
fn peer_up_without_opens_records_the_header_flag_only() {
    let mut decoder = BmpDecoder::new();
    let mut src = BytesMut::from(&peer_up_without_opens(0, 1)[..]);
    src.extend_from_slice(&peer_up_without_opens(0x20, 2));
    decoder.decode(&mut src).unwrap().unwrap();
    decoder.decode(&mut src).unwrap().unwrap();
    let caps = decoder.capabilities(&IpAddress::V4(0x0A00_0001)).unwrap();
    assert!(caps.four_octet_asn);
    assert!(caps.mp_bgp.is_empty());
    assert!(!caps.route_refresh);
    assert!(!caps.extended_path_nlri);
    let caps = decoder.capabilities(&IpAddress::V4(0x0A00_0002)).unwrap();
    assert!(!caps.four_octet_asn);
}

#[test]
fn failed_peer_up_records_nothing() {
    let mut decoder = BmpDecoder::new();
    let mut message = peer_up(0, 1, &[], &[]);
    message[6 + 42 + 20 + 18] = 4;
    let mut src = BytesMut::from(&message[..]);
    let e = decoder.decode(&mut src).unwrap_err();
    assert_eq!(decode_message(e), "unexpected BGP record type in BMP Peer Up: 4");
    assert!(decoder.capabilities(&IpAddress::V4(0x0A00_0001)).is_none());
    assert!(src.is_empty());
}

#[test]
fn new_decoder_stands_before_a_header() {
    let decoder = BmpDecoder::new();
    assert!(matches!(decoder.state(), DecoderState::Head));
    assert_eq!(decoder.reserve_hint(), 5);
    assert!(decoder.capabilities(&IpAddress::V4(0)).is_none());
}

#[test]
fn copy_of_a_decoder_goes_on_from_the_same_place() {
    let message = initiation("router");
    let mut decoder = BmpDecoder::new();
    let mut src = BytesMut::from(&peer_up_without_opens(0, 1)[..]);
    decoder.decode(&mut src).unwrap().unwrap();
    let mut src = BytesMut::from(&message[..7]);
    assert!(decoder.decode(&mut src).unwrap().is_none());
    let mut copy = decoder.clone();
    assert!(matches!(copy.state(), DecoderState::Data((3, 11))));
    assert!(copy.capabilities(&IpAddress::V4(0x0A00_0001)).is_some());
    let mut rest = src.clone();
    rest.extend_from_slice(&message[7..]);
    src.extend_from_slice(&message[7..]);
    assert!(copy.decode(&mut rest).unwrap().is_some());
    assert!(matches!(decoder.state(), DecoderState::Data((3, 11))));
    assert!(decoder.decode(&mut src).unwrap().is_some());
}

#[test]
fn decode_all_takes_every_whole_message() {
    let mut stream = sample_stream();
    let tail = initiation("cut");
    stream.extend_from_slice(&tail[..8]);
    let mut expected = Vec::new();
    let mut src = BytesMut::from(&stream[..]);
    drain(&mut BmpDecoder::new(), &mut src, &mut expected);
    assert_eq!(expected.len(), 8);

    let mut decoder = BmpDecoder::new();
    let mut src = BytesMut::from(&stream[..]);
    let outputs = decode_all(&mut decoder, &mut src);
    let shown: Vec<String> = outputs
        .into_iter()
        .map(|o| match o {
            Ok(decoded) => format!("{:?}", finish(decoded)),
            Err(e) => format!("{:?}", Err::<BmpMessage, Error>(e)),
        })
        .collect();
    assert_eq!(shown, expected);
    assert!(matches!(decoder.state(), DecoderState::Data((3, 8))));
    assert_eq!(&src[..], &tail[5..8]);
    assert!(decode_all(&mut decoder, &mut src).is_empty());
    src.extend_from_slice(&tail[8..]);
    assert_eq!(decode_all(&mut decoder, &mut src).len(), 1);
    assert!(src.is_empty());
    assert!(matches!(decoder.state(), DecoderState::Head));
}

#[test]
fn decode_all_in_pieces_of_one_byte() {
    let stream = sample_stream();
    let mut decoder = BmpDecoder::new();
    let mut src = BytesMut::new();
    let mut kinds = Vec::new();
    for byte in &stream {
        src.extend_from_slice(&[*byte]);
        for output in decode_all(&mut decoder, &mut src) {
            kinds.push(match output {
                Ok(Decoded::Message(m)) => m.kind.to_string(),
                Ok(Decoded::Update(_)) => String::from("update"),
                Err(e) => e.to_string(),
            });
        }
    }
    assert_eq!(
        kinds,
        vec![
            "initiation",
            "peer_up",
            "update",
            "statistics_report",
            "Decoding error: No capabilities found for neighbor 10.0.0.2",
            "peer_down",
            "Decoding error: No capabilities found for neighbor 10.0.0.1",
            "termination",
        ]
    );
}
