//! What the decoder makes of a whole stream, and why it does not matter in
//! what pieces the stream arrives.

use crate::addr::lemma_key_injective;
use crate::addr::IpAddress;
use crate::bgp::BGP_HEADER_LEN;
use crate::decoder::data_step;
use crate::decoder::decode_frame;
use crate::decoder::head_of;
use crate::decoder::peer_down_frame;
use crate::decoder::peer_up_frame;
use crate::decoder::peer_up_session;
use crate::decoder::route_monitoring_frame;
use crate::decoder::step;
use crate::decoder::BmpDecoder;
use crate::decoder::Decoded;
use crate::decoder::DecodedView;
use crate::decoder::DecoderState;
use crate::decoder::Step;
use crate::decoder::BMP_HEADER_LEN;
use crate::error::no_capabilities_text;
use crate::error::Error;
use crate::error::Failure;
use crate::store::Sessions;
use crate::types::PeerDown;
use crate::types::PeerHeader;
use crate::types::PeerUp;
use crate::types::PEER_HEADER_LEN;
use crate::wire::be_value;
use crate::wire::buf_bytes;
use crate::wire::lemma_four_bytes_fit;
use bytes::BytesMut;
use vstd::prelude::*;

verus! {

/// What comes of calling the decoder until it asks for more bytes.
pub struct Run {
    /// What the calls handed out, in order: for each message that was in the
    /// buffer in full, the message or the failure to read it
    pub outputs: Seq<Result<DecodedView, Failure>>,
    /// Where the decoder stands afterwards
    pub state: DecoderState,
    /// The bytes that are left in the buffer
    pub rest: Seq<u8>,
    /// The table of sessions afterwards
    pub sessions: Sessions,
}

/// A run that begins with `first` and goes on as `then`.
pub open spec fn after_output(first: Result<DecodedView, Failure>, then: Run) -> Run {
    Run { outputs: seq![first] + then.outputs, ..then }
}

/// Whether the header of the next message has been read: what a run gets
/// shorter by where a message has no bytes after its header.
pub open spec fn header_read(state: DecoderState) -> nat {
    match state {
        DecoderState::Head => 0,
        DecoderState::Data(_) => 1,
    }
}

/// What a call hands out, if it hands out anything.
pub open spec fn handed_out(output: Result<Option<DecodedView>, Failure>) -> Option<
    Result<DecodedView, Failure>,
> {
    match output {
        Ok(None) => None,
        Ok(Some(decoded)) => Some(Ok(decoded)),
        Err(f) => Some(Err(f)),
    }
}

/// Whether a call left less to do than it found: fewer bytes in the buffer, or
/// as many and no header read.
pub open spec fn shortens(s: Step, state: DecoderState, bytes: Seq<u8>) -> bool {
    s.rest.len() < bytes.len() || (s.rest.len() == bytes.len() && header_read(s.state)
        < header_read(state))
}

/// What comes of calling the decoder, from where it stands, until it asks for
/// more bytes. A failure ends the message that it is about, not the run.
///
/// A call that hands something out always leaves less to do
/// ([`lemma_step_progress`]), so the run ends only where a call asks for more
/// bytes.
pub open spec fn run(state: DecoderState, bytes: Seq<u8>, sessions: Sessions) -> Run
    decreases bytes.len(), header_read(state),
{
    let s = step(state, bytes, sessions);
    if handed_out(s.output) is Some && shortens(s, state, bytes) {
        after_output(handed_out(s.output)->0, run(s.state, s.rest, s.sessions))
    } else {
        Run { outputs: Seq::empty(), state: s.state, rest: s.rest, sessions: s.sessions }
    }
}

/// What a call handed out, as the view of the message or what the error says.
pub open spec fn output_view(output: Result<Decoded, Error>) -> Result<DecodedView, Failure> {
    match output {
        Ok(decoded) => Ok(decoded@),
        Err(e) => Err(e.failure()),
    }
}

/// What calls handed out, each as its view, in order.
pub open spec fn output_views(outputs: Seq<Result<Decoded, Error>>) -> Seq<
    Result<DecodedView, Failure>,
> {
    Seq::new(outputs.len(), |i: int| output_view(outputs[i]))
}

/// Takes every message off `src` that is there in full: calls the decoder
/// until it asks for more bytes and returns what the calls handed out, in
/// order. A failure stands in the place of the message that it is about.
pub fn decode_all(decoder: &mut BmpDecoder, src: &mut BytesMut) -> (outputs: Vec<
    Result<Decoded, Error>,
>)
    ensures
        output_views(outputs@) == run(
            old(decoder).phase(),
            buf_bytes(*old(src)),
            old(decoder).sessions(),
        ).outputs,
        final(decoder).phase() == run(
            old(decoder).phase(),
            buf_bytes(*old(src)),
            old(decoder).sessions(),
        ).state,
        buf_bytes(*final(src)) == run(
            old(decoder).phase(),
            buf_bytes(*old(src)),
            old(decoder).sessions(),
        ).rest,
        final(decoder).sessions() == run(
            old(decoder).phase(),
            buf_bytes(*old(src)),
            old(decoder).sessions(),
        ).sessions,
{
    let ghost whole = run(old(decoder).phase(), buf_bytes(*old(src)), old(decoder).sessions());
    let mut outputs: Vec<Result<Decoded, Error>> = Vec::new();
    proof {
        assert(output_views(outputs@) + whole.outputs =~= whole.outputs);
    }
    loop
        invariant
            whole == run(old(decoder).phase(), buf_bytes(*old(src)), old(decoder).sessions()),
            whole == (Run {
                outputs: output_views(outputs@) + run(
                    decoder.phase(),
                    buf_bytes(*src),
                    decoder.sessions(),
                ).outputs,
                ..run(decoder.phase(), buf_bytes(*src), decoder.sessions())
            }),
        decreases buf_bytes(*src).len(), header_read(decoder.phase()),
    {
        let ghost state = decoder.phase();
        let ghost bytes = buf_bytes(*src);
        let ghost sessions = decoder.sessions();
        let ghost before = output_views(outputs@);
        proof {
            lemma_step_progress(state, bytes, sessions);
        }
        let output = match decoder.decode(src) {
            Ok(None) => {
                proof {
                    assert(before + Seq::<Result<DecodedView, Failure>>::empty() =~= before);
                }
                return outputs;
            },
            Ok(Some(decoded)) => Ok(decoded),
            Err(e) => Err(e),
        };
        let ghost view = output_view(output);
        outputs.push(output);
        proof {
            let then = run(decoder.phase(), buf_bytes(*src), decoder.sessions());
            assert(output_views(outputs@) =~= before + seq![view]);
            assert(before + (seq![view] + then.outputs) =~= (before + seq![view]) + then.outputs);
        }
    }
}

/// A call never adds to the buffer, and one that hands something out leaves
/// less to do than it found, with the decoder before a header.
pub proof fn lemma_step_progress(state: DecoderState, bytes: Seq<u8>, sessions: Sessions)
    ensures
        ({
            let s = step(state, bytes, sessions);
            &&& s.rest.len() <= bytes.len()
            &&& handed_out(s.output) is Some ==> s.state == DecoderState::Head && shortens(
                s,
                state,
                bytes,
            )
        }),
{
    reveal(step);
}

/// A call that asks for more bytes comes, once more bytes are there, to what
/// a call from where it left the decoder comes to.
pub proof fn lemma_step_resumes(
    state: DecoderState,
    bytes: Seq<u8>,
    more: Seq<u8>,
    sessions: Sessions,
)
    requires
        step(state, bytes, sessions).output == Ok::<Option<DecodedView>, Failure>(None),
    ensures
        ({
            let s = step(state, bytes, sessions);
            step(state, bytes + more, sessions) == step(s.state, s.rest + more, s.sessions)
        }),
{
    reveal(step);
    let s = step(state, bytes, sessions);
    match state {
        DecoderState::Data(_) => {
            assert(s.state == state && s.rest == bytes);
        },
        DecoderState::Head => {
            if bytes.len() < BMP_HEADER_LEN {
                assert(s.state == state && s.rest == bytes);
            } else {
                let whole = bytes + more;
                assert(whole.subrange(1, 5) =~= bytes.subrange(1, 5));
                assert(whole[0] == bytes[0]);
                assert(whole.skip(BMP_HEADER_LEN as int) =~= bytes.skip(BMP_HEADER_LEN as int)
                    + more);
            }
        },
    }
}

/// A call that takes a message off the buffer comes to the same whatever
/// follows the message in the buffer; what follows stays there.
pub proof fn lemma_step_ignores_what_follows(
    state: DecoderState,
    bytes: Seq<u8>,
    more: Seq<u8>,
    sessions: Sessions,
)
    requires
        step(state, bytes, sessions).output != Ok::<Option<DecodedView>, Failure>(None),
    ensures
        ({
            let s = step(state, bytes, sessions);
            step(state, bytes + more, sessions) == (Step { rest: s.rest + more, ..s })
        }),
{
    reveal(step);
    let s = step(state, bytes, sessions);
    let whole = bytes + more;
    match state {
        DecoderState::Data((version, length)) => {
            lemma_data_step_ignores_what_follows(version, length, bytes, more, sessions);
        },
        DecoderState::Head => {
            assert(bytes.len() >= BMP_HEADER_LEN);
            assert(whole.subrange(1, 5) =~= bytes.subrange(1, 5));
            assert(whole[0] == bytes[0]);
            assert(whole.skip(BMP_HEADER_LEN as int) =~= bytes.skip(BMP_HEADER_LEN as int) + more);
            match head_of(bytes) {
                Ok(Some((version, length))) => {
                    lemma_data_step_ignores_what_follows(
                        version,
                        length,
                        bytes.skip(BMP_HEADER_LEN as int),
                        more,
                        sessions,
                    );
                },
                _ => {},
            }
        },
    }
}

proof fn lemma_data_step_ignores_what_follows(
    version: u8,
    length: usize,
    bytes: Seq<u8>,
    more: Seq<u8>,
    sessions: Sessions,
)
    requires
        bytes.len() >= length,
    ensures
        ({
            let s = data_step(version, length, bytes, sessions);
            data_step(version, length, bytes + more, sessions) == (Step {
                rest: s.rest + more,
                ..s
            })
        }),
{
    let whole = bytes + more;
    assert(whole.take(length as int) =~= bytes.take(length as int));
    assert(whole.skip(length as int) =~= bytes.skip(length as int) + more);
}

/// Bytes may come in two pieces or in one: calling the decoder until it asks
/// for more, adding `more` to the buffer and calling it again until it asks
/// for more, hands out what the calls hand out where all the bytes are there
/// from the start, in the same order, and leaves the decoder, the buffer and
/// the table of sessions the same.
pub proof fn lemma_run_in_two_pieces(
    state: DecoderState,
    bytes: Seq<u8>,
    more: Seq<u8>,
    sessions: Sessions,
)
    ensures
        ({
            let first = run(state, bytes, sessions);
            let second = run(first.state, first.rest + more, first.sessions);
            run(state, bytes + more, sessions) == (Run {
                outputs: first.outputs + second.outputs,
                ..second
            })
        }),
    decreases bytes.len(), header_read(state),
{
    let s = step(state, bytes, sessions);
    let first = run(state, bytes, sessions);
    let second = run(first.state, first.rest + more, first.sessions);
    let whole = run(state, bytes + more, sessions);
    lemma_step_progress(state, bytes, sessions);
    lemma_step_progress(state, bytes + more, sessions);
    if s.output == Ok::<Option<DecodedView>, Failure>(None) {
        lemma_step_resumes(state, bytes, more, sessions);
        assert(first.outputs =~= Seq::empty());
        assert(first.state == s.state && first.rest == s.rest && first.sessions == s.sessions);
        lemma_run_of_equal_steps(state, bytes + more, sessions, s.state, s.rest + more, s.sessions);
        assert(first.outputs + second.outputs =~= second.outputs);
    } else {
        lemma_step_ignores_what_follows(state, bytes, more, sessions);
        lemma_run_in_two_pieces(s.state, s.rest, more, s.sessions);
        let tail = run(s.state, s.rest, s.sessions);
        let tail_whole = run(s.state, s.rest + more, s.sessions);
        let out = handed_out(s.output)->0;
        assert(first == after_output(out, tail));
        assert(whole == after_output(out, tail_whole));
        assert(seq![out] + (tail.outputs + second.outputs) =~= (seq![out] + tail.outputs)
            + second.outputs);
    }
}

/// Two runs are the same where their first calls come to the same.
proof fn lemma_run_of_equal_steps(
    state_a: DecoderState,
    bytes_a: Seq<u8>,
    sessions_a: Sessions,
    state_b: DecoderState,
    bytes_b: Seq<u8>,
    sessions_b: Sessions,
)
    requires
        step(state_a, bytes_a, sessions_a) == step(state_b, bytes_b, sessions_b),
    ensures
        run(state_a, bytes_a, sessions_a) == run(state_b, bytes_b, sessions_b),
{
    lemma_step_progress(state_a, bytes_a, sessions_a);
    lemma_step_progress(state_b, bytes_b, sessions_b);
}

/// All the bytes of the given pieces, in order.
pub open spec fn joined(pieces: Seq<Seq<u8>>) -> Seq<u8>
    decreases pieces.len(),
{
    if pieces.len() == 0 {
        Seq::empty()
    } else {
        pieces[0] + joined(pieces.skip(1))
    }
}

/// What comes of a stream that arrives in the given pieces: the decoder is
/// called until it asks for more bytes, then the next piece is added to the
/// buffer and the decoder is called again, and so on to the last piece.
pub open spec fn fed(state: DecoderState, bytes: Seq<u8>, pieces: Seq<Seq<u8>>, sessions: Sessions)
    -> Run
    decreases pieces.len(),
{
    let now = run(state, bytes, sessions);
    if pieces.len() == 0 {
        now
    } else {
        let then = fed(now.state, now.rest + pieces[0], pieces.skip(1), now.sessions);
        Run { outputs: now.outputs + then.outputs, ..then }
    }
}

/// It does not matter in what pieces a stream arrives: fed piece by piece,
/// however small the pieces, the decoder hands out what it hands out where
/// the whole stream is in the buffer at once, message for message and in the
/// same order, and ends in the same state.
pub proof fn lemma_pieces_do_not_matter(
    state: DecoderState,
    bytes: Seq<u8>,
    pieces: Seq<Seq<u8>>,
    sessions: Sessions,
)
    ensures
        fed(state, bytes, pieces, sessions) == run(state, bytes + joined(pieces), sessions),
    decreases pieces.len(),
{
    if pieces.len() == 0 {
        assert(bytes + joined(pieces) =~= bytes);
    } else {
        let now = run(state, bytes, sessions);
        let rest = pieces.skip(1);
        lemma_pieces_do_not_matter(now.state, now.rest + pieces[0], rest, now.sessions);
        lemma_run_in_two_pieces(state, bytes, pieces[0] + joined(rest), sessions);
        lemma_run_in_two_pieces(now.state, now.rest, pieces[0], now.sessions);
        lemma_run_in_two_pieces(now.state, now.rest + pieces[0], joined(rest), now.sessions);
        lemma_run_settles(state, bytes, sessions);
        assert((now.rest + pieces[0]) + joined(rest) =~= now.rest + (pieces[0] + joined(rest)));
        assert(bytes + joined(pieces) =~= bytes + (pieces[0] + joined(rest)));
    }
}

/// Once the decoder has asked for more bytes, calling it again without more
/// bytes hands out nothing and changes nothing.
pub proof fn lemma_run_settles(state: DecoderState, bytes: Seq<u8>, sessions: Sessions)
    ensures
        ({
            let first = run(state, bytes, sessions);
            run(first.state, first.rest, first.sessions) == (Run {
                outputs: Seq::empty(),
                ..first
            })
        }),
    decreases bytes.len(), header_read(state),
{
    let s = step(state, bytes, sessions);
    lemma_step_progress(state, bytes, sessions);
    if s.output == Ok::<Option<DecodedView>, Failure>(None) {
        lemma_step_resumes(state, bytes, Seq::empty(), sessions);
        assert(bytes + Seq::<u8>::empty() =~= bytes);
        assert(s.rest + Seq::<u8>::empty() =~= s.rest);
        assert(step(s.state, s.rest, s.sessions) == s);
    } else {
        lemma_run_settles(s.state, s.rest, s.sessions);
    }
}

/// A message that is in the buffer in full, behind a common header whose
/// length is at least the header's own, gives exactly one output: what the
/// message comes to. The run goes on behind it.
pub proof fn lemma_run_takes_one_message(bytes: Seq<u8>, sessions: Sessions)
    requires
        bytes.len() >= BMP_HEADER_LEN,
        BMP_HEADER_LEN <= be_value(bytes.subrange(1, 5)) <= bytes.len(),
    ensures
        ({
            let total = be_value(bytes.subrange(1, 5)) as int;
            let outcome = decode_frame(
                bytes[0],
                bytes.subrange(BMP_HEADER_LEN as int, total),
                sessions,
            );
            run(DecoderState::Head, bytes, sessions) == after_output(
                outcome.result,
                run(DecoderState::Head, bytes.skip(total), outcome.sessions),
            )
        }),
{
    reveal(step);
    let total = be_value(bytes.subrange(1, 5)) as int;
    let body = bytes.skip(BMP_HEADER_LEN as int);
    let length = (total - BMP_HEADER_LEN) as usize;
    lemma_four_bytes_fit(bytes.subrange(1, 5));
    assert(body.take(length as int) =~= bytes.subrange(BMP_HEADER_LEN as int, total));
    assert(body.skip(length as int) =~= bytes.skip(total));
    lemma_step_progress(DecoderState::Head, bytes, sessions);
}

/// Whether a Route Monitoring message fails for want of a session on record
/// for the peer at `header.peer_addr`.
pub open spec fn fails_for_want_of_session(result: Result<DecodedView, Failure>, header: PeerHeader)
    -> bool {
    result == Err::<DecodedView, Failure>(Failure::Decode(no_capabilities_text(header.peer_addr)))
}

/// A Route Monitoring message is read only between the Peer Up and the Peer
/// Down message of its peer.
///
/// Take a Peer Up, a Route Monitoring and a Peer Down message of one peer
/// address, each with a well-formed per-peer header, and a Peer Up and a Peer
/// Down message that are well-formed in full. Where no session of the peer is
/// on record, the Route Monitoring message fails for want of one. After the
/// Peer Up message it does not: it is handed out, with the capabilities that
/// are on record for the peer, unless the header of its BGP message is cut
/// short; and where the Peer Up message put the session on record, those are
/// the capabilities that the Peer Up message reports. After the Peer Down
/// message it fails for want of a session again. Whether a session of a peer
/// at another address is on record, neither message changes.
pub proof fn lemma_session_lifecycle(
    version: u8,
    up: Seq<u8>,
    monitoring: Seq<u8>,
    down: Seq<u8>,
    other: IpAddress,
    sessions: Sessions,
)
    requires
        other != PeerHeader::of(up)->Ok_0.peer_addr,
        peer_up_frame(version, up, sessions).result is Ok,
        PeerHeader::of(monitoring) is Ok,
        PeerHeader::of(down) is Ok,
        PeerDown::of(down.skip(PEER_HEADER_LEN as int)) is Ok,
        PeerHeader::of(monitoring)->Ok_0.peer_addr == PeerHeader::of(up)->Ok_0.peer_addr,
        PeerHeader::of(down)->Ok_0.peer_addr == PeerHeader::of(up)->Ok_0.peer_addr,
    ensures
        ({
            let up_header = PeerHeader::of(up)->Ok_0;
            let header = PeerHeader::of(monitoring)->Ok_0;
            let key = header.peer_addr.key();
            let during = peer_up_frame(version, up, sessions).sessions;
            let after = peer_down_frame(version, down, during).sessions;
            let read = route_monitoring_frame(version, monitoring, during);
            &&& !sessions.contains_key(key) ==> fails_for_want_of_session(
                route_monitoring_frame(version, monitoring, sessions).result,
                header,
            )
            &&& during.contains_key(key)
            &&& !fails_for_want_of_session(read.result, header)
            &&& read.result is Ok <==> monitoring.len() >= PEER_HEADER_LEN + BGP_HEADER_LEN
            &&& read.result matches Ok(DecodedView::Update(pending)) ==> pending.capabilities
                == during[key]
            &&& !sessions.contains_key(key) ==> during[key] == peer_up_session(
                up_header,
                PeerUp::of(up_header.peer_flags.V, up.skip(PEER_HEADER_LEN as int))->Ok_0,
            )
            &&& !after.contains_key(key)
            &&& fails_for_want_of_session(
                route_monitoring_frame(version, monitoring, after).result,
                header,
            )
            &&& during.contains_key(other.key()) == sessions.contains_key(other.key())
            &&& after.contains_key(other.key()) == sessions.contains_key(other.key())
        }),
{
    let peer = PeerHeader::of(up)->Ok_0.peer_addr;
    if other.key() == peer.key() {
        lemma_key_injective(other, peer);
    }
}

/// The number of messages that `bytes` are made of, where they are made of
/// whole messages and nothing else: each with a common header whose length is
/// at least the header's own, and with all the bytes that the length counts.
pub open spec fn whole_messages(bytes: Seq<u8>) -> Option<nat>
    decreases bytes.len(),
{
    if bytes.len() == 0 {
        Some(0)
    } else if bytes.len() < BMP_HEADER_LEN {
        None
    } else {
        let total = be_value(bytes.subrange(1, 5));
        if BMP_HEADER_LEN <= total <= bytes.len() {
            match whole_messages(bytes.skip(total as int)) {
                Some(n) => Some(n + 1),
                None => None,
            }
        } else {
            None
        }
    }
}

/// A stream of whole messages gives one output for each message: the decoder
/// hands out as many messages or failures as there are messages in the
/// stream, takes every byte, and ends before a header.
pub proof fn lemma_one_output_per_message(bytes: Seq<u8>, sessions: Sessions)
    requires
        whole_messages(bytes) is Some,
    ensures
        run(DecoderState::Head, bytes, sessions).outputs.len() == whole_messages(bytes)->0,
        run(DecoderState::Head, bytes, sessions).state == DecoderState::Head,
        run(DecoderState::Head, bytes, sessions).rest.len() == 0,
    decreases bytes.len(),
{
    if bytes.len() == 0 {
        reveal(step);
    } else {
        let total = be_value(bytes.subrange(1, 5)) as int;
        let outcome = decode_frame(bytes[0], bytes.subrange(BMP_HEADER_LEN as int, total), sessions);
        lemma_run_takes_one_message(bytes, sessions);
        lemma_one_output_per_message(bytes.skip(total), outcome.sessions);
    }
}

} // verus!
