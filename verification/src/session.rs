//! The connection session: handshake and heartbeat frames, the per-frame
//! processing pipeline, and the state machine that decides, for each
//! receive result of a non-blocking drain burst, whether the session goes
//! on, the burst ends, or the session is over.

use vstd::prelude::*;
use crate::PacketError;
use crate::codec::{
    PacketHeader, spec_parse, spec_serialize, parse, serialize, ENC_PLAIN, OP_HEARTBEAT,
    OP_CERTIFICATE,
};
use crate::depack::{spec_decompose, decompose};
use crate::dispatch::{spec_dispatch, spec_outcome_events, dispatch, process_depacked_message};
use crate::message::{RoomEvent, RoomEventModel};
use vstd::string::{is_ascii, StrSliceExecFns, StringSliceAdditionalSpecFns};

verus! {

/// The decimal digits of `n`, as ASCII bytes, most significant first.
pub open spec fn spec_dec_digits(n: nat) -> Seq<u8>
    decreases n,
{
    if n < 10 {
        seq![(0x30 + n) as u8]
    } else {
        spec_dec_digits(n / 10) + seq![(0x30 + n % 10) as u8]
    }
}

/// Appends the decimal digits of `n`.
fn push_dec_digits(out: &mut Vec<u8>, n: u64)
    ensures
        final(out)@ == old(out)@ + spec_dec_digits(n as nat),
    decreases n,
{
    if n >= 10 {
        push_dec_digits(out, n / 10);
    }
    out.push(0x30 + (n % 10) as u8);
    proof {
        assert(out@ =~= old(out)@ + spec_dec_digits(n as nat));
    }
}

/// The JSON body of the handshake frame: viewer id, room id, a protocol
/// hint declaring support for both decompression codecs, and the
/// connection token.
pub open spec fn spec_certificate_body(uid: u64, room_id: u64, token: Seq<u8>) -> Seq<u8> {
    "{\"uid\":".spec_bytes() + spec_dec_digits(uid as nat) + ",\"roomid\":".spec_bytes()
        + spec_dec_digits(room_id as nat)
        + ",\"protover\":2,\"platform\":\"web\",\"type\":2,\"key\":\"".spec_bytes() + token
        + "\"}".spec_bytes()
}

/// The header of an outbound frame with operation `op` and a body of
/// `body_len` bytes.
pub open spec fn spec_outbound_header(op: u32, body_len: nat) -> PacketHeader {
    PacketHeader {
        total_length: (16 + body_len) as u32,
        header_length: 16,
        encoding: ENC_PLAIN,
        operation: op,
        sequence_id: 1,
    }
}

/// Builds the certificate (handshake) frame for a viewer, room and token.
/// Fails only when the body would overflow the frame's 32-bit length.
pub fn certificate_packet(uid: u64, room_id: u64, token: &[u8]) -> (r: Result<
    Vec<u8>,
    PacketError,
>)
    ensures
        match r {
            Ok(v) => {
                &&& 16 + spec_certificate_body(uid, room_id, token@).len() <= u32::MAX
                &&& v@ == spec_serialize(
                    spec_outbound_header(
                        OP_CERTIFICATE,
                        spec_certificate_body(uid, room_id, token@).len(),
                    ),
                    spec_certificate_body(uid, room_id, token@),
                )
            },
            Err(e) => {
                &&& e == PacketError::FrameError
                &&& 16 + spec_certificate_body(uid, room_id, token@).len() > u32::MAX
            },
        },
{
    let mut body: Vec<u8> = Vec::new();
    let head = "{\"uid\":";
    let mid = ",\"roomid\":";
    let tail = ",\"protover\":2,\"platform\":\"web\",\"type\":2,\"key\":\"";
    let close = "\"}";
    let mut piece = head.as_bytes_vec();
    body.append(&mut piece);
    push_dec_digits(&mut body, uid);
    let mut piece = mid.as_bytes_vec();
    body.append(&mut piece);
    push_dec_digits(&mut body, room_id);
    let mut piece = tail.as_bytes_vec();
    body.append(&mut piece);
    let mut piece = vstd::slice::slice_to_vec(token);
    body.append(&mut piece);
    let mut piece = close.as_bytes_vec();
    body.append(&mut piece);
    proof {
        assert(body@ =~= spec_certificate_body(uid, room_id, token@));
    }
    if body.len() > (u32::MAX - 16) as usize {
        return Err(PacketError::FrameError);
    }
    let header = PacketHeader {
        total_length: 16 + body.len() as u32,
        header_length: 16,
        encoding: ENC_PLAIN,
        operation: OP_CERTIFICATE,
        sequence_id: 1,
    };
    Ok(serialize(&header, body.as_slice()))
}

/// The fixed constant body of every outbound heartbeat frame.
pub open spec fn spec_heartbeat_body() -> Seq<u8> {
    "[object Object]".spec_bytes()
}

/// Builds the fixed heartbeat frame.
pub fn heartbeat_packet() -> (r: Vec<u8>)
    ensures
        r@ == spec_serialize(
            spec_outbound_header(OP_HEARTBEAT, spec_heartbeat_body().len()),
            spec_heartbeat_body(),
        ),
{
    let body = "[object Object]".as_bytes_vec();
    proof {
        reveal_strlit("[object Object]");
        broadcast use vstd::string::group_string_axioms;
        broadcast use vstd::string::is_ascii_spec_bytes;

        assert(is_ascii("[object Object]"));
        assert("[object Object]".spec_bytes().len() == 15);
    }
    let header = PacketHeader {
        total_length: 16 + body.len() as u32,
        header_length: 16,
        encoding: ENC_PLAIN,
        operation: OP_HEARTBEAT,
        sequence_id: 1,
    };
    serialize(&header, body.as_slice())
}

/// The room events one inbound transport message yields, in frame order: a
/// frame that fails to parse, decompose or dispatch yields none and is
/// dropped, not repaired.
pub open spec fn spec_frame_events(bytes: Seq<u8>) -> Seq<RoomEventModel> {
    match spec_parse(bytes) {
        Err(_) => seq![],
        Ok(p) => match spec_decompose(p.0, p.1) {
            Err(_) => seq![],
            Ok(entries) => match spec_dispatch(p.0.operation, entries) {
                Err(_) => seq![],
                Ok(o) => spec_outcome_events(o),
            },
        },
    }
}

/// Runs one inbound transport message through the whole pipeline: parse,
/// decompose, dispatch, and decode every envelope, in order.
pub fn handle_frame(bytes: &[u8]) -> (events: Vec<RoomEvent>)
    ensures
        events@.map_values(|e: RoomEvent| e@) == spec_frame_events(bytes@),
{
    let (header, body) = match parse(bytes) {
        Ok(p) => p,
        Err(_) => {
            return Vec::new();
        },
    };
    let entries = match decompose(&header, body) {
        Ok(entries) => entries,
        Err(_) => {
            return Vec::new();
        },
    };
    let outcome = match dispatch(header.operation, &entries) {
        Ok(o) => o,
        Err(_) => {
            return Vec::new();
        },
    };
    process_depacked_message(outcome)
}

/// One receive result of the non-blocking transport, as the session sees
/// it: a complete message, a would-block signal, a no-data signal (the
/// server dropped without a close handshake), a close signal, or any other
/// transport error.
pub enum RecvResult {
    Frame(Vec<u8>),
    WouldBlock,
    NoData,
    Closed,
    TransportError,
}

/// What the drain burst does after one receive result.
#[derive(Debug, Clone, Copy, PartialEq, Eq, Structural)]
pub enum DrainStep {
    /// Keep draining: the message was processed.
    Continue,
    /// Stop draining for this tick; the session stays active.
    EndBurst,
    /// The session is over, cleanly.
    EndSession,
}

/// Whether a receive result ends the session: only a no-data or close
/// signal does.
pub open spec fn spec_ends_session(input: RecvResult) -> bool {
    match input {
        RecvResult::NoData => true,
        RecvResult::Closed => true,
        _ => false,
    }
}

/// Whether a receive result ends the current drain burst without ending
/// the session: a would-block signal or any other transport error.
pub open spec fn spec_ends_burst(input: RecvResult) -> bool {
    match input {
        RecvResult::WouldBlock => true,
        RecvResult::TransportError => true,
        _ => false,
    }
}

/// One connection session's state: identity of the room and viewer, the
/// connection token, the time the last heartbeat was sent, and whether the
/// session has ended. Owned exclusively by one connection; never reused.
pub struct Session {
    pub uid: u64,
    pub room_id: u64,
    pub token: Vec<u8>,
    pub last_heartbeat_ms: u64,
    pub ended: bool,
}

impl Session {
    /// Starts a session: the state begins active with the heartbeat clock
    /// set to `now_ms`, and the certificate frame to send on connect is
    /// returned with it. Fails only when the token would overflow the
    /// frame's 32-bit length.
    pub fn start(uid: u64, room_id: u64, token: Vec<u8>, now_ms: u64) -> (r: Result<
        (Session, Vec<u8>),
        PacketError,
    >)
        ensures
            match r {
                Ok(p) => {
                    &&& p.0 == (Session {
                        uid,
                        room_id,
                        token: p.0.token,
                        last_heartbeat_ms: now_ms,
                        ended: false,
                    })
                    &&& p.0.token@ == token@
                    &&& p.1@ == spec_serialize(
                        spec_outbound_header(
                            OP_CERTIFICATE,
                            spec_certificate_body(uid, room_id, token@).len(),
                        ),
                        spec_certificate_body(uid, room_id, token@),
                    )
                },
                Err(e) => {
                    &&& e == PacketError::FrameError
                    &&& 16 + spec_certificate_body(uid, room_id, token@).len() > u32::MAX
                },
            },
    {
        let frame = certificate_packet(uid, room_id, token.as_slice())?;
        Ok((Session { uid, room_id, token, last_heartbeat_ms: now_ms, ended: false }, frame))
    }

    /// Whether a heartbeat is due: the session is active and at least 20
    /// seconds have elapsed since the last one was sent.
    pub open spec fn spec_heartbeat_due(self, now_ms: u64) -> bool {
        &&& !self.ended
        &&& now_ms - self.last_heartbeat_ms >= 20000
    }

    /// Decides whether the poll step must send a heartbeat now.
    pub fn heartbeat_due(&self, now_ms: u64) -> (r: bool)
        ensures
            r == self.spec_heartbeat_due(now_ms),
    {
        !self.ended && now_ms >= self.last_heartbeat_ms && now_ms - self.last_heartbeat_ms
            >= 20000
    }

    /// Records that a heartbeat frame was sent at `now_ms`; nothing else
    /// changes. A failed send is not recorded and so is retried on the
    /// next tick.
    pub fn note_heartbeat_sent(&mut self, now_ms: u64)
        ensures
            *final(self) == (Session { last_heartbeat_ms: now_ms, ..*old(self) }),
    {
        self.last_heartbeat_ms = now_ms;
    }

    /// Feeds one receive result of the drain burst to the session: a
    /// complete message runs through the pipeline and its events are
    /// returned in order with the burst continuing; a would-block signal or
    /// any other transport error ends the burst only; a no-data or close
    /// signal ends the session, exactly then. Nothing else about the
    /// session changes.
    pub fn on_receive(&mut self, input: RecvResult) -> (r: (Vec<RoomEvent>, DrainStep))
        requires
            !old(self).ended,
        ensures
            final(self).uid == old(self).uid,
            final(self).room_id == old(self).room_id,
            final(self).token == old(self).token,
            final(self).last_heartbeat_ms == old(self).last_heartbeat_ms,
            final(self).ended == spec_ends_session(input),
            r.1 == DrainStep::EndSession <==> spec_ends_session(input),
            r.1 == DrainStep::EndBurst <==> spec_ends_burst(input),
            match input {
                RecvResult::Frame(bytes) => r.0@.map_values(|e: RoomEvent| e@)
                    == spec_frame_events(bytes@) && r.1 == DrainStep::Continue,
                _ => r.0@.len() == 0,
            },
    {
        match input {
            RecvResult::Frame(bytes) => {
                let events = handle_frame(bytes.as_slice());
                (events, DrainStep::Continue)
            },
            RecvResult::WouldBlock => (Vec::new(), DrainStep::EndBurst),
            RecvResult::TransportError => (Vec::new(), DrainStep::EndBurst),
            RecvResult::NoData => {
                self.ended = true;
                (Vec::new(), DrainStep::EndSession)
            },
            RecvResult::Closed => {
                self.ended = true;
                (Vec::new(), DrainStep::EndSession)
            },
        }
    }
}

/// During a drain burst, a would-block result never ends the session; a
/// no-data or close result always ends it; a complete message never does.
pub proof fn lemma_drain_burst_outcomes(input: RecvResult)
    ensures
        input is WouldBlock ==> !spec_ends_session(input),
        input is NoData ==> spec_ends_session(input),
        input is Closed ==> spec_ends_session(input),
        input is Frame ==> !spec_ends_session(input) && !spec_ends_burst(input),
{
}

/// A heartbeat is due only when at least 20 seconds have elapsed since the
/// previous send, and never on an ended session.
pub proof fn lemma_heartbeat_interval(s: Session, now_ms: u64)
    ensures
        s.spec_heartbeat_due(now_ms) ==> now_ms - s.last_heartbeat_ms >= 20000 && !s.ended,
        now_ms - s.last_heartbeat_ms < 20000 ==> !s.spec_heartbeat_due(now_ms),
{
}

} // verus!