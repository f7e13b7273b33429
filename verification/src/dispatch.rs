//! The operation dispatcher: a header's operation code plus the decomposed
//! body entries yield one session-level outcome — certificate acknowledged,
//! heartbeat acknowledged with a popularity count, or a batch of raw
//! message envelopes.

use vstd::prelude::*;
use crate::PacketError;
use crate::codec::{
    PacketHeader, spec_u32_from_be_bytes, read_u32_be, OP_HEARTBEAT_ACK, OP_MESSAGE,
    OP_CERTIFICATE_ACK,
};
use crate::depack::Entry;
use crate::json::{JsonVal, json_model, json_parse, obj_field, parse_value, get_field, clone_value};
use crate::message::{
    Envelope, spec_obj_str, obj_str, RoomEvent, RoomEventModel, spec_decode, decode,
};

verus! {

/// The session-level outcome of one inbound transport message.
#[derive(Debug)]
pub enum ControlOutcome {
    /// The handshake was acknowledged; the entry content is not validated.
    CertificateAccepted,
    /// A heartbeat was acknowledged with the room's popularity count.
    HeartbeatAccepted(u32),
    /// A batch of raw message envelopes, in frame order.
    Envelopes(Vec<Envelope>),
}

/// The mathematical shape of a session-level outcome.
pub enum ControlOutcomeModel {
    CertificateAccepted,
    HeartbeatAccepted(u32),
    Envelopes(Seq<(Seq<char>, JsonVal)>),
}

impl View for ControlOutcome {
    type V = ControlOutcomeModel;

    open spec fn view(&self) -> ControlOutcomeModel {
        match self {
            ControlOutcome::CertificateAccepted => ControlOutcomeModel::CertificateAccepted,
            ControlOutcome::HeartbeatAccepted(n) => ControlOutcomeModel::HeartbeatAccepted(*n),
            ControlOutcome::Envelopes(es) => ControlOutcomeModel::Envelopes(
                es@.map_values(|e: Envelope| e@),
            ),
        }
    }
}

/// The payload associated with a parsed message object: its `data` field if
/// there is one, else its `info` field, else the object itself.
pub open spec fn spec_payload_of(m: JsonVal) -> JsonVal {
    match obj_field(m, "data"@) {
        Some(d) => d,
        None => match obj_field(m, "info"@) {
            Some(i) => i,
            None => m,
        },
    }
}

/// What extracting an envelope from one entry's bytes yields: `None` when
/// the bytes do not parse as a JSON object with a string `cmd` field,
/// otherwise the command together with its associated payload.
pub open spec fn spec_envelope(bytes: Seq<u8>) -> Option<(Seq<char>, JsonVal)> {
    match json_parse(bytes) {
        None => None,
        Some(m) => match spec_obj_str(m, "cmd"@) {
            None => None,
            Some(cmd) => Some((cmd, spec_payload_of(m))),
        },
    }
}

/// The envelopes of a batch of entries, in order; entries whose bytes do
/// not parse or that lack a command are skipped individually.
pub open spec fn spec_collect_envelopes(entries: Seq<(PacketHeader, Seq<u8>)>) -> Seq<
    (Seq<char>, JsonVal),
>
    decreases entries.len(),
{
    if entries.len() == 0 {
        seq![]
    } else {
        let rest = spec_collect_envelopes(entries.drop_first());
        match spec_envelope(entries.first().1) {
            Some(e) => seq![e] + rest,
            None => rest,
        }
    }
}

/// What dispatching an operation code over decomposed entries yields:
/// `CertificateAccepted` for a certificate acknowledgment; the big-endian
/// count read from the first four bytes of the single entry for a heartbeat
/// acknowledgment (`DeserializeError` when fewer than four bytes are
/// there); the collected envelopes for a message; `UnsupportedOperation`
/// for any other code.
pub open spec fn spec_dispatch(op: u32, entries: Seq<(PacketHeader, Seq<u8>)>) -> Result<
    ControlOutcomeModel,
    PacketError,
> {
    if op == OP_CERTIFICATE_ACK {
        Ok(ControlOutcomeModel::CertificateAccepted)
    } else if op == OP_HEARTBEAT_ACK {
        if entries.len() >= 1 && entries[0].1.len() >= 4 {
            Ok(ControlOutcomeModel::HeartbeatAccepted(
                spec_u32_from_be_bytes(entries[0].1.subrange(0, 4)),
            ))
        } else {
            Err(PacketError::DeserializeError)
        }
    } else if op == OP_MESSAGE {
        Ok(ControlOutcomeModel::Envelopes(spec_collect_envelopes(entries)))
    } else {
        Err(PacketError::UnsupportedOperation)
    }
}

/// Extracts the envelope carried by one entry's bytes.
fn envelope_of(bytes: &[u8]) -> (r: Option<Envelope>)
    ensures
        match r {
            Some(e) => spec_envelope(bytes@) == Some(e@),
            None => spec_envelope(bytes@) is None,
        },
{
    let root = match parse_value(bytes) {
        Some(v) => v,
        None => {
            return None;
        },
    };
    let command = match obj_str(&root, "cmd") {
        Some(c) => c,
        None => {
            return None;
        },
    };
    let payload = match get_field(&root, "data") {
        Some(d) => clone_value(d),
        None => match get_field(&root, "info") {
            Some(i) => clone_value(i),
            None => root,
        },
    };
    Some(Envelope { command, payload })
}

/// Dispatches a frame's operation code over its decomposed entries to one
/// session-level outcome.
pub fn dispatch(operation: u32, entries: &Vec<Entry>) -> (r: Result<ControlOutcome, PacketError>)
    ensures
        match r {
            Ok(o) => spec_dispatch(operation, entries@.map_values(|e: Entry| e@)) == Ok::<
                _,
                PacketError,
            >(o@),
            Err(e) => spec_dispatch(operation, entries@.map_values(|e: Entry| e@)) == Err::<
                ControlOutcomeModel,
                _,
            >(e),
        },
{
    let ghost views = entries@.map_values(|e: Entry| e@);
    if operation == OP_CERTIFICATE_ACK {
        Ok(ControlOutcome::CertificateAccepted)
    } else if operation == OP_HEARTBEAT_ACK {
        if entries.len() >= 1 && entries[0].body.len() >= 4 {
            let count = read_u32_be(entries[0].body.as_slice(), 0);
            proof {
                assert(views[0].1 == entries@[0].body@);
            }
            Ok(ControlOutcome::HeartbeatAccepted(count))
        } else {
            Err(PacketError::DeserializeError)
        }
    } else if operation == OP_MESSAGE {
        let mut out: Vec<Envelope> = Vec::new();
        let mut i: usize = 0;
        proof {
            assert(views.skip(0) =~= views);
        }
        while i < entries.len()
            invariant
                i <= entries@.len(),
                views == entries@.map_values(|e: Entry| e@),
                spec_collect_envelopes(views) == out@.map_values(|e: Envelope| e@)
                    + spec_collect_envelopes(views.skip(i as int)),
            decreases entries@.len() - i,
        {
            let ghost old_out = out@;
            match envelope_of(entries[i].body.as_slice()) {
                Some(e) => {
                    out.push(e);
                },
                None => {},
            }
            proof {
                assert(views.skip(i as int).drop_first() =~= views.skip(i + 1));
                assert(views.skip(i as int).first() == views[i as int]);
                assert(views[i as int].1 == entries@[i as int].body@);
                match spec_envelope(entries@[i as int].body@) {
                    Some(ev) => {
                        assert(out@.map_values(|e: Envelope| e@) =~= old_out.map_values(
                            |e: Envelope| e@,
                        ) + seq![ev]);
                        assert(old_out.map_values(|e: Envelope| e@) + (seq![ev]
                            + spec_collect_envelopes(views.skip(i + 1))) =~= out@.map_values(
                            |e: Envelope| e@,
                        ) + spec_collect_envelopes(views.skip(i + 1)));
                    },
                    None => {},
                }
            }
            i = i + 1;
        }
        proof {
            assert(views.skip(entries@.len() as int) =~= Seq::<(PacketHeader, Seq<u8>)>::empty());
            assert(out@.map_values(|e: Envelope| e@) + seq![] =~= out@.map_values(
                |e: Envelope| e@,
            ));
        }
        Ok(ControlOutcome::Envelopes(out))
    } else {
        Err(PacketError::UnsupportedOperation)
    }
}

/// The events decoded from a batch of envelopes, in order; envelopes whose
/// command is unsupported or whose payload is malformed are skipped
/// individually.
pub open spec fn spec_decode_all(es: Seq<(Seq<char>, JsonVal)>) -> Seq<RoomEventModel>
    decreases es.len(),
{
    if es.len() == 0 {
        seq![]
    } else {
        let rest = spec_decode_all(es.drop_first());
        match spec_decode(es.first().0, es.first().1) {
            Ok(ev) => seq![ev] + rest,
            Err(_) => rest,
        }
    }
}

/// The room events a session-level outcome carries: the decoded envelopes
/// of a message batch; none for an acknowledgment.
pub open spec fn spec_outcome_events(o: ControlOutcomeModel) -> Seq<RoomEventModel> {
    match o {
        ControlOutcomeModel::Envelopes(es) => spec_decode_all(es),
        _ => seq![],
    }
}

/// Turns one session-level outcome into the room events it carries:
/// acknowledgments carry none; a message batch is decoded envelope by
/// envelope, in order, skipping each envelope that is unsupported or
/// malformed without discarding the rest.
pub fn process_depacked_message(message: ControlOutcome) -> (events: Vec<RoomEvent>)
    ensures
        events@.map_values(|e: RoomEvent| e@) == spec_outcome_events(message@),
{
    let list = match message {
        ControlOutcome::CertificateAccepted => {
            return Vec::new();
        },
        ControlOutcome::HeartbeatAccepted(_) => {
            return Vec::new();
        },
        ControlOutcome::Envelopes(list) => list,
    };
    let ghost views = list@.map_values(|e: Envelope| e@);
    let mut events: Vec<RoomEvent> = Vec::new();
    let mut i: usize = 0;
    proof {
        assert(views.skip(0) =~= views);
    }
    while i < list.len()
        invariant
            i <= list@.len(),
            views == list@.map_values(|e: Envelope| e@),
            spec_decode_all(views) == events@.map_values(|e: RoomEvent| e@) + spec_decode_all(
                views.skip(i as int),
            ),
        decreases list@.len() - i,
    {
        let ghost old_events = events@;
        match decode(&list[i]) {
            Ok(ev) => {
                events.push(ev);
            },
            Err(_) => {},
        }
        proof {
            assert(views.skip(i as int).drop_first() =~= views.skip(i + 1));
            assert(views.skip(i as int).first() == views[i as int]);
            assert(views[i as int] == list@[i as int]@);
            match spec_decode(views[i as int].0, views[i as int].1) {
                Ok(ev) => {
                    assert(events@.map_values(|e: RoomEvent| e@) =~= old_events.map_values(
                        |e: RoomEvent| e@,
                    ) + seq![ev]);
                    assert(old_events.map_values(|e: RoomEvent| e@) + (seq![ev] + spec_decode_all(
                        views.skip(i + 1),
                    )) =~= events@.map_values(|e: RoomEvent| e@) + spec_decode_all(
                        views.skip(i + 1),
                    ));
                },
                Err(_) => {},
            }
        }
        i = i + 1;
    }
    proof {
        assert(views.skip(list@.len() as int) =~= Seq::<(Seq<char>, JsonVal)>::empty());
        assert(events@.map_values(|e: RoomEvent| e@) + seq![] =~= events@.map_values(
            |e: RoomEvent| e@,
        ));
    }
    events
}

} // verus!
