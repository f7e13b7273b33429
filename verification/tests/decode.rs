use roomfeed::codec::{serialize, PacketHeader, ENC_PLAIN, OP_HEARTBEAT_ACK, OP_MESSAGE};
use roomfeed::depack::decompose;
use roomfeed::dispatch::{dispatch, process_depacked_message, ControlOutcome};
use roomfeed::message::{decode, DecodeError, Envelope, GuardRank, InteractKind, RoomEvent};
use roomfeed::PacketError;

fn envelope(command: &str, payload: &str) -> Envelope {
    Envelope {
        command: command.to_string(),
        payload: serde_json::from_str(payload).unwrap(),
    }
}

fn message_outcome(entries_json: &[&str]) -> ControlOutcome {
    let mut bodies = Vec::new();
    for j in entries_json {
        let h = PacketHeader {
            total_length: 16 + j.len() as u32,
            header_length: 16,
            encoding: ENC_PLAIN,
            operation: OP_MESSAGE,
            sequence_id: 1,
        };
        bodies.push(serialize(&h, j.as_bytes()));
    }
    let inner: Vec<u8> = bodies.concat();
    // frame the concatenation as a zlib stream so dispatch sees many entries
    let packed = {
        let mut enc = flate2::write::ZlibEncoder::new(Vec::new(), flate2::Compression::default());
        std::io::Write::write_all(&mut enc, &inner).unwrap();
        enc.finish().unwrap()
    };
    let h = PacketHeader {
        total_length: 16 + packed.len() as u32,
        header_length: 16,
        encoding: roomfeed::codec::ENC_ZLIB,
        operation: OP_MESSAGE,
        sequence_id: 1,
    };
    let entries = decompose(&h, packed).unwrap();
    dispatch(OP_MESSAGE, &entries).unwrap()
}

#[test]
fn heartbeat_ack_body_decodes_to_popularity_count() {
    let h = PacketHeader {
        total_length: 20,
        header_length: 16,
        encoding: roomfeed::codec::ENC_INTEGER,
        operation: OP_HEARTBEAT_ACK,
        sequence_id: 1,
    };
    let entries = decompose(&h, vec![0x00, 0x00, 0x04, 0xD2]).unwrap();
    match dispatch(OP_HEARTBEAT_ACK, &entries).unwrap() {
        ControlOutcome::HeartbeatAccepted(n) => assert_eq!(n, 1234),
        _ => panic!("expected a heartbeat acknowledgment"),
    }
}

#[test]
fn heartbeat_ack_with_short_body_is_deserialize_error() {
    let h = PacketHeader {
        total_length: 19,
        header_length: 16,
        encoding: roomfeed::codec::ENC_INTEGER,
        operation: OP_HEARTBEAT_ACK,
        sequence_id: 1,
    };
    let entries = decompose(&h, vec![0x00, 0x00, 0x04]).unwrap();
    assert_eq!(
        dispatch(OP_HEARTBEAT_ACK, &entries).unwrap_err(),
        PacketError::DeserializeError
    );
}

#[test]
fn certificate_ack_is_accepted_without_validation() {
    let h = PacketHeader {
        total_length: 16,
        header_length: 16,
        encoding: ENC_PLAIN,
        operation: roomfeed::codec::OP_CERTIFICATE_ACK,
        sequence_id: 1,
    };
    let entries = decompose(&h, Vec::new()).unwrap();
    assert!(matches!(
        dispatch(roomfeed::codec::OP_CERTIFICATE_ACK, &entries).unwrap(),
        ControlOutcome::CertificateAccepted
    ));
}

#[test]
fn unknown_operation_is_unsupported() {
    let h = PacketHeader {
        total_length: 16,
        header_length: 16,
        encoding: ENC_PLAIN,
        operation: 99,
        sequence_id: 1,
    };
    let entries = decompose(&h, Vec::new()).unwrap();
    assert_eq!(dispatch(99, &entries).unwrap_err(), PacketError::UnsupportedOperation);
}

#[test]
fn send_gift_decodes_to_gift_sent() {
    let e = envelope("SEND_GIFT", r#"{"uname":"Alice","num":3,"giftName":"Rose"}"#);
    match decode(&e).unwrap() {
        RoomEvent::GiftSent { username, count, gift_name } => {
            assert_eq!(username, "Alice");
            assert_eq!(count, 3);
            assert_eq!(gift_name, "Rose");
        },
        _ => panic!("expected a gift"),
    }
}

#[test]
fn send_gift_entry_passes_through_dispatcher() {
    let outcome = message_outcome(&[
        r#"{"cmd":"SEND_GIFT","data":{"uname":"Alice","num":3,"giftName":"Rose"}}"#,
    ]);
    let events = process_depacked_message(outcome);
    assert_eq!(events.len(), 1);
    match &events[0] {
        RoomEvent::GiftSent { username, count, gift_name } => {
            assert_eq!(username, "Alice");
            assert_eq!(*count, 3);
            assert_eq!(gift_name, "Rose");
        },
        _ => panic!("expected a gift"),
    }
}

#[test]
fn bad_entries_are_skipped_without_discarding_batch() {
    let outcome = message_outcome(&[
        r#"{"cmd":"SEND_GIFT","data":{"uname":"A","num":1,"giftName":"Rose"}}"#,
        "not json at all",
        r#"{"nocmd":true}"#,
        r#"{"cmd":"LIVE"}"#,
    ]);
    match &outcome {
        ControlOutcome::Envelopes(es) => assert_eq!(es.len(), 2),
        _ => panic!("expected envelopes"),
    }
    let events = process_depacked_message(outcome);
    assert_eq!(events.len(), 2);
    assert!(matches!(events[1], RoomEvent::LiveStart));
}

#[test]
fn live_and_preparing_decode_to_lifecycle_events() {
    assert!(matches!(decode(&envelope("LIVE", "{}")).unwrap(), RoomEvent::LiveStart));
    assert!(matches!(decode(&envelope("PREPARING", "{}")).unwrap(), RoomEvent::LiveStop));
}

#[test]
fn welcome_decodes_username_and_privilege() {
    let e = envelope("WELCOME", r#"{"uname":"Bob","is_admin":true}"#);
    match decode(&e).unwrap() {
        RoomEvent::Welcome { username, is_privileged } => {
            assert_eq!(username, "Bob");
            assert!(is_privileged);
        },
        _ => panic!("expected a welcome"),
    }
}

#[test]
fn welcome_guard_decodes_rank() {
    let e = envelope("WELCOME_GUARD", r#"{"uname":"Eve","guard_level":2}"#);
    match decode(&e).unwrap() {
        RoomEvent::WelcomeGuard { username, guard_rank } => {
            assert_eq!(username, "Eve");
            assert_eq!(guard_rank, GuardRank::Commander);
        },
        _ => panic!("expected a member welcome"),
    }
}

#[test]
fn warning_and_cut_off_carry_text() {
    match decode(&envelope("WARNING", r#"{"msg":"behave"}"#)).unwrap() {
        RoomEvent::Warning { text } => assert_eq!(text, "behave"),
        _ => panic!("expected a warning"),
    }
    match decode(&envelope("CUT_OFF", r#"{"msg":"stopped"}"#)).unwrap() {
        RoomEvent::LiveCutOff { text } => assert_eq!(text, "stopped"),
        _ => panic!("expected a cut-off"),
    }
}

#[test]
fn danmaku_decodes_positional_fields() {
    let payload = r#"[[0],"hello world",[77,"Carol",1],[21,"fans"],0,0,0,2]"#;
    let e = envelope("DANMU_MSG", payload);
    match decode(&e).unwrap() {
        RoomEvent::Danmaku { username, text, is_privileged, guard_rank, fan_badge } => {
            assert_eq!(username, "Carol");
            assert_eq!(text, "hello world");
            assert!(is_privileged);
            assert_eq!(guard_rank, Some(GuardRank::Commander));
            let badge = fan_badge.expect("badge expected");
            assert_eq!(badge.label, "fans");
            assert_eq!(badge.level, 21);
        },
        _ => panic!("expected a chat line"),
    }
}

#[test]
fn danmaku_empty_badge_and_zero_guard_are_none() {
    let payload = r#"[[0],"hi",[5,"Dan",0],[],0,0,0,0]"#;
    match decode(&envelope("DANMU_MSG", payload)).unwrap() {
        RoomEvent::Danmaku { is_privileged, guard_rank, fan_badge, .. } => {
            assert!(!is_privileged);
            assert_eq!(guard_rank, None);
            assert!(fan_badge.is_none());
        },
        _ => panic!("expected a chat line"),
    }
}

#[test]
fn truncated_danmaku_array_is_deserialize_error_not_defaulted() {
    // index 7 (the guard rank) is missing
    let payload = r#"[[0],"hello",[77,"Carol",1],[21,"fans"]]"#;
    assert!(matches!(
        decode(&envelope("DANMU_MSG", payload)).unwrap_err(),
        DecodeError::DeserializeError
    ));
    // the nested user array is missing its username index
    let payload = r#"[[0],"hello",[77],[21,"fans"],0,0,0,0]"#;
    assert!(matches!(
        decode(&envelope("DANMU_MSG", payload)).unwrap_err(),
        DecodeError::DeserializeError
    ));
}

#[test]
fn super_chat_decodes_price_and_text() {
    let e = envelope("SUPER_CHAT_MESSAGE", r#"{"uname":"Pat","price":30,"message":"hi!"}"#);
    match decode(&e).unwrap() {
        RoomEvent::SuperChat { username, price, text } => {
            assert_eq!(username, "Pat");
            assert_eq!(price, 30);
            assert_eq!(text, "hi!");
        },
        _ => panic!("expected a super chat"),
    }
}

#[test]
fn interact_decodes_each_kind() {
    let kinds = [
        (1, InteractKind::Enter),
        (2, InteractKind::Follow),
        (3, InteractKind::Share),
        (4, InteractKind::SpecialFollow),
        (5, InteractKind::MutualFollow),
    ];
    for (n, expected) in kinds {
        let payload = format!(r#"{{"uname":"Kim","msg_type":{}}}"#, n);
        match decode(&envelope("INTERACT_WORD", &payload)).unwrap() {
            RoomEvent::Interact { username, kind } => {
                assert_eq!(username, "Kim");
                assert_eq!(kind, expected);
            },
            _ => panic!("expected an interaction"),
        }
    }
    assert!(matches!(
        decode(&envelope("INTERACT_WORD", r#"{"uname":"Kim","msg_type":6}"#)).unwrap_err(),
        DecodeError::DeserializeError
    ));
}

#[test]
fn guard_buy_decodes_rank_and_months() {
    let e = envelope("GUARD_BUY", r#"{"uname":"Lee","guard_level":3,"num":12}"#);
    match decode(&e).unwrap() {
        RoomEvent::GuardPurchase { username, guard_rank, months } => {
            assert_eq!(username, "Lee");
            assert_eq!(guard_rank, GuardRank::Governor);
            assert_eq!(months, 12);
        },
        _ => panic!("expected a membership purchase"),
    }
}

#[test]
fn unknown_command_is_not_supported_never_deserialize_error() {
    // even with a payload that would fail every known rule
    match decode(&envelope("SOME_FUTURE_EVENT", "null")).unwrap_err() {
        DecodeError::NotSupported(cmd) => assert_eq!(cmd, "SOME_FUTURE_EVENT"),
        DecodeError::DeserializeError => panic!("an unknown command must not be a payload error"),
    }
}

#[test]
fn known_command_with_wrong_payload_is_deserialize_error() {
    assert!(matches!(
        decode(&envelope("SEND_GIFT", r#"{"uname":"A"}"#)).unwrap_err(),
        DecodeError::DeserializeError
    ));
    assert!(matches!(
        decode(&envelope("WELCOME", r#"{"uname":"B","is_admin":"yes"}"#)).unwrap_err(),
        DecodeError::DeserializeError
    ));
}

#[test]
fn acknowledgments_carry_no_events() {
    assert!(process_depacked_message(ControlOutcome::CertificateAccepted).is_empty());
    assert!(process_depacked_message(ControlOutcome::HeartbeatAccepted(55)).is_empty());
}

#[test]
fn guard_ranks_are_ordered_by_privilege() {
    assert!(GuardRank::Captain < GuardRank::Commander);
    assert!(GuardRank::Commander < GuardRank::Governor);
}
