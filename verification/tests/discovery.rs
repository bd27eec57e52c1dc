use hypercan::addressing::{Addressing, CanFilter, Identifier};
use hypercan::config::CANParameters;
use hypercan::discovery::{DiscoveryAction, DiscoveryEvent, DiscoverySession};
use hypercan::errors::{
    InvalidResponse, InvalidResponseKind, QueryError, SocketBuildError, SocketError,
};
use hypercan::service::CurrentDataService;

fn params() -> CANParameters {
    CANParameters {
        socket_name: String::from("vcan0"),
        read_timeout_ms: 2000,
        write_timeout_ms: 2000,
        disable_isotp_frame_padding: false,
        tx_frame_padding: 0xCC,
        addressing: Addressing::Standard,
    }
}

#[test]
fn two_ecus_enumerate_end_to_end() {
    let service = CurrentDataService::new(params());
    let mut session = service.begin_query_available_pids();

    // The run opens a raw socket filtered to the response range.
    match session.initial_action() {
        DiscoveryAction::OpenRawSocket(cfg) => {
            assert_eq!(cfg.socket_name, "vcan0");
            assert_eq!(
                cfg.filter,
                Some(vec![CanFilter {
                    id: 0x7E8,
                    mask: 0x7F8
                }])
            );
        }
        other => panic!("expected the raw socket to open first, got {:?}", other),
    }

    // The broadcast goes to 0x7DF with the length-prefixed offset-0 query.
    match session.step(DiscoveryEvent::RawSocketOpened) {
        DiscoveryAction::SendBroadcast(frame) => {
            assert_eq!(frame.id(), Identifier::Standard(0x7DF));
            assert_eq!(frame.payload(), &vec![0x02, 0x01, 0x00]);
        }
        other => panic!("expected the broadcast frame, got {:?}", other),
    }
    assert!(matches!(
        session.step(DiscoveryEvent::BroadcastSent),
        DiscoveryAction::AwaitFrame
    ));

    // Two ECUs answer inside the window; a duplicate is recorded once.
    assert!(matches!(
        session.step(DiscoveryEvent::FrameReceived(0x7E8)),
        DiscoveryAction::AwaitFrame
    ));
    assert!(matches!(
        session.step(DiscoveryEvent::FrameReceived(0x7EA)),
        DiscoveryAction::AwaitFrame
    ));
    assert!(matches!(
        session.step(DiscoveryEvent::FrameReceived(0x7E8)),
        DiscoveryAction::AwaitFrame
    ));

    // The window elapses: the first channel opens with source 0x7E8 and
    // destination 0x7E0.
    match session.step(DiscoveryEvent::WindowElapsed) {
        DiscoveryAction::OpenChannel(cfg) => {
            assert_eq!(cfg.source_id, Identifier::Standard(0x7E8));
            assert_eq!(cfg.destination_id, Identifier::Standard(0x7E0));
            assert_eq!(cfg.tx_padding, Some(0xCC));
        }
        other => panic!("expected the first channel to open, got {:?}", other),
    }

    // First ECU: offset 0x00 reports PIDs 1..=8 and continues; offset 0x20
    // reports nothing and stops.
    match session.step(DiscoveryEvent::ChannelOpened) {
        DiscoveryAction::SendQuery(p) => assert_eq!(p, vec![0x01, 0x00]),
        other => panic!("expected the offset-0 query, got {:?}", other),
    }
    assert!(matches!(
        session.step(DiscoveryEvent::QuerySent),
        DiscoveryAction::AwaitReply
    ));
    match session.step(DiscoveryEvent::ReplyReceived(vec![
        0x41, 0x00, 0xFF, 0x00, 0x00, 0x01,
    ])) {
        DiscoveryAction::SendQuery(p) => assert_eq!(p, vec![0x01, 0x20]),
        other => panic!("expected the offset-0x20 query, got {:?}", other),
    }
    assert!(matches!(
        session.step(DiscoveryEvent::QuerySent),
        DiscoveryAction::AwaitReply
    ));

    // The first ECU finishes; the second channel opens for 0x7EA -> 0x7E2.
    match session.step(DiscoveryEvent::ReplyReceived(vec![
        0x41, 0x20, 0x00, 0x00, 0x00, 0x00,
    ])) {
        DiscoveryAction::OpenChannel(cfg) => {
            assert_eq!(cfg.source_id, Identifier::Standard(0x7EA));
            assert_eq!(cfg.destination_id, Identifier::Standard(0x7E2));
        }
        other => panic!("expected the second channel to open, got {:?}", other),
    }

    // Second ECU: one PID at offset 0x00, then stop at 0x20.
    match session.step(DiscoveryEvent::ChannelOpened) {
        DiscoveryAction::SendQuery(p) => assert_eq!(p, vec![0x01, 0x00]),
        other => panic!("expected the offset-0 query, got {:?}", other),
    }
    assert!(matches!(
        session.step(DiscoveryEvent::QuerySent),
        DiscoveryAction::AwaitReply
    ));
    match session.step(DiscoveryEvent::ReplyReceived(vec![
        0x41, 0x00, 0x80, 0x00, 0x00, 0x01,
    ])) {
        DiscoveryAction::SendQuery(p) => assert_eq!(p, vec![0x01, 0x20]),
        other => panic!("expected the offset-0x20 query, got {:?}", other),
    }
    assert!(matches!(
        session.step(DiscoveryEvent::QuerySent),
        DiscoveryAction::AwaitReply
    ));
    assert!(matches!(
        session.step(DiscoveryEvent::ReplyReceived(vec![
            0x41, 0x20, 0x00, 0x00, 0x00, 0x00
        ])),
        DiscoveryAction::Finished
    ));

    // The result maps each responding identifier to its ordered PID list.
    let results = session.into_results();
    assert_eq!(results.len(), 2);
    assert_eq!(results[0].0, Identifier::Standard(0x7E8));
    assert_eq!(results[0].1, vec![1, 2, 3, 4, 5, 6, 7, 8]);
    assert_eq!(results[1].0, Identifier::Standard(0x7EA));
    assert_eq!(results[1].1, vec![1]);
}

#[test]
fn no_responders_completes_with_an_empty_mapping() {
    let mut session = DiscoverySession::new(params());
    session.step(DiscoveryEvent::RawSocketOpened);
    session.step(DiscoveryEvent::BroadcastSent);
    assert!(matches!(
        session.step(DiscoveryEvent::WindowElapsed),
        DiscoveryAction::Finished
    ));
    assert!(session.into_results().is_empty());
}

#[test]
fn a_read_timeout_aborts_the_run() {
    let mut session = DiscoverySession::new(params());
    session.step(DiscoveryEvent::RawSocketOpened);
    session.step(DiscoveryEvent::BroadcastSent);
    session.step(DiscoveryEvent::FrameReceived(0x7E8));
    session.step(DiscoveryEvent::WindowElapsed);
    session.step(DiscoveryEvent::ChannelOpened);
    session.step(DiscoveryEvent::QuerySent);
    assert!(matches!(
        session.step(DiscoveryEvent::ReplyReadFailed(SocketError::Timeout(2000))),
        DiscoveryAction::Aborted
    ));
    assert!(matches!(
        session.into_failure(),
        QueryError::Io(SocketError::Timeout(2000))
    ));
}

#[test]
fn an_invalid_reply_aborts_with_the_validation_error() {
    let mut session = DiscoverySession::new(params());
    session.step(DiscoveryEvent::RawSocketOpened);
    session.step(DiscoveryEvent::BroadcastSent);
    session.step(DiscoveryEvent::FrameReceived(0x7E8));
    session.step(DiscoveryEvent::WindowElapsed);
    session.step(DiscoveryEvent::ChannelOpened);
    session.step(DiscoveryEvent::QuerySent);
    assert!(matches!(
        session.step(DiscoveryEvent::ReplyReceived(vec![
            0x41, 0x00, 0xFF, 0x00, 0x00
        ])),
        DiscoveryAction::Aborted
    ));
    assert!(matches!(
        session.into_failure(),
        QueryError::InvalidResponse(InvalidResponse(InvalidResponseKind::PayloadSize {
            actual: 5,
            expected: 6
        }))
    ));
}

#[test]
fn a_failed_socket_open_aborts_with_the_build_error() {
    let mut session = DiscoverySession::new(params());
    assert!(matches!(
        session.step(DiscoveryEvent::RawSocketFailed(
            SocketBuildError::SocketNotFound
        )),
        DiscoveryAction::Aborted
    ));
    assert!(matches!(
        session.into_failure(),
        QueryError::Initialization(SocketBuildError::SocketNotFound)
    ));
}

#[test]
fn extended_mode_translates_the_channel_addresses() {
    let mut p = params();
    p.addressing = Addressing::Extended;
    let mut session = DiscoverySession::new(p);
    match session.initial_action() {
        DiscoveryAction::OpenRawSocket(cfg) => {
            let filters = cfg.filter.expect("the response filters are installed");
            assert_eq!(filters.len(), 4);
            let passes = |id: u32| {
                filters
                    .iter()
                    .any(|f| (id & f.mask) == (f.id & f.mask))
            };
            for id in 0x18DAF101u32..=0x18DAF108 {
                assert!(passes(id));
            }
            assert!(!passes(0x18DAF100));
            assert!(!passes(0x18DAF109));
        }
        other => panic!("expected the raw socket to open first, got {:?}", other),
    }
    match session.step(DiscoveryEvent::RawSocketOpened) {
        DiscoveryAction::SendBroadcast(frame) => {
            assert_eq!(frame.id(), Identifier::Extended(0x18DB33F1));
        }
        other => panic!("expected the broadcast frame, got {:?}", other),
    }
    session.step(DiscoveryEvent::BroadcastSent);
    session.step(DiscoveryEvent::FrameReceived(0x18DAF101));
    match session.step(DiscoveryEvent::WindowElapsed) {
        DiscoveryAction::OpenChannel(cfg) => {
            assert_eq!(cfg.source_id, Identifier::Extended(0x18DAF101));
            assert_eq!(cfg.destination_id, Identifier::Extended(0x18DA01F1));
        }
        other => panic!("expected the channel to open, got {:?}", other),
    }
}

#[test]
fn a_wrong_offset_echo_aborts_naming_position_one() {
    let mut session = DiscoverySession::new(params());
    session.step(DiscoveryEvent::RawSocketOpened);
    session.step(DiscoveryEvent::BroadcastSent);
    session.step(DiscoveryEvent::FrameReceived(0x7E8));
    session.step(DiscoveryEvent::WindowElapsed);
    session.step(DiscoveryEvent::ChannelOpened);
    session.step(DiscoveryEvent::QuerySent);
    session.step(DiscoveryEvent::ReplyReceived(vec![
        0x41, 0x00, 0xFF, 0x00, 0x00, 0x01,
    ]));
    session.step(DiscoveryEvent::QuerySent);
    // The reply echoes offset 0x00 although 0x20 was queried.
    assert!(matches!(
        session.step(DiscoveryEvent::ReplyReceived(vec![
            0x41, 0x00, 0x00, 0x00, 0x00, 0x00
        ])),
        DiscoveryAction::Aborted
    ));
    match session.into_failure() {
        QueryError::InvalidResponse(InvalidResponse(InvalidResponseKind::FieldValue {
            field_id,
            ..
        })) => {
            assert_eq!(field_id.human_readable(), "at position 1");
        }
        other => panic!("expected a field-value mismatch, got {:?}", other),
    }
}

#[test]
fn reply_overflow_guard_only_fires_at_the_last_offset() {
    let session = DiscoverySession::new(params());
    assert!(!session.reply_would_overflow(&vec![0x41, 0x00, 0x00, 0x00, 0x00, 0x01]));
}
