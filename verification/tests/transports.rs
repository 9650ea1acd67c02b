use bytes::BytesMut;

use migo_net::framing::{length_prefixed, next_correlation, take_frame, Oversized};
use migo_net::gateway::{self, GatewayError, RefusalCode};
use migo_net::quic::{
    class_may_ride_datagram, datagram_eligible, QuicError, QuicGateway, QuicRead, QuicStep,
};
use migo_net::tcp::{TcpError, TcpGateway, TcpRead};
use migo_net::wire::{DeliveryClass, Opcode};

const CEILING: usize = 1024;

/// A frame's bytes, and the same behind their length.
fn frame_bytes(payload: &[u8]) -> (Vec<u8>, Vec<u8>) {
    let body = payload.to_vec();
    let wire = length_prefixed(&body, CEILING).expect("fits");
    (body, wire)
}

fn quic_frame(step: Result<QuicStep, QuicError>) -> Option<Vec<u8>> {
    match step {
        Ok(QuicStep::Frame(frame)) => Some(frame),
        Ok(_) => None,
        Err(error) => panic!("{}", error.message()),
    }
}

fn tcp_frame(step: Result<Option<Vec<u8>>, TcpError>) -> Option<Vec<u8>> {
    match step {
        Ok(frame) => frame,
        Err(error) => panic!("{}", error.message()),
    }
}

#[test]
fn a_critical_request_never_rides_a_datagram() {
    assert!(
        !class_may_ride_datagram(DeliveryClass::Critical),
        "a Critical request must stay on the reliable stream"
    );
}

#[test]
fn a_coalescable_request_may_ride_a_datagram() {
    assert!(
        class_may_ride_datagram(DeliveryClass::Coalescable),
        "a Coalescable request may take the lossy ride"
    );
}

#[test]
fn a_datagram_is_taken_only_where_it_fits() {
    assert!(datagram_eligible(Some(1200), 1200, DeliveryClass::Coalescable));
    assert!(!datagram_eligible(Some(1200), 1201, DeliveryClass::Coalescable));
    assert!(!datagram_eligible(None, 1, DeliveryClass::Coalescable));
    assert!(!datagram_eligible(Some(1200), 1, DeliveryClass::Critical));
    assert!(datagram_eligible(Some(1200), 1, DeliveryClass::Droppable));
}

#[test]
fn quic_a_whole_prefix_and_frame_is_peeled_in_one_step() {
    let (body, wire) = frame_bytes(b"hello");
    let mut gateway = QuicGateway::new(CEILING);
    let frame = quic_frame(gateway.next_frame(Some(QuicRead::Bytes(wire)))).expect("is some");
    assert_eq!(frame, body);
    assert!(
        quic_frame(gateway.next_frame(None)).is_none(),
        "the prefix and the body are both consumed"
    );
}

#[test]
fn quic_a_partial_frame_is_not_an_error_and_resumes() {
    let (body, wire) = frame_bytes(b"hello");
    let mut gateway = QuicGateway::new(CEILING);
    let cut = wire.len() - 1;
    assert!(quic_frame(gateway.next_frame(Some(QuicRead::Bytes(wire[..cut].to_vec())))).is_none());
    assert_eq!(
        quic_frame(gateway.next_frame(Some(QuicRead::Bytes(wire[cut..].to_vec())))),
        Some(body)
    );
}

#[test]
fn quic_a_partial_prefix_is_not_an_error() {
    let (_, wire) = frame_bytes(b"hello");
    let mut gateway = QuicGateway::new(CEILING);
    assert!(quic_frame(gateway.next_frame(Some(QuicRead::Bytes(wire[..3].to_vec())))).is_none());
}

#[test]
fn quic_two_frames_peel_in_order() {
    let (first, mut wire) = frame_bytes(b"first");
    let (second, second_wire) = frame_bytes(b"second");
    wire.extend_from_slice(&second_wire);
    let mut gateway = QuicGateway::new(CEILING);
    assert_eq!(quic_frame(gateway.next_frame(Some(QuicRead::Bytes(wire)))), Some(first));
    assert_eq!(quic_frame(gateway.next_frame(None)), Some(second));
}

#[test]
fn quic_a_hostile_prefix_is_refused_without_buffering() {
    let mut gateway = QuicGateway::new(CEILING);
    let read = QuicRead::Bytes(u32::MAX.to_be_bytes().to_vec());
    assert!(matches!(gateway.next_frame(Some(read)), Err(QuicError::Malformed)));
    let mut buf = BytesMut::new();
    buf.extend_from_slice(&u32::MAX.to_be_bytes());
    assert_eq!(take_frame(&mut buf, CEILING), Err(Oversized));
    assert_eq!(buf.len(), 4, "nothing past the prefix was buffered");
}

#[test]
fn tcp_a_whole_prefix_and_frame_is_peeled_in_one_step() {
    let (body, wire) = frame_bytes(b"hello");
    let mut gateway = TcpGateway::new(CEILING);
    let frame = tcp_frame(gateway.next_frame(Some(TcpRead::Bytes(wire)))).expect("is some");
    assert_eq!(frame, body);
    assert!(
        tcp_frame(gateway.next_frame(None)).is_none(),
        "the prefix and the body are both consumed"
    );
}

#[test]
fn tcp_a_partial_frame_is_not_an_error_and_resumes() {
    let (body, wire) = frame_bytes(b"hello");
    let mut gateway = TcpGateway::new(CEILING);
    let cut = wire.len() - 1;
    assert!(tcp_frame(gateway.next_frame(Some(TcpRead::Bytes(wire[..cut].to_vec())))).is_none());
    assert_eq!(
        tcp_frame(gateway.next_frame(Some(TcpRead::Bytes(wire[cut..].to_vec())))),
        Some(body)
    );
}

#[test]
fn tcp_a_partial_prefix_is_not_an_error() {
    let (_, wire) = frame_bytes(b"hello");
    let mut gateway = TcpGateway::new(CEILING);
    assert!(tcp_frame(gateway.next_frame(Some(TcpRead::Bytes(wire[..3].to_vec())))).is_none());
}

#[test]
fn tcp_two_frames_peel_in_order() {
    let (first, mut wire) = frame_bytes(b"first");
    let (second, second_wire) = frame_bytes(b"second");
    wire.extend_from_slice(&second_wire);
    let mut gateway = TcpGateway::new(CEILING);
    assert_eq!(tcp_frame(gateway.next_frame(Some(TcpRead::Bytes(wire)))), Some(first));
    assert_eq!(tcp_frame(gateway.next_frame(None)), Some(second));
}

#[test]
fn tcp_a_hostile_prefix_is_refused_without_buffering() {
    let mut gateway = TcpGateway::new(CEILING);
    let read = TcpRead::Bytes(u32::MAX.to_be_bytes().to_vec());
    assert!(matches!(gateway.next_frame(Some(read)), Err(TcpError::Malformed)));
    let mut buf = BytesMut::new();
    buf.extend_from_slice(&u32::MAX.to_be_bytes());
    assert_eq!(take_frame(&mut buf, CEILING), Err(Oversized));
    assert_eq!(buf.len(), 4, "nothing past the prefix was buffered");
}

#[test]
fn a_record_is_its_length_and_its_frame() {
    assert_eq!(
        length_prefixed(&vec![7, 8, 9], CEILING),
        Some(vec![0, 0, 0, 3, 7, 8, 9])
    );
    let long = length_prefixed(&vec![1; 300], CEILING).expect("fits");
    assert_eq!(long[..5], [0, 0, 1, 44, 1]);
    assert_eq!(length_prefixed(&vec![1; CEILING + 1], CEILING), None);
    let mut buf = BytesMut::new();
    buf.extend_from_slice(&[0, 0, 0, 0, 5]);
    assert_eq!(take_frame(&mut buf, CEILING), Ok(Some(Vec::new())));
    assert_eq!(buf.len(), 1);
}

#[test]
fn correlations_count_up_and_skip_zero() {
    let mut gateway = TcpGateway::new(CEILING);
    assert_eq!(gateway.correlate(), 1);
    assert_eq!(gateway.correlate(), 2);
    let mut next: u32 = u32::MAX;
    assert_eq!(next_correlation(&mut next), u32::MAX);
    assert_eq!(next, 1);
}

#[test]
fn a_closed_stream_is_told_by_its_name() {
    let mut tcp = TcpGateway::new(CEILING);
    assert!(matches!(tcp.next_frame(Some(TcpRead::Bytes(Vec::new()))), Err(TcpError::Closed)));
    assert!(matches!(tcp.next_frame(Some(TcpRead::TimedOut)), Err(TcpError::Timeout)));
    assert!(matches!(tcp.next_frame(Some(TcpRead::Failed)), Err(TcpError::Transport)));
    let mut quic = QuicGateway::new(CEILING);
    assert!(matches!(quic.next_frame(Some(QuicRead::End)), Err(QuicError::Closed)));
    assert!(matches!(quic.next_frame(Some(QuicRead::TimedOut)), Err(QuicError::Timeout)));
    assert!(matches!(quic.next_frame(Some(QuicRead::Failed)), Err(QuicError::Transport)));
}

#[test]
fn datagrams_are_frames_until_they_are_gone() {
    let mut quic = QuicGateway::new(CEILING);
    assert!(matches!(quic.next_frame(None), Ok(QuicStep::Race)));
    assert_eq!(
        quic_frame(quic.next_frame(Some(QuicRead::Datagram(vec![4, 2])))),
        Some(vec![4, 2])
    );
    assert!(matches!(quic.next_frame(Some(QuicRead::DatagramsGone)), Ok(QuicStep::ReadStream)));
    assert!(matches!(quic.next_frame(None), Ok(QuicStep::ReadStream)));
}

#[test]
fn a_welcome_is_judged_before_it_is_believed() {
    assert!(matches!(
        migo_net::tcp::judge_welcome(None, Some(Opcode::Hello), Some(9u32)),
        Ok(9)
    ));
    assert!(matches!(
        migo_net::tcp::judge_welcome::<u32>(None, Some(Opcode::Ping), Some(9)),
        Err(TcpError::NoWelcome)
    ));
    assert!(matches!(
        migo_net::tcp::judge_welcome::<u32>(None, Some(Opcode::Hello), None),
        Err(TcpError::Malformed)
    ));
    let refused = GatewayError::Refused {
        code: RefusalCode::ResumeRequired,
        message: "re-sync by cursor".to_owned(),
    };
    assert!(matches!(
        migo_net::quic::judge_welcome::<u32>(Some(refused), Some(Opcode::Hello), Some(9)),
        Err(QuicError::Refused(_))
    ));
}

#[test]
fn every_transport_failure_has_its_sentence() {
    assert_eq!(TcpError::Malformed.message(), QuicError::Malformed.message());
    for text in [
        TcpError::UnresolvedHost.message(),
        TcpError::Transport.message(),
        TcpError::Timeout.message(),
        TcpError::Closed.message(),
        TcpError::NoWelcome.message(),
        QuicError::UnresolvedHost.message(),
        QuicError::Transport.message(),
        QuicError::Timeout.message(),
        QuicError::Closed.message(),
        QuicError::NoWelcome.message(),
    ] {
        assert!(!text.is_empty());
    }
    let refused = GatewayError::Refused {
        code: RefusalCode::Other(7),
        message: "no".to_owned(),
    };
    assert_eq!(refused.message(), "no");
    assert!(!refused.is_resume_required());
    assert!(!refused.is_sequence_gap());
}

#[test]
fn frames_do_not_depend_on_how_their_bytes_arrive() {
    let (one, mut wire) = frame_bytes(b"hello");
    let (two, second) = frame_bytes(b"");
    let (three, third) = frame_bytes(b"again");
    wire.extend(second);
    wire.extend(third);
    for chunk in 1..=wire.len() {
        let mut gateway = TcpGateway::new(CEILING);
        let mut frames = Vec::new();
        for bytes in wire.chunks(chunk) {
            let mut step = tcp_frame(gateway.next_frame(Some(TcpRead::Bytes(bytes.to_vec()))));
            while let Some(frame) = step {
                frames.push(frame);
                step = tcp_frame(gateway.next_frame(None));
            }
        }
        assert_eq!(frames, vec![one.clone(), two.clone(), three.clone()]);
    }
}

#[test]
fn a_handshake_is_read_off_the_stream_alone() {
    let (body, wire) = frame_bytes(b"hello");
    let mut gateway = QuicGateway::new(CEILING);
    assert!(matches!(gateway.next_stream_frame(None), Ok(QuicStep::ReadStream)));
    assert_eq!(
        quic_frame(gateway.next_stream_frame(Some(QuicRead::Bytes(wire)))),
        Some(body)
    );
    assert!(matches!(gateway.next_stream_frame(Some(QuicRead::End)), Err(QuicError::Closed)));
}

#[test]
fn a_websocket_handshake_is_judged_like_the_others() {
    let refused = GatewayError::Refused {
        code: RefusalCode::Other(4),
        message: "not today".to_owned(),
    };
    let refused = gateway::judge_welcome(Some(refused), Some(Opcode::Hello), Some(1));
    assert_eq!(refused.err().expect("refused").message(), "not today");
    assert_eq!(gateway::judge_welcome(None, Some(Opcode::Hello), Some(1)).ok(), Some(1));
    let other = gateway::judge_welcome(None, Some(Opcode::Ping), Some(1));
    assert_eq!(other.err().expect("closed").message(), "the handshake did not complete");
    assert!(gateway::judge_welcome::<u8>(None, Some(Opcode::Hello), None).is_err());
}
