use live_collab::connection::{create_answerer, create_offerer, Action, Event};
use live_collab::control::encode_timestamp;
use live_collab::info::{ConnectInfo, SdpKind, SessionDescription};
use live_collab::receiver::Receiver;
use live_collab::sender::Sender;
use live_collab::state::ConnectionState;

#[test]
fn receiver_plays_what_arrived_then_silence() {
    let mut receiver = Receiver::new(64);
    let payload: Vec<u8> = [0.5f32, -0.5].iter().flat_map(|s| s.to_le_bytes()).collect();
    receiver.on_audio(&payload);
    assert_eq!(receiver.buffered(), 2);
    let block: Vec<f32> = receiver.process(4).into_iter().map(f32::from_bits).collect();
    assert_eq!(block, vec![0.5, -0.5, 0.0, 0.0]);
    assert_eq!(receiver.buffered(), 0);
}

#[test]
fn receiver_drops_what_does_not_fit() {
    let mut receiver = Receiver::new(2);
    receiver.on_audio(&[1, 0, 0, 0, 2, 0, 0, 0, 3, 0, 0, 0]);
    assert_eq!(receiver.buffered(), 2);
    assert_eq!(receiver.process(3), vec![1, 2, 0]);
}

#[test]
fn receiver_clears_its_buffer_on_request() {
    let mut receiver = Receiver::new(8);
    receiver.on_audio(&[1, 0, 0, 0, 2, 0, 0, 0]);
    receiver.clear();
    assert_eq!(receiver.buffered(), 0);
    assert_eq!(receiver.process(1), vec![0]);
}

#[test]
fn receiver_echoes_control_payloads() {
    let receiver = Receiver::new(8);
    assert_eq!(receiver.on_control(&encode_timestamp(9)), encode_timestamp(9));
    assert_eq!(receiver.on_control(b"relay me"), b"relay me".to_vec());
}

#[test]
fn sender_queues_only_while_connected() {
    let mut sender = Sender::new(8);
    for state in [
        ConnectionState::New,
        ConnectionState::Connecting,
        ConnectionState::Failed,
        ConnectionState::Closed,
    ] {
        sender.process(state, &[1, 2]);
        assert_eq!(sender.buffered(), 0);
    }
    sender.process(ConnectionState::Connected, &[1, 2]);
    assert_eq!(sender.buffered(), 2);
    assert_eq!(sender.next_frame(8), vec![1, 0, 0, 0, 2, 0, 0, 0]);
    assert_eq!(sender.next_frame(8), Vec::<u8>::new());
}

#[test]
fn sender_measures_against_a_reflecting_receiver() {
    let receiver = Receiver::new(8);
    let mut sender = Sender::new(8);
    assert_eq!(sender.round_trip_ms(), 0);
    let probe = sender.on_connected(10_000);
    let echo = receiver.on_control(&probe);
    let next = sender.on_control(&echo, 10_034);
    assert_eq!(sender.round_trip_ms(), 34);
    assert_eq!(next, encode_timestamp(10_034));
    let echo = receiver.on_control(&next);
    sender.on_control(&echo, 10_050);
    assert_eq!(sender.round_trip_ms(), 16);
}

fn run_to_token(mut next: Action, connection: &mut live_collab::connection::WebRTCConnection) {
    let mut remote_seen = false;
    loop {
        let event = match next {
            Action::Parse(payload) => {
                assert_eq!(payload, "the other side");
                Event::Parsed(ConnectInfo {
                    description: SessionDescription { kind: SdpKind::Offer, sdp: "o".to_string() },
                    candidates: vec![],
                })
            }
            Action::CreateOffer => Event::Described(SessionDescription {
                kind: SdpKind::Offer,
                sdp: "o".to_string(),
            }),
            Action::CreateAnswer => {
                assert!(remote_seen);
                Event::Described(SessionDescription { kind: SdpKind::Answer, sdp: "a".to_string() })
            }
            Action::SetRemoteDescription(_) => {
                remote_seen = true;
                Event::Completed
            }
            Action::AwaitGathering => Event::GatheringComplete,
            Action::Serialize(_) => Event::Serialized("the other side".to_string()),
            Action::Done => return,
            Action::Fail(error) => panic!("{}", error.message()),
            Action::Nothing | Action::Close => unreachable!(),
            _ => Event::Completed,
        };
        next = connection.advance(event);
    }
}

#[test]
fn two_peers_connect_and_a_sample_crosses() {
    let (mut peer_a, first) = create_offerer();
    run_to_token(first, &mut peer_a);
    let offer_token = peer_a.connect_info().to_string();

    let (mut peer_b, first) = create_answerer(offer_token).unwrap();
    run_to_token(first, &mut peer_b);
    let answer_token = peer_b.connect_info().to_string();

    let first = peer_a.set_answer(answer_token).unwrap();
    run_to_token(first, &mut peer_a);

    peer_a.report(ConnectionState::Connected);
    peer_b.report(ConnectionState::Connected);
    assert_eq!(peer_a.state(), ConnectionState::Connected);
    assert_eq!(peer_b.state(), ConnectionState::Connected);

    let mut sender = Sender::new(128);
    let mut receiver = Receiver::new(128);
    sender.process(peer_a.state(), &[3.5f32.to_bits()]);
    let on_the_wire = sender.next_frame(64);
    assert_eq!(on_the_wire, 3.5f32.to_le_bytes().to_vec());
    receiver.on_audio(&on_the_wire);
    let block = receiver.process(1);
    assert_eq!(f32::from_bits(block[0]), 3.5);
}
