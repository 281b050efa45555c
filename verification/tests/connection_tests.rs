use live_collab::config::{audio_channel, control_channel};
use live_collab::connection::{
    create_answerer, create_offerer, Action, Event, Role, Stage, WebRTCConnection,
};
use live_collab::error::NegotiationError;
use live_collab::info::{
    Candidate, CandidateKind, ConnectInfo, IceProtocol, SdpKind, SessionDescription,
};
use live_collab::state::ConnectionState;
use live_collab::token::{decode_token, encode_token};

fn description(kind: SdpKind, sdp: &str) -> SessionDescription {
    SessionDescription { kind, sdp: sdp.to_string() }
}

fn candidate(address: &str, port: u16) -> Candidate {
    Candidate {
        stats_id: format!("candidate:{}", port),
        foundation: "1".to_string(),
        priority: 2_130_706_431,
        address: address.to_string(),
        protocol: IceProtocol::Udp,
        port,
        kind: CandidateKind::Host,
        component: 1,
        related_address: String::new(),
        related_port: 0,
        tcp_type: String::new(),
    }
}

fn ready_offerer(payload: &str) -> WebRTCConnection {
    let (mut connection, _) = create_offerer();
    for _ in 0..4 {
        connection.advance(Event::Completed);
    }
    connection.advance(Event::Described(description(SdpKind::Offer, "v=0 offer")));
    connection.advance(Event::Completed);
    connection.advance(Event::CandidateGathered(candidate("192.0.2.1", 5000)));
    connection.advance(Event::GatheringComplete);
    assert_eq!(connection.advance(Event::Serialized(payload.to_string())), Action::Done);
    connection
}

#[test]
fn offerer_walks_through_the_handshake() {
    let (mut connection, first) = create_offerer();
    assert_eq!(first, Action::CreatePeer);
    assert_eq!(connection.role(), Role::Offerer);
    assert_eq!(connection.state(), ConnectionState::New);
    assert_eq!(connection.stage(), Stage::CreatingPeer);
    assert_eq!(connection.connect_info(), "");

    assert_eq!(connection.advance(Event::Completed), Action::OpenChannel(audio_channel()));
    assert_eq!(connection.advance(Event::Completed), Action::OpenChannel(control_channel()));
    assert_eq!(connection.advance(Event::Completed), Action::WatchCandidates);
    assert_eq!(connection.advance(Event::Completed), Action::CreateOffer);

    let offer = description(SdpKind::Offer, "v=0 offer");
    assert_eq!(
        connection.advance(Event::Described(offer.clone())),
        Action::SetLocalDescription(offer.clone())
    );
    assert_eq!(connection.state(), ConnectionState::New);
    assert_eq!(connection.advance(Event::Completed), Action::AwaitGathering);
    assert_eq!(connection.state(), ConnectionState::Connecting);

    let first_found = candidate("192.0.2.1", 5000);
    let second_found = candidate("198.51.100.7", 6000);
    assert_eq!(
        connection.advance(Event::CandidateGathered(first_found.clone())),
        Action::AwaitGathering
    );
    assert_eq!(
        connection.advance(Event::CandidateGathered(second_found.clone())),
        Action::AwaitGathering
    );
    assert_eq!(connection.connect_info(), "");

    let expected = ConnectInfo { description: offer, candidates: vec![first_found, second_found] };
    assert_eq!(connection.advance(Event::GatheringComplete), Action::Serialize(expected));
    assert_eq!(connection.stage(), Stage::Serializing);
    assert_eq!(connection.connect_info(), "");

    assert_eq!(connection.advance(Event::Serialized("{\"k\":1}".to_string())), Action::Done);
    assert_eq!(connection.stage(), Stage::Ready);
    assert_eq!(connection.connect_info(), encode_token("{\"k\":1}"));
    assert_eq!(decode_token(connection.connect_info()), Ok("{\"k\":1}".to_string()));
}

#[test]
fn answerer_walks_through_the_handshake() {
    let offer_token = encode_token("offer payload");
    let (mut connection, first) = create_answerer(offer_token).unwrap();
    assert_eq!(first, Action::Parse("offer payload".to_string()));
    assert_eq!(connection.role(), Role::Answerer);
    assert_eq!(connection.state(), ConnectionState::New);
    assert_eq!(connection.stage(), Stage::Parsing);

    let offer = description(SdpKind::Offer, "v=0 offer");
    let remote = ConnectInfo {
        description: offer.clone(),
        candidates: vec![candidate("192.0.2.1", 5000), candidate("192.0.2.2", 5001)],
    };
    assert_eq!(connection.advance(Event::Parsed(remote)), Action::CreatePeer);
    assert_eq!(connection.advance(Event::Completed), Action::OpenChannel(audio_channel()));
    assert_eq!(connection.advance(Event::Completed), Action::OpenChannel(control_channel()));
    assert_eq!(connection.advance(Event::Completed), Action::WatchCandidates);
    assert_eq!(connection.advance(Event::Completed), Action::SetRemoteDescription(offer));
    assert_eq!(connection.state(), ConnectionState::New);
    assert_eq!(connection.advance(Event::Completed), Action::CreateAnswer);
    assert_eq!(connection.state(), ConnectionState::Connecting);

    let answer = description(SdpKind::Answer, "v=0 answer");
    assert_eq!(
        connection.advance(Event::Described(answer.clone())),
        Action::SetLocalDescription(answer.clone())
    );
    assert_eq!(
        connection.advance(Event::Completed),
        Action::AddRemoteCandidate(candidate("192.0.2.1", 5000))
    );
    assert_eq!(
        connection.advance(Event::Completed),
        Action::AddRemoteCandidate(candidate("192.0.2.2", 5001))
    );
    assert_eq!(connection.advance(Event::Completed), Action::AwaitGathering);
    assert_eq!(connection.stage(), Stage::Gathering);

    let expected = ConnectInfo { description: answer, candidates: vec![] };
    assert_eq!(connection.advance(Event::GatheringComplete), Action::Serialize(expected));
    assert_eq!(connection.advance(Event::Serialized("answer payload".to_string())), Action::Done);
    assert_eq!(connection.stage(), Stage::Ready);
    assert_eq!(connection.connect_info(), encode_token("answer payload"));
}

#[test]
fn answerer_refuses_a_token_that_is_no_token() {
    assert_eq!(create_answerer("***".to_string()).err(), Some(NegotiationError::DecodeFailed));
    assert_eq!(create_answerer("/w==".to_string()).err(), Some(NegotiationError::DecodeFailed));
}

#[test]
fn answerer_gives_up_on_a_payload_without_structure() {
    let (mut connection, _) = create_answerer(encode_token("{}")).unwrap();
    assert_eq!(
        connection.advance(Event::Unparsable),
        Action::Fail(NegotiationError::DecodeFailed)
    );
    assert_eq!(connection.stage(), Stage::Abandoned);
    assert_eq!(connection.advance(Event::Completed), Action::Nothing);
    assert_eq!(
        connection.advance(Event::Unparsable),
        Action::Fail(NegotiationError::DecodeFailed)
    );
    assert_eq!(connection.stage(), Stage::Abandoned);
}

#[test]
fn offerer_applies_the_answer() {
    let mut connection = ready_offerer("offer payload");
    let started = connection.set_answer(encode_token("answer payload"));
    assert_eq!(started, Ok(Action::Parse("answer payload".to_string())));
    assert_eq!(connection.stage(), Stage::Parsing);

    let answer = description(SdpKind::Answer, "v=0 answer");
    let remote = ConnectInfo {
        description: answer.clone(),
        candidates: vec![candidate("203.0.113.9", 7000)],
    };
    assert_eq!(connection.advance(Event::Parsed(remote)), Action::SetRemoteDescription(answer));
    assert_eq!(
        connection.advance(Event::Completed),
        Action::AddRemoteCandidate(candidate("203.0.113.9", 7000))
    );
    assert_eq!(connection.advance(Event::Completed), Action::Done);
    assert_eq!(connection.stage(), Stage::Settled);
    assert_eq!(connection.state(), ConnectionState::Connecting);

    connection.report(ConnectionState::Connected);
    assert_eq!(connection.state(), ConnectionState::Connected);
}

#[test]
fn offerer_applies_an_answer_without_candidates() {
    let mut connection = ready_offerer("offer payload");
    connection.set_answer(encode_token("answer payload")).unwrap();
    let remote = ConnectInfo { description: description(SdpKind::Answer, "a"), candidates: vec![] };
    connection.advance(Event::Parsed(remote));
    assert_eq!(connection.advance(Event::Completed), Action::Done);
    assert_eq!(connection.stage(), Stage::Settled);
}

#[test]
fn corrupted_answer_token_leaves_the_offerer_connecting() {
    let mut connection = ready_offerer("offer payload");
    let token = connection.connect_info().to_string();
    assert_eq!(connection.state(), ConnectionState::Connecting);

    let mut corrupted = encode_token("answer payload");
    corrupted.insert(3, '!');
    assert_eq!(connection.set_answer(corrupted), Err(NegotiationError::DecodeFailed));
    assert_eq!(connection.state(), ConnectionState::Connecting);
    assert_eq!(connection.stage(), Stage::Ready);
    assert_eq!(connection.connect_info(), token);

    assert!(connection.set_answer(encode_token("answer payload")).is_ok());
}

#[test]
fn answer_without_structure_leaves_the_offerer_ready_for_another() {
    let mut connection = ready_offerer("offer payload");
    connection.set_answer(encode_token("{\"candidates\":[]}")).unwrap();
    assert_eq!(
        connection.advance(Event::Unparsable),
        Action::Fail(NegotiationError::DecodeFailed)
    );
    assert_eq!(connection.stage(), Stage::Ready);
    assert_eq!(connection.state(), ConnectionState::Connecting);
    assert!(connection.set_answer(encode_token("answer payload")).is_ok());
}

#[test]
fn refused_answer_leaves_the_offerer_ready_for_another() {
    let mut connection = ready_offerer("offer payload");
    connection.set_answer(encode_token("answer payload")).unwrap();
    let remote = ConnectInfo { description: description(SdpKind::Offer, "x"), candidates: vec![] };
    connection.advance(Event::Parsed(remote));
    assert_eq!(connection.advance(Event::Rejected), Action::Fail(NegotiationError::SetupFailed));
    assert_eq!(connection.stage(), Stage::Ready);
}

fn answer(kind: SdpKind) -> ConnectInfo {
    ConnectInfo {
        description: description(kind, "v=0 answer"),
        candidates: vec![candidate("203.0.113.9", 7000)],
    }
}

fn settled_offerer() -> WebRTCConnection {
    let mut connection = ready_offerer("offer payload");
    connection.set_answer(encode_token("answer payload")).unwrap();
    connection.advance(Event::Parsed(answer(SdpKind::Answer)));
    connection.advance(Event::Completed);
    assert_eq!(connection.advance(Event::Completed), Action::Done);
    assert_eq!(connection.stage(), Stage::Settled);
    connection
}

#[test]
fn an_answer_is_applied_by_a_ready_offerer_only() {
    let (mut unfinished, _) = create_offerer();
    assert_eq!(
        unfinished.set_answer(encode_token("answer")),
        Ok(Action::Parse("answer".to_string()))
    );
    assert_eq!(unfinished.stage(), Stage::CreatingPeer);
    assert_eq!(
        unfinished.advance(Event::Parsed(answer(SdpKind::Answer))),
        Action::Fail(NegotiationError::SetupFailed)
    );
    assert_eq!(unfinished.stage(), Stage::CreatingPeer);
    assert_eq!(unfinished.advance(Event::Completed), Action::OpenChannel(audio_channel()));

    let mut settled = settled_offerer();
    assert_eq!(
        settled.set_answer(encode_token("another answer")),
        Ok(Action::Parse("another answer".to_string()))
    );
    assert_eq!(settled.stage(), Stage::Settled);
    assert_eq!(
        settled.advance(Event::Parsed(answer(SdpKind::Answer))),
        Action::Fail(NegotiationError::SetupFailed)
    );
    assert_eq!(settled.stage(), Stage::Settled);
    assert_eq!(settled.advance(Event::Completed), Action::Nothing);
}

#[test]
fn an_unreadable_token_is_a_decode_failure_on_a_settled_offerer() {
    let mut settled = settled_offerer();
    let token = settled.connect_info().to_string();
    assert_eq!(settled.set_answer("***".to_string()), Err(NegotiationError::DecodeFailed));
    assert_eq!(settled.set_answer("aGVsbG8".to_string()), Err(NegotiationError::DecodeFailed));
    assert_eq!(settled.set_answer("/w==".to_string()), Err(NegotiationError::DecodeFailed));
    assert_eq!(settled.stage(), Stage::Settled);
    assert_eq!(settled.state(), ConnectionState::Connecting);
    assert_eq!(settled.connect_info(), token);
}

#[test]
fn an_unreadable_token_is_a_decode_failure_on_every_connection() {
    let (mut unfinished, _) = create_offerer();
    assert_eq!(unfinished.set_answer("***".to_string()), Err(NegotiationError::DecodeFailed));
    assert_eq!(unfinished.stage(), Stage::CreatingPeer);

    let (mut answerer, _) = create_answerer(encode_token("offer")).unwrap();
    assert_eq!(answerer.set_answer("***".to_string()), Err(NegotiationError::DecodeFailed));
    assert_eq!(answerer.stage(), Stage::Parsing);

    let mut closed = ready_offerer("p");
    closed.disconnect();
    assert_eq!(closed.set_answer("***".to_string()), Err(NegotiationError::DecodeFailed));
    assert_eq!(closed.state(), ConnectionState::Closed);
}

#[test]
fn a_payload_without_structure_is_a_decode_failure_on_a_settled_offerer() {
    let mut settled = settled_offerer();
    let started = settled.set_answer(encode_token("{\"candidates\":[]}"));
    assert_eq!(started, Ok(Action::Parse("{\"candidates\":[]}".to_string())));
    assert_eq!(settled.advance(Event::Unparsable), Action::Fail(NegotiationError::DecodeFailed));
    assert_eq!(settled.stage(), Stage::Settled);
    assert_eq!(settled.state(), ConnectionState::Connecting);
}

#[test]
fn a_payload_without_structure_is_a_decode_failure_on_every_connection() {
    let (mut unfinished, _) = create_offerer();
    unfinished.advance(Event::Completed);
    unfinished.set_answer(encode_token("{}")).unwrap();
    assert_eq!(
        unfinished.advance(Event::Unparsable),
        Action::Fail(NegotiationError::DecodeFailed)
    );
    assert_eq!(unfinished.stage(), Stage::OpeningAudio);
    assert_eq!(unfinished.advance(Event::Completed), Action::OpenChannel(control_channel()));

    let mut closed = ready_offerer("p");
    closed.disconnect();
    closed.set_answer(encode_token("{}")).unwrap();
    assert_eq!(closed.advance(Event::Unparsable), Action::Fail(NegotiationError::DecodeFailed));
    assert_eq!(closed.stage(), Stage::Abandoned);
}

#[test]
fn every_candidate_of_the_answer_is_applied_once_and_in_order() {
    let mut connection = ready_offerer("offer payload");
    connection.set_answer(encode_token("answer payload")).unwrap();
    let found: Vec<Candidate> = (0..5).map(|n| candidate("203.0.113.9", 7000 + n)).collect();
    let remote = ConnectInfo {
        description: description(SdpKind::Answer, "v=0 answer"),
        candidates: found.clone(),
    };
    assert_eq!(
        connection.advance(Event::Parsed(remote)),
        Action::SetRemoteDescription(description(SdpKind::Answer, "v=0 answer"))
    );
    for expected in found {
        assert_eq!(connection.advance(Event::Completed), Action::AddRemoteCandidate(expected));
    }
    assert_eq!(connection.advance(Event::Completed), Action::Done);
    assert_eq!(connection.advance(Event::Completed), Action::Nothing);
}

#[test]
fn refusal_by_the_transport_ends_the_setup() {
    let (mut connection, _) = create_offerer();
    assert_eq!(connection.advance(Event::Rejected), Action::Fail(NegotiationError::SetupFailed));
    assert_eq!(connection.stage(), Stage::Abandoned);

    let (mut connection, _) = create_offerer();
    connection.advance(Event::Completed);
    connection.advance(Event::Completed);
    assert_eq!(connection.advance(Event::Rejected), Action::Fail(NegotiationError::SetupFailed));
    assert_eq!(connection.stage(), Stage::Abandoned);
}

#[test]
fn slow_gathering_ends_the_setup_with_timeout() {
    let (mut connection, _) = create_offerer();
    for _ in 0..4 {
        connection.advance(Event::Completed);
    }
    connection.advance(Event::Described(description(SdpKind::Offer, "v=0")));
    connection.advance(Event::Completed);
    assert_eq!(connection.advance(Event::TimedOut), Action::Fail(NegotiationError::Timeout));
    assert_eq!(connection.stage(), Stage::Abandoned);
    assert_eq!(connection.connect_info(), "");
}

#[test]
fn events_out_of_place_change_nothing() {
    let (mut connection, _) = create_offerer();
    assert_eq!(connection.advance(Event::GatheringComplete), Action::Nothing);
    assert_eq!(
        connection.advance(Event::CandidateGathered(candidate("192.0.2.1", 1))),
        Action::Nothing
    );
    assert_eq!(connection.advance(Event::Serialized("x".to_string())), Action::Nothing);
    assert_eq!(
        connection.advance(Event::Described(description(SdpKind::Offer, "v=0"))),
        Action::Nothing
    );
    assert_eq!(connection.stage(), Stage::CreatingPeer);

    let mut ready = ready_offerer("p");
    assert_eq!(ready.advance(Event::Rejected), Action::Nothing);
    assert_eq!(ready.advance(Event::TimedOut), Action::Nothing);
    assert_eq!(ready.advance(Event::Completed), Action::Nothing);
    assert_eq!(ready.stage(), Stage::Ready);
}

#[test]
fn disconnect_closes_once() {
    let mut connection = ready_offerer("p");
    assert_eq!(connection.disconnect(), Action::Close);
    assert_eq!(connection.state(), ConnectionState::Closed);
    assert_eq!(connection.stage(), Stage::Abandoned);
    assert_eq!(connection.disconnect(), Action::Nothing);
    connection.report(ConnectionState::Connected);
    assert_eq!(connection.state(), ConnectionState::Closed);
    assert_eq!(
        connection.set_answer(encode_token("answer")),
        Ok(Action::Parse("answer".to_string()))
    );
    assert_eq!(
        connection.advance(Event::Parsed(answer(SdpKind::Answer))),
        Action::Fail(NegotiationError::SetupFailed)
    );
    assert_eq!(connection.state(), ConnectionState::Closed);
    assert_eq!(connection.stage(), Stage::Abandoned);
}

#[test]
fn failure_reported_by_the_transport_is_final() {
    let mut connection = ready_offerer("p");
    connection.report(ConnectionState::Failed);
    assert_eq!(connection.state(), ConnectionState::Failed);
    connection.report(ConnectionState::Connected);
    assert_eq!(connection.state(), ConnectionState::Failed);
    assert_eq!(connection.disconnect(), Action::Nothing);
}
