//! The handshake that brings two peers together, as a machine of states.
//!
//! The machine decides; someone else does the work. Each call hands back one
//! `Action` for the transport, and the outcome of that action comes back as
//! an `Event`. The offering peer runs `create_offerer` and, once the other
//! side has answered, `set_answer`; the answering peer runs
//! `create_answerer` on the offerer's token.
//!
//! A peer's token is made when gathering has ended and not before, and it
//! carries the description with every candidate gathered for it.

use vstd::prelude::*;
use crate::config::{
    audio_channel, audio_channel_spec, control_channel, control_channel_spec, ChannelConfig,
};
use crate::error::NegotiationError;
use crate::info::{Candidate, ConnectInfo, ConnectInfoView, SessionDescription};
use crate::state::ConnectionState;
use crate::token::{
    decode_token, encode_token, fits_token, is_base64_text, payload_of, token_of,
};

verus! {

/// Which side of the handshake a peer is on.
#[derive(Clone, Copy, Debug, PartialEq, Eq, Structural)]
pub enum Role {
    Offerer,
    Answerer,
}

/// What the handshake is waiting for.
#[derive(Clone, Copy, Debug, PartialEq, Eq, Structural)]
pub enum Stage {
    /// The remote payload is being parsed.
    Parsing,
    /// The connection is being allocated.
    CreatingPeer,
    /// The audio channel is being opened.
    OpeningAudio,
    /// The control channel is being opened.
    OpeningControl,
    /// The candidate notification is being registered.
    Watching,
    /// The remote description is being applied.
    SettingRemote,
    /// The local offer or answer is being written.
    Describing,
    /// The local description is being applied.
    SettingLocal,
    /// A remote candidate is being applied.
    AddingCandidate,
    /// Local candidates are coming in.
    Gathering,
    /// The local payload is being serialised.
    Serializing,
    /// The local token is there. An offerer now waits for the answer.
    Ready,
    /// The offerer has applied the answer.
    Settled,
    /// The handshake was given up, or the connection was closed.
    Abandoned,
}

impl Stage {
    /// Whether an action is under way whose outcome is awaited.
    pub open spec fn is_pending(self) -> bool {
        self != Stage::Ready && self != Stage::Settled && self != Stage::Abandoned
    }

    /// Whether the stage belongs to applying the answer on the offering side.
    pub open spec fn is_answering(self) -> bool {
        self == Stage::Parsing || self == Stage::SettingRemote || self == Stage::AddingCandidate
    }
}

/// What the transport, the parser or the clock reports back.
#[derive(Debug, PartialEq, Eq)]
pub enum Event {
    /// The action asked for has been carried out.
    Completed,
    /// The action asked for was refused.
    Rejected,
    /// The action asked for took longer than allowed.
    TimedOut,
    /// The offer or answer asked for.
    Described(SessionDescription),
    /// A local candidate was gathered.
    CandidateGathered(Candidate),
    /// No more local candidates will come.
    GatheringComplete,
    /// The payload asked to be parsed, as a value.
    Parsed(ConnectInfo),
    /// The payload asked to be parsed has no session description, a
    /// malformed candidate, or is no structured text at all.
    Unparsable,
    /// The value asked to be serialised, as text.
    Serialized(String),
}

/// What is to be done next.
#[derive(Debug, PartialEq, Eq)]
pub enum Action {
    /// Turn the payload into a value.
    Parse(String),
    /// Allocate the connection.
    CreatePeer,
    /// Open a channel.
    OpenChannel(ChannelConfig),
    /// Register for the candidates that gathering finds.
    WatchCandidates,
    /// Write the local offer.
    CreateOffer,
    /// Write the local answer.
    CreateAnswer,
    /// Apply the local description.
    SetLocalDescription(SessionDescription),
    /// Apply the remote description.
    SetRemoteDescription(SessionDescription),
    /// Apply a candidate of the other side.
    AddRemoteCandidate(Candidate),
    /// Wait for the next candidate or for the end of gathering.
    AwaitGathering,
    /// Turn the value into text.
    Serialize(ConnectInfo),
    /// Close the connection.
    Close,
    /// The operation has succeeded.
    Done,
    /// The operation has failed.
    Fail(NegotiationError),
    /// The event did not belong here; nothing changes.
    Nothing,
}

/// One peer's end of a connection.
pub struct WebRTCConnection {
    role: Role,
    state: ConnectionState,
    stage: Stage,
    local: ConnectInfo,
    remote: ConnectInfo,
    connect_info: String,
}

/// A connection as a mathematical value.
pub struct ConnectionView {
    pub role: Role,
    pub state: ConnectionState,
    pub stage: Stage,
    /// The local description and the candidates gathered so far.
    pub local: ConnectInfoView,
    /// The remote description and the remote candidates not yet applied.
    pub remote: ConnectInfoView,
    /// The local token; empty until the stage is `Ready`.
    pub token: Seq<char>,
}

impl ConnectionView {
    /// The same connection at another stage.
    pub open spec fn at(self, stage: Stage) -> ConnectionView {
        ConnectionView { stage, ..self }
    }

    /// The connection once a description has been set.
    pub open spec fn described(self) -> ConnectionView {
        ConnectionView { state: self.state.after_description(), ..self }
    }

    /// Whether the connection is one that an answer can be applied to: an
    /// offerer whose own token is ready and that has applied no answer yet.
    pub open spec fn takes_answer(self) -> bool {
        self.role == Role::Offerer && self.stage == Stage::Ready
    }

    /// The connection once an answer's token has been read: one that takes
    /// an answer awaits the parsed payload, any other is as it was.
    pub open spec fn answer_read(self) -> ConnectionView {
        if self.takes_answer() {
            self.at(Stage::Parsing)
        } else {
            self
        }
    }

    /// Where a failure leaves the connection: an offerer that was applying
    /// an answer is ready for another; anything else is given up.
    pub open spec fn failed(self) -> ConnectionView {
        if self.role == Role::Offerer && self.stage.is_answering() {
            self.at(Stage::Ready)
        } else {
            self.at(Stage::Abandoned)
        }
    }
}

/// A connection that has just been made: new, with nothing known of either
/// side and no token.
pub open spec fn fresh(role: Role, stage: Stage, view: ConnectionView) -> bool {
    &&& view.role == role
    &&& view.state == ConnectionState::New
    &&& view.stage == stage
    &&& view.local.is_blank()
    &&& view.remote.is_blank()
    &&& view.token.len() == 0
}

/// What follows once the remote description is in place and the local one,
/// for an answerer, too: the remote candidates one by one in their order,
/// then, for the offerer, the end; for the answerer, gathering.
pub open spec fn candidates_follow(pre: ConnectionView, post: ConnectionView, action: Action) -> bool {
    if pre.remote.candidates.len() > 0 {
        &&& post == ConnectionView {
            stage: Stage::AddingCandidate,
            remote: pre.remote.without_first(),
            ..pre
        }
        &&& action == Action::AddRemoteCandidate(pre.remote.candidates[0])
    } else if pre.role == Role::Offerer {
        post == pre.at(Stage::Settled) && action == Action::Done
    } else {
        post == pre.at(Stage::Gathering) && action == Action::AwaitGathering
    }
}

/// An event that does not belong at the stage changes nothing.
pub open spec fn ignored(pre: ConnectionView, post: ConnectionView, action: Action) -> bool {
    post == pre && action == Action::Nothing
}

/// A payload that comes in while none is awaited belongs to an answer that
/// the connection cannot take. It is turned away with an error and applied
/// nowhere: one that could not be parsed with `DecodeFailed`, one that could
/// with `SetupFailed`.
pub open spec fn turned_away(
    pre: ConnectionView,
    post: ConnectionView,
    action: Action,
    error: NegotiationError,
) -> bool {
    post == pre && action == Action::Fail(error)
}

/// A failure ends the operation with its error.
pub open spec fn gives_up(
    pre: ConnectionView,
    post: ConnectionView,
    action: Action,
    error: NegotiationError,
) -> bool {
    post == pre.failed() && action == Action::Fail(error)
}

/// The step of the machine: from `pre`, `event` leads to `post` and asks for
/// `action`.
pub open spec fn advanced(
    pre: ConnectionView,
    event: Event,
    post: ConnectionView,
    action: Action,
) -> bool {
    match event {
        Event::Completed => match pre.stage {
            Stage::CreatingPeer => post == pre.at(Stage::OpeningAudio) && action
                == Action::OpenChannel(audio_channel_spec()),
            Stage::OpeningAudio => post == pre.at(Stage::OpeningControl) && action
                == Action::OpenChannel(control_channel_spec()),
            Stage::OpeningControl => post == pre.at(Stage::Watching) && action
                == Action::WatchCandidates,
            Stage::Watching => if pre.role == Role::Offerer {
                post == pre.at(Stage::Describing) && action == Action::CreateOffer
            } else {
                post == pre.at(Stage::SettingRemote) && action == Action::SetRemoteDescription(
                    pre.remote.description,
                )
            },
            Stage::SettingRemote => if pre.role == Role::Offerer {
                candidates_follow(pre.described(), post, action)
            } else {
                post == pre.described().at(Stage::Describing) && action == Action::CreateAnswer
            },
            Stage::SettingLocal => if pre.role == Role::Offerer {
                post == pre.described().at(Stage::Gathering) && action == Action::AwaitGathering
            } else {
                candidates_follow(pre.described(), post, action)
            },
            Stage::AddingCandidate => candidates_follow(pre, post, action),
            _ => ignored(pre, post, action),
        },
        Event::Described(description) => if pre.stage == Stage::Describing {
            &&& post == ConnectionView {
                stage: Stage::SettingLocal,
                local: ConnectInfoView { description, candidates: Seq::<Candidate>::empty() },
                ..pre
            }
            &&& action == Action::SetLocalDescription(description)
        } else {
            ignored(pre, post, action)
        },
        Event::CandidateGathered(candidate) => if pre.stage == Stage::Gathering {
            &&& post == ConnectionView { local: pre.local.with_candidate(candidate), ..pre }
            &&& action == Action::AwaitGathering
        } else {
            ignored(pre, post, action)
        },
        Event::GatheringComplete => if pre.stage == Stage::Gathering {
            &&& post == pre.at(Stage::Serializing)
            &&& action matches Action::Serialize(info)
            &&& info@ == pre.local
        } else {
            ignored(pre, post, action)
        },
        Event::Serialized(payload) => if pre.stage == Stage::Serializing {
            if fits_token(payload@) {
                &&& post == ConnectionView {
                    stage: Stage::Ready,
                    token: token_of(payload@),
                    ..pre
                }
                &&& is_base64_text(post.token)
                &&& payload_of(post.token) == Some(payload@)
                &&& action == Action::Done
            } else {
                gives_up(pre, post, action, NegotiationError::SetupFailed)
            }
        } else {
            ignored(pre, post, action)
        },
        Event::Parsed(info) => if pre.stage == Stage::Parsing {
            if pre.role == Role::Offerer {
                &&& post == ConnectionView { stage: Stage::SettingRemote, remote: info@, ..pre }
                &&& action == Action::SetRemoteDescription(info.description)
            } else {
                &&& post == ConnectionView { stage: Stage::CreatingPeer, remote: info@, ..pre }
                &&& action == Action::CreatePeer
            }
        } else {
            turned_away(pre, post, action, NegotiationError::SetupFailed)
        },
        Event::Unparsable => if pre.stage == Stage::Parsing {
            gives_up(pre, post, action, NegotiationError::DecodeFailed)
        } else {
            turned_away(pre, post, action, NegotiationError::DecodeFailed)
        },
        Event::Rejected => if pre.stage.is_pending() {
            gives_up(pre, post, action, NegotiationError::SetupFailed)
        } else {
            ignored(pre, post, action)
        },
        Event::TimedOut => if pre.stage.is_pending() {
            gives_up(pre, post, action, NegotiationError::Timeout)
        } else {
            ignored(pre, post, action)
        },
    }
}

impl View for WebRTCConnection {
    type V = ConnectionView;

    closed spec fn view(&self) -> ConnectionView {
        ConnectionView {
            role: self.role,
            state: self.state,
            stage: self.stage,
            local: self.local@,
            remote: self.remote@,
            token: self.connect_info@,
        }
    }
}

/// Starts the handshake on the offering side. The first thing to do is to
/// allocate the connection.
pub fn create_offerer() -> (started: (WebRTCConnection, Action))
    ensures
        fresh(Role::Offerer, Stage::CreatingPeer, started.0@),
        started.1 == Action::CreatePeer,
{
    let connection = WebRTCConnection {
        role: Role::Offerer,
        state: ConnectionState::New,
        stage: Stage::CreatingPeer,
        local: ConnectInfo::blank(),
        remote: ConnectInfo::blank(),
        connect_info: String::new(),
    };
    (connection, Action::CreatePeer)
}

/// Starts the handshake on the answering side from the offerer's token. A
/// text that carries no payload is refused with `DecodeFailed` before
/// anything is allocated; otherwise the first thing to do is to parse the
/// payload.
pub fn create_answerer(peer_connect_info: String) -> (started: Result<
    (WebRTCConnection, Action),
    NegotiationError,
>)
    ensures
        match started {
            Ok((connection, action)) => {
                &&& fresh(Role::Answerer, Stage::Parsing, connection@)
                &&& action matches Action::Parse(payload)
                &&& payload_of(peer_connect_info@) == Some(payload@)
            },
            Err(error) => {
                &&& error == NegotiationError::DecodeFailed
                &&& payload_of(peer_connect_info@).is_none()
            },
        },
{
    match decode_token(peer_connect_info.as_str()) {
        Ok(payload) => {
            let connection = WebRTCConnection {
                role: Role::Answerer,
                state: ConnectionState::New,
                stage: Stage::Parsing,
                local: ConnectInfo::blank(),
                remote: ConnectInfo::blank(),
                connect_info: String::new(),
            };
            Ok((connection, Action::Parse(payload)))
        },
        Err(error) => Err(error),
    }
}

impl WebRTCConnection {
    /// Which side of the handshake this is.
    pub fn role(&self) -> (role: Role)
        ensures
            role == self@.role,
    {
        self.role
    }

    /// Where the connection stands.
    pub fn state(&self) -> (state: ConnectionState)
        ensures
            state == self@.state,
    {
        self.state
    }

    /// What the handshake is waiting for.
    pub fn stage(&self) -> (stage: Stage)
        ensures
            stage == self@.stage,
    {
        self.stage
    }

    /// The token to hand to the other side; empty until the handshake has
    /// made it.
    pub fn connect_info(&self) -> (token: &str)
        ensures
            token@ == self@.token,
    {
        self.connect_info.as_str()
    }

    /// Reads the other side's answer token, whatever the connection. A text
    /// that carries no payload fails with `DecodeFailed` and changes nothing.
    /// Any other is handed out to be parsed: what follows the parsed payload
    /// is for `advance` to say. Only an offerer whose own token is ready, and
    /// that has applied no answer yet, goes on to apply it; on any other
    /// connection the payload is turned away once it is parsed, with
    /// `DecodeFailed` if it cannot be parsed and `SetupFailed` if it can.
    pub fn set_answer(&mut self, peer_connect_info: String) -> (started: Result<
        Action,
        NegotiationError,
    >)
        ensures
            match started {
                Ok(action) => {
                    &&& action matches Action::Parse(payload)
                    &&& payload_of(peer_connect_info@) == Some(payload@)
                    &&& final(self)@ == old(self)@.answer_read()
                },
                Err(error) => {
                    &&& error == NegotiationError::DecodeFailed
                    &&& payload_of(peer_connect_info@).is_none()
                    &&& final(self)@ == old(self)@
                },
            },
    {
        match decode_token(peer_connect_info.as_str()) {
            Ok(payload) => {
                match (self.role, self.stage) {
                    (Role::Offerer, Stage::Ready) => {
                        self.stage = Stage::Parsing;
                    },
                    _ => {},
                }
                Ok(Action::Parse(payload))
            },
            Err(error) => Err(error),
        }
    }

    /// Takes a report of the transport on the connection's state.
    pub fn report(&mut self, reported: ConnectionState)
        ensures
            final(self)@ == (ConnectionView {
                state: old(self)@.state.after_report(reported),
                ..old(self)@
            }),
    {
        self.state = self.state.report(reported);
    }

    /// Ends the connection on the user's request. A connection that has
    /// ended already is left as it is.
    pub fn disconnect(&mut self) -> (action: Action)
        ensures
            old(self)@.state.is_terminal() ==> final(self)@ == old(self)@ && action
                == Action::Nothing,
            !old(self)@.state.is_terminal() ==> final(self)@ == (ConnectionView {
                state: ConnectionState::Closed,
                stage: Stage::Abandoned,
                ..old(self)@
            }) && action == Action::Close,
    {
        if self.state.ended() {
            Action::Nothing
        } else {
            self.state = ConnectionState::Closed;
            self.stage = Stage::Abandoned;
            Action::Close
        }
    }

    fn give_up(&mut self, error: NegotiationError) -> (action: Action)
        ensures
            gives_up(old(self)@, final(self)@, action, error),
    {
        let retry = match (self.role, self.stage) {
            (Role::Offerer, Stage::Parsing)
            | (Role::Offerer, Stage::SettingRemote)
            | (Role::Offerer, Stage::AddingCandidate) => true,
            _ => false,
        };
        if retry {
            self.stage = Stage::Ready;
        } else {
            self.stage = Stage::Abandoned;
        }
        Action::Fail(error)
    }

    fn mark_described(&mut self)
        ensures
            final(self)@ == old(self)@.described(),
    {
        self.state = self.state.report(ConnectionState::Connecting);
    }

    fn next_candidate(&mut self) -> (action: Action)
        ensures
            candidates_follow(old(self)@, final(self)@, action),
    {
        if self.remote.candidates.len() > 0 {
            let first = self.remote.candidates.remove(0);
            self.stage = Stage::AddingCandidate;
            Action::AddRemoteCandidate(first)
        } else {
            match self.role {
                Role::Offerer => {
                    self.stage = Stage::Settled;
                    Action::Done
                },
                Role::Answerer => {
                    self.stage = Stage::Gathering;
                    Action::AwaitGathering
                },
            }
        }
    }

    fn completed(&mut self) -> (action: Action)
        ensures
            advanced(old(self)@, Event::Completed, final(self)@, action),
    {
        match self.stage {
            Stage::CreatingPeer => {
                self.stage = Stage::OpeningAudio;
                Action::OpenChannel(audio_channel())
            },
            Stage::OpeningAudio => {
                self.stage = Stage::OpeningControl;
                Action::OpenChannel(control_channel())
            },
            Stage::OpeningControl => {
                self.stage = Stage::Watching;
                Action::WatchCandidates
            },
            Stage::Watching => match self.role {
                Role::Offerer => {
                    self.stage = Stage::Describing;
                    Action::CreateOffer
                },
                Role::Answerer => {
                    self.stage = Stage::SettingRemote;
                    Action::SetRemoteDescription(self.remote.description.clone())
                },
            },
            Stage::SettingRemote => {
                self.mark_described();
                match self.role {
                    Role::Offerer => self.next_candidate(),
                    Role::Answerer => {
                        self.stage = Stage::Describing;
                        Action::CreateAnswer
                    },
                }
            },
            Stage::SettingLocal => {
                self.mark_described();
                match self.role {
                    Role::Offerer => {
                        self.stage = Stage::Gathering;
                        Action::AwaitGathering
                    },
                    Role::Answerer => self.next_candidate(),
                }
            },
            Stage::AddingCandidate => self.next_candidate(),
            _ => Action::Nothing,
        }
    }

    fn serialized(&mut self, payload: String) -> (action: Action)
        requires
            old(self)@.stage == Stage::Serializing,
        ensures
            advanced(old(self)@, Event::Serialized(payload), final(self)@, action),
    {
        let length: usize = payload.as_str().as_bytes().len();
        if length / 3 <= (usize::MAX - 4) / 4 {
            self.connect_info = encode_token(payload.as_str());
            self.stage = Stage::Ready;
            Action::Done
        } else {
            self.give_up(NegotiationError::SetupFailed)
        }
    }

    /// Takes the outcome of the action that was asked for last and says what
    /// to do next.
    pub fn advance(&mut self, event: Event) -> (action: Action)
        ensures
            advanced(old(self)@, event, final(self)@, action),
    {
        match event {
            Event::Completed => self.completed(),
            Event::Described(description) => match self.stage {
                Stage::Describing => {
                    self.local = ConnectInfo::of_description(description.clone());
                    self.stage = Stage::SettingLocal;
                    Action::SetLocalDescription(description)
                },
                _ => Action::Nothing,
            },
            Event::CandidateGathered(candidate) => match self.stage {
                Stage::Gathering => {
                    self.local.candidates.push(candidate);
                    Action::AwaitGathering
                },
                _ => Action::Nothing,
            },
            Event::GatheringComplete => match self.stage {
                Stage::Gathering => {
                    self.stage = Stage::Serializing;
                    Action::Serialize(self.local.snapshot())
                },
                _ => Action::Nothing,
            },
            Event::Serialized(payload) => match self.stage {
                Stage::Serializing => self.serialized(payload),
                _ => Action::Nothing,
            },
            Event::Parsed(info) => match self.stage {
                Stage::Parsing => match self.role {
                    Role::Offerer => {
                        let description = info.description.clone();
                        self.remote = info;
                        self.stage = Stage::SettingRemote;
                        Action::SetRemoteDescription(description)
                    },
                    Role::Answerer => {
                        self.remote = info;
                        self.stage = Stage::CreatingPeer;
                        Action::CreatePeer
                    },
                },
                _ => Action::Fail(NegotiationError::SetupFailed),
            },
            Event::Unparsable => match self.stage {
                Stage::Parsing => self.give_up(NegotiationError::DecodeFailed),
                _ => Action::Fail(NegotiationError::DecodeFailed),
            },
            Event::Rejected => match self.stage {
                Stage::Ready | Stage::Settled | Stage::Abandoned => Action::Nothing,
                _ => self.give_up(NegotiationError::SetupFailed),
            },
            Event::TimedOut => match self.stage {
                Stage::Ready | Stage::Settled | Stage::Abandoned => Action::Nothing,
                _ => self.give_up(NegotiationError::Timeout),
            },
        }
    }
}

/// A payload is handed out to be serialised only when gathering has ended,
/// and then it holds the local description with every candidate gathered,
/// in the order in which they came.
pub proof fn lemma_payload_only_after_gathering(
    pre: ConnectionView,
    event: Event,
    post: ConnectionView,
    action: Action,
)
    requires
        advanced(pre, event, post, action),
        action is Serialize,
    ensures
        pre.stage == Stage::Gathering,
        event is GatheringComplete,
        action->Serialize_0@ == pre.local,
{
}

/// The token changes only when the serialised payload arrives, and the new
/// token is then safe to paste and decodes to that payload.
pub proof fn lemma_token_made_once_serialized(
    pre: ConnectionView,
    event: Event,
    post: ConnectionView,
    action: Action,
)
    requires
        advanced(pre, event, post, action),
        post.token != pre.token,
    ensures
        pre.stage == Stage::Serializing,
        post.stage == Stage::Ready,
        event is Serialized,
        is_base64_text(post.token),
        payload_of(post.token) == Some(event->Serialized_0@),
{
}

/// A step of the handshake keeps the role and never ends the connection:
/// the state stays, or a new connection starts connecting.
pub proof fn lemma_handshake_keeps_connection_alive(
    pre: ConnectionView,
    event: Event,
    post: ConnectionView,
    action: Action,
)
    requires
        advanced(pre, event, post, action),
    ensures
        post.role == pre.role,
        post.state == pre.state || (pre.state == ConnectionState::New && post.state
            == ConnectionState::Connecting),
{
}

/// A failure while an offerer applies an answer leaves it ready for a
/// corrected token, with its own token and its state untouched: the payload
/// that could not be parsed, and any step that the transport refused or
/// that took too long. A second payload that comes in meanwhile is turned
/// away and changes nothing.
pub proof fn lemma_offerer_survives_bad_answer(
    pre: ConnectionView,
    event: Event,
    post: ConnectionView,
    action: Action,
)
    requires
        advanced(pre, event, post, action),
        pre.role == Role::Offerer,
        pre.stage.is_answering(),
        action is Fail,
    ensures
        post.token == pre.token,
        post.state == pre.state,
        pre.stage == Stage::Parsing || event is Rejected || event is TimedOut ==> post.stage
            == Stage::Ready,
        pre.stage != Stage::Parsing && (event is Parsed || event is Unparsable) ==> post == pre,
{
}

/// A handshake that was given up takes no further step: nothing changes it,
/// and nothing is asked of the transport for it.
pub proof fn lemma_abandoned_is_final(
    pre: ConnectionView,
    event: Event,
    post: ConnectionView,
    action: Action,
)
    requires
        advanced(pre, event, post, action),
        pre.stage == Stage::Abandoned,
    ensures
        post == pre,
        action == Action::Nothing || action is Fail,
{
}

/// A payload that cannot be parsed ends in `DecodeFailed` on every
/// connection, and none of it is applied: nothing is asked of the transport
/// and what is known of the other side stays as it was.
pub proof fn lemma_unparsable_is_decode_failure(
    pre: ConnectionView,
    post: ConnectionView,
    action: Action,
)
    requires
        advanced(pre, Event::Unparsable, post, action),
    ensures
        action == Action::Fail(NegotiationError::DecodeFailed),
        post.remote == pre.remote,
        post.local == pre.local,
        post.state == pre.state,
        post.token == pre.token,
{
}

/// A connection that takes no answer turns every answer away: its token is
/// read and, where there is a payload, parsed, and then nothing is applied.
/// The error is `SetupFailed` for a payload that parses and `DecodeFailed`
/// for one that does not.
pub proof fn lemma_answer_turned_away(
    pre: ConnectionView,
    event: Event,
    post: ConnectionView,
    action: Action,
)
    requires
        !pre.takes_answer(),
        pre.stage != Stage::Parsing,
        event is Parsed || event is Unparsable,
        advanced(pre.answer_read(), event, post, action),
    ensures
        post == pre,
        event is Parsed ==> action == Action::Fail(NegotiationError::SetupFailed),
        event is Unparsable ==> action == Action::Fail(NegotiationError::DecodeFailed),
{
}

/// An offerer whose every step succeeds goes from a fresh connection to a
/// ready one without anyone stepping in: it asks for the offer, applies the
/// offer it is given, waits for gathering, and makes its token from the
/// payload. By then it is connecting.
pub proof fn lemma_offerer_reaches_ready(
    steps: Seq<ConnectionView>,
    actions: Seq<Action>,
    offer: SessionDescription,
    payload: String,
)
    requires
        steps.len() == 9,
        actions.len() == 8,
        fresh(Role::Offerer, Stage::CreatingPeer, steps[0]),
        advanced(steps[0], Event::Completed, steps[1], actions[0]),
        advanced(steps[1], Event::Completed, steps[2], actions[1]),
        advanced(steps[2], Event::Completed, steps[3], actions[2]),
        advanced(steps[3], Event::Completed, steps[4], actions[3]),
        advanced(steps[4], Event::Described(offer), steps[5], actions[4]),
        advanced(steps[5], Event::Completed, steps[6], actions[5]),
        advanced(steps[6], Event::GatheringComplete, steps[7], actions[6]),
        advanced(steps[7], Event::Serialized(payload), steps[8], actions[7]),
        fits_token(payload@),
    ensures
        actions[0] == Action::OpenChannel(audio_channel_spec()),
        actions[1] == Action::OpenChannel(control_channel_spec()),
        actions[2] == Action::WatchCandidates,
        actions[3] == Action::CreateOffer,
        actions[4] == Action::SetLocalDescription(offer),
        actions[5] == Action::AwaitGathering,
        actions[6] is Serialize,
        actions[6]->Serialize_0@.description == offer,
        actions[7] == Action::Done,
        steps[8].stage == Stage::Ready,
        steps[8].state == ConnectionState::Connecting,
        payload_of(steps[8].token) == Some(payload@),
{
}

/// An offerer in the middle of applying the answer `info`, with `done` of
/// its candidates handed to the transport and the rest still to come.
pub open spec fn applying_answer(view: ConnectionView, info: ConnectInfoView, done: int) -> bool {
    &&& 0 <= done <= info.candidates.len()
    &&& view.role == Role::Offerer
    &&& view.stage == if done == 0 {
        Stage::SettingRemote
    } else {
        Stage::AddingCandidate
    }
    &&& view.remote.candidates == info.candidates.skip(done)
}

/// Each step that succeeds while an answer is applied hands out the next
/// candidate, and the one after the last ends the operation.
pub proof fn lemma_answer_step(
    pre: ConnectionView,
    info: ConnectInfoView,
    done: int,
    post: ConnectionView,
    action: Action,
)
    requires
        applying_answer(pre, info, done),
        advanced(pre, Event::Completed, post, action),
    ensures
        done < info.candidates.len() ==> action == Action::AddRemoteCandidate(
            info.candidates[done],
        ) && applying_answer(post, info, done + 1),
        done == info.candidates.len() ==> action == Action::Done && post.stage == Stage::Settled,
{
    if done < info.candidates.len() {
        assert(info.candidates.skip(done).drop_first() == info.candidates.skip(done + 1));
    }
}

proof fn lemma_answer_prefix(
    info: ConnectInfoView,
    steps: Seq<ConnectionView>,
    actions: Seq<Action>,
    done: int,
)
    requires
        0 <= done <= info.candidates.len(),
        steps.len() == info.candidates.len() + 2,
        actions.len() == info.candidates.len() + 2,
        applying_answer(steps[0], info, 0),
        forall|i: int|
            0 <= i <= info.candidates.len() ==> advanced(
                #[trigger] steps[i],
                Event::Completed,
                steps[i + 1],
                actions[i + 1],
            ),
    ensures
        applying_answer(steps[done], info, done),
        forall|i: int|
            0 <= i < done ==> #[trigger] actions[i + 1] == Action::AddRemoteCandidate(
                info.candidates[i],
            ),
    decreases done,
{
    if done > 0 {
        lemma_answer_prefix(info, steps, actions, done - 1);
        assert(advanced(steps[done - 1], Event::Completed, steps[done], actions[done]));
        lemma_answer_step(steps[done - 1], info, done - 1, steps[done], actions[done]);
    }
}

/// An offerer that takes an answer applies all of it, as it was parsed: the
/// description first, then every candidate once and in its order, none
/// lost, added or altered; after the last one the operation is done and the
/// offerer is settled. `steps` and `actions` are what the connection goes
/// through while every step succeeds.
pub proof fn lemma_answer_applied_in_order(
    ready: ConnectionView,
    info: ConnectInfo,
    steps: Seq<ConnectionView>,
    actions: Seq<Action>,
)
    requires
        ready.takes_answer(),
        steps.len() == info@.candidates.len() + 2,
        actions.len() == info@.candidates.len() + 2,
        advanced(ready.answer_read(), Event::Parsed(info), steps[0], actions[0]),
        forall|i: int|
            0 <= i <= info@.candidates.len() ==> advanced(
                #[trigger] steps[i],
                Event::Completed,
                steps[i + 1],
                actions[i + 1],
            ),
    ensures
        actions[0] == Action::SetRemoteDescription(info.description),
        forall|i: int|
            0 <= i < info@.candidates.len() ==> #[trigger] actions[i + 1]
                == Action::AddRemoteCandidate(info@.candidates[i]),
        actions[info@.candidates.len() as int + 1] == Action::Done,
        steps[info@.candidates.len() as int + 1].stage == Stage::Settled,
{
    let count = info@.candidates.len() as int;
    assert(info@.candidates.skip(0) == info@.candidates);
    lemma_answer_prefix(info@, steps, actions, count);
    assert(advanced(steps[count], Event::Completed, steps[count + 1], actions[count + 1]));
    lemma_answer_step(steps[count], info@, count, steps[count + 1], actions[count + 1]);
}

} // verus!
