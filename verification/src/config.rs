//! The fixed settings both peers agree on before they connect: the two
//! channels of a connection and how the connection itself is made.
//!
//! Both channels are negotiated out of band, so no channel-open handshake
//! runs over the wire.

use vstd::prelude::*;

verus! {

/// Seconds without traffic after which the transport calls a connection
/// lost. Minutes, not seconds: a person is pasting the token by hand.
pub const DISCONNECT_TIMEOUT_SECS: u64 = 300;

/// The identifier the audio channel is negotiated with.
pub const AUDIO_CHANNEL_ID: u16 = 0;

/// The identifier the control channel is negotiated with. It differs from
/// the audio channel's: one connection carries each identifier once.
pub const CONTROL_CHANNEL_ID: u16 = 1;

/// How many STUN servers a connection is given.
pub const STUN_SERVER_COUNT: usize = 10;

/// Which of the two channels.
#[derive(Clone, Copy, Debug, PartialEq, Eq, Structural)]
pub enum ChannelKind {
    /// Carries sample frames.
    Audio,
    /// Carries timestamps and echoes.
    Control,
}

/// How one channel is opened.
#[derive(Clone, Copy, Debug, PartialEq, Eq, Structural)]
pub struct ChannelConfig {
    pub kind: ChannelKind,
    /// Whether payloads arrive in the order in which they were sent.
    pub ordered: bool,
    /// How often a lost payload is sent again; `None` for until it arrives.
    pub max_retransmits: Option<u16>,
    /// The identifier agreed on out of band.
    pub negotiated_id: u16,
}

/// The settings of the audio channel: unordered, and nothing is sent twice.
pub open spec fn audio_channel_spec() -> ChannelConfig {
    ChannelConfig {
        kind: ChannelKind::Audio,
        ordered: false,
        max_retransmits: Some(0u16),
        negotiated_id: AUDIO_CHANNEL_ID,
    }
}

/// The settings of the control channel: ordered, and sent again until it
/// arrives.
pub open spec fn control_channel_spec() -> ChannelConfig {
    ChannelConfig {
        kind: ChannelKind::Control,
        ordered: true,
        max_retransmits: None,
        negotiated_id: CONTROL_CHANNEL_ID,
    }
}

/// The audio channel: a late or lost frame never holds up the next one.
pub fn audio_channel() -> (config: ChannelConfig)
    ensures
        config == audio_channel_spec(),
{
    ChannelConfig {
        kind: ChannelKind::Audio,
        ordered: false,
        max_retransmits: Some(0),
        negotiated_id: AUDIO_CHANNEL_ID,
    }
}

/// The control channel: every payload arrives, in the order sent.
pub fn control_channel() -> (config: ChannelConfig)
    ensures
        config == control_channel_spec(),
{
    ChannelConfig {
        kind: ChannelKind::Control,
        ordered: true,
        max_retransmits: None,
        negotiated_id: CONTROL_CHANNEL_ID,
    }
}

impl ChannelConfig {
    /// The text of `label`.
    pub open spec fn label_text(self) -> Seq<char> {
        match self.kind {
            ChannelKind::Audio => "audio"@,
            ChannelKind::Control => "tcp"@,
        }
    }

    /// The label the channel is opened under.
    pub fn label(&self) -> (label: &'static str)
        ensures
            label@ == self.label_text(),
    {
        match self.kind {
            ChannelKind::Audio => "audio",
            ChannelKind::Control => "tcp",
        }
    }
}

/// The address of the STUN server at each place of the list.
pub open spec fn stun_server_url(place: int) -> Seq<char> {
    if place == 0 {
        "stun:stun.l.google.com:19302"@
    } else if place == 1 {
        "stun:stun.l.google.com:5349"@
    } else if place == 2 {
        "stun:stun1.l.google.com:3478"@
    } else if place == 3 {
        "stun:stun1.l.google.com:5349"@
    } else if place == 4 {
        "stun:stun2.l.google.com:19302"@
    } else if place == 5 {
        "stun:stun2.l.google.com:5349"@
    } else if place == 6 {
        "stun:stun3.l.google.com:3478"@
    } else if place == 7 {
        "stun:stun3.l.google.com:5349"@
    } else if place == 8 {
        "stun:stun4.l.google.com:19302"@
    } else {
        "stun:stun4.l.google.com:5349"@
    }
}

/// The public STUN servers a connection asks for its own addresses. There is
/// no relay among them and no way to configure others.
pub fn stun_servers() -> (urls: Vec<&'static str>)
    ensures
        urls@.len() == STUN_SERVER_COUNT,
        forall|place: int| 0 <= place < urls@.len() ==> (#[trigger] urls@[place])@ == stun_server_url(place),
{
    let mut urls: Vec<&'static str> = Vec::new();
    urls.push("stun:stun.l.google.com:19302");
    urls.push("stun:stun.l.google.com:5349");
    urls.push("stun:stun1.l.google.com:3478");
    urls.push("stun:stun1.l.google.com:5349");
    urls.push("stun:stun2.l.google.com:19302");
    urls.push("stun:stun2.l.google.com:5349");
    urls.push("stun:stun3.l.google.com:3478");
    urls.push("stun:stun3.l.google.com:5349");
    urls.push("stun:stun4.l.google.com:19302");
    urls.push("stun:stun4.l.google.com:5349");
    urls
}

} // verus!
