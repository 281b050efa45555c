//! What two peers tell each other to connect: a session description and the
//! network candidates gathered for it.

use vstd::prelude::*;

verus! {

/// The part a session description plays in the handshake.
#[derive(Clone, Copy, Debug, PartialEq, Eq, Structural)]
pub enum SdpKind {
    Unspecified,
    Offer,
    Pranswer,
    Answer,
    Rollback,
}

/// One side's description of the session, as the transport wrote it.
#[derive(Debug, PartialEq, Eq)]
pub struct SessionDescription {
    pub kind: SdpKind,
    pub sdp: String,
}

impl Clone for SessionDescription {
    fn clone(&self) -> (copy: SessionDescription)
        ensures
            copy == *self,
    {
        SessionDescription { kind: self.kind, sdp: self.sdp.clone() }
    }
}

impl SessionDescription {
    /// A description that says nothing yet.
    pub fn blank() -> (description: SessionDescription)
        ensures
            description.kind == SdpKind::Unspecified,
            description.sdp@ == Seq::<char>::empty(),
    {
        SessionDescription { kind: SdpKind::Unspecified, sdp: String::new() }
    }
}

/// The transport protocol of a candidate.
#[derive(Clone, Copy, Debug, PartialEq, Eq, Structural)]
pub enum IceProtocol {
    Unspecified,
    Udp,
    Tcp,
}

/// How a candidate's address was found.
#[derive(Clone, Copy, Debug, PartialEq, Eq, Structural)]
pub enum CandidateKind {
    Unspecified,
    Host,
    ServerReflexive,
    PeerReflexive,
    Relay,
}

/// One address at which a peer may be reached.
#[derive(Debug, PartialEq, Eq)]
pub struct Candidate {
    pub stats_id: String,
    pub foundation: String,
    pub priority: u32,
    pub address: String,
    pub protocol: IceProtocol,
    pub port: u16,
    pub kind: CandidateKind,
    pub component: u16,
    pub related_address: String,
    pub related_port: u16,
    pub tcp_type: String,
}

impl Clone for Candidate {
    fn clone(&self) -> (copy: Candidate)
        ensures
            copy == *self,
    {
        Candidate {
            stats_id: self.stats_id.clone(),
            foundation: self.foundation.clone(),
            priority: self.priority,
            address: self.address.clone(),
            protocol: self.protocol,
            port: self.port,
            kind: self.kind,
            component: self.component,
            related_address: self.related_address.clone(),
            related_port: self.related_port,
            tcp_type: self.tcp_type.clone(),
        }
    }
}

/// One side's whole contribution to the handshake. A value is a snapshot:
/// it is complete once gathering has ended, and is not changed afterwards.
#[derive(Debug, PartialEq, Eq)]
pub struct ConnectInfo {
    pub description: SessionDescription,
    pub candidates: Vec<Candidate>,
}

/// A `ConnectInfo` as a mathematical value.
pub struct ConnectInfoView {
    pub description: SessionDescription,
    pub candidates: Seq<Candidate>,
}

impl View for ConnectInfo {
    type V = ConnectInfoView;

    open spec fn view(&self) -> ConnectInfoView {
        ConnectInfoView { description: self.description, candidates: self.candidates@ }
    }
}

impl ConnectInfoView {
    /// Whether the value says nothing: no kind, no text, no candidates.
    pub open spec fn is_blank(self) -> bool {
        &&& self.description.kind == SdpKind::Unspecified
        &&& self.description.sdp@.len() == 0
        &&& self.candidates.len() == 0
    }

    /// The value with one more candidate behind those it has.
    pub open spec fn with_candidate(self, candidate: Candidate) -> ConnectInfoView {
        ConnectInfoView { candidates: self.candidates.push(candidate), ..self }
    }

    /// The value without its first candidate.
    pub open spec fn without_first(self) -> ConnectInfoView {
        ConnectInfoView { candidates: self.candidates.drop_first(), ..self }
    }
}

impl ConnectInfo {
    /// A blank description and no candidates.
    pub fn blank() -> (info: ConnectInfo)
        ensures
            info@.is_blank(),
    {
        ConnectInfo { description: SessionDescription::blank(), candidates: Vec::new() }
    }

    /// A copy with the same description and the same candidates in the
    /// same order.
    pub fn snapshot(&self) -> (copy: ConnectInfo)
        ensures
            copy@ == self@,
    {
        let mut candidates: Vec<Candidate> = Vec::new();
        let mut i: usize = 0;
        while i < self.candidates.len()
            invariant
                i <= self.candidates@.len(),
                candidates@ == self.candidates@.take(i as int),
            decreases self.candidates@.len() - i,
        {
            candidates.push(self.candidates[i].clone());
            i += 1;
        }
        proof {
            assert(self.candidates@.take(i as int) =~= self.candidates@);
        }
        ConnectInfo { description: self.description.clone(), candidates }
    }

    /// A description with no candidates gathered for it yet.
    pub fn of_description(description: SessionDescription) -> (info: ConnectInfo)
        ensures
            info@.description == description,
            info@.candidates == Seq::<Candidate>::empty(),
    {
        ConnectInfo { description, candidates: Vec::new() }
    }
}

} // verus!
