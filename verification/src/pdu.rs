//! The persistent data unit (PDU): a signed event in the shape of one room
//! version, and the step that makes one from a template.

use crate::error::{outcome, JoinError, JoinErrorView};
use crate::ident::RoomIdentifier;
use crate::template::{EventTemplate, EventTemplateView, MembershipEventContent};
use crate::template::{join_membership, member_event_type};
use crate::version::{contains_version, tags};
use vstd::prelude::*;

verus! {

/// A signed event. Of its content this library reads the membership only.
#[derive(Clone, Debug, PartialEq, Eq)]
pub struct Pdu {
    /// The room version whose shape the event has.
    pub room_version: String,
    /// The identifier derived from the signed event.
    pub event_id: String,
    /// The room that the event belongs to.
    pub room_id: String,
    /// The user who sent the event.
    pub sender: String,
    /// The server that made the event.
    pub origin: String,
    /// When `origin` made it, in milliseconds since the Unix epoch.
    pub origin_server_ts: u64,
    /// The type of the event.
    pub event_type: String,
    /// The key under which the event is part of the room's state.
    pub state_key: String,
    /// The content of a membership event; `None` for any other content.
    pub content: Option<MembershipEventContent>,
    /// The identifiers of the events that authorize this one.
    pub auth_events: Vec<String>,
    /// The signature of the origin server.
    pub signature: Vec<u8>,
}

/// A `Pdu` as plain values.
pub ghost struct PduView {
    pub room_version: Seq<char>,
    pub event_id: Seq<char>,
    pub room_id: Seq<char>,
    pub sender: Seq<char>,
    pub origin: Seq<char>,
    pub origin_server_ts: u64,
    pub event_type: Seq<char>,
    pub state_key: Seq<char>,
    pub membership: Option<Seq<char>>,
    pub auth_events: Seq<Seq<char>>,
    pub signature: Seq<u8>,
}

impl View for Pdu {
    type V = PduView;

    open spec fn view(&self) -> PduView {
        PduView {
            room_version: self.room_version@,
            event_id: self.event_id@,
            room_id: self.room_id@,
            sender: self.sender@,
            origin: self.origin@,
            origin_server_ts: self.origin_server_ts,
            event_type: self.event_type@,
            state_key: self.state_key@,
            membership: match self.content {
                Some(c) => Some(c.membership@),
                None => None,
            },
            auth_events: tags(self.auth_events@),
            signature: self.signature@,
        }
    }
}

/// The views of a list of PDUs, in the same order.
pub open spec fn pdu_views(pdus: Seq<Pdu>) -> Seq<PduView> {
    Seq::new(pdus.len(), |i: int| pdus[i]@)
}

/// A PDU by which its sender joins on their own behalf.
pub open spec fn is_join_pdu(p: PduView) -> bool {
    &&& p.event_type == member_event_type()
    &&& p.state_key == p.sender
    &&& p.membership == Some(join_membership())
}

/// What the signer hands back for an event.
#[derive(Clone, Debug, PartialEq, Eq)]
pub struct SignedEvent {
    /// The identifier derived from the signed event.
    pub event_id: String,
    /// The signature itself.
    pub signature: Vec<u8>,
}

/// A `SignedEvent` as plain values.
pub ghost struct SignedEventView {
    pub event_id: Seq<char>,
    pub signature: Seq<u8>,
}

impl View for SignedEvent {
    type V = SignedEventView;

    open spec fn view(&self) -> SignedEventView {
        SignedEventView { event_id: self.event_id@, signature: self.signature@ }
    }
}

/// The PDU that carries template `t` into `room`, in the shape of
/// `version` and signed as `signed` says. Every field of the template is
/// kept as it is.
pub open spec fn pdu_of_template(
    room: Seq<char>,
    version: Seq<char>,
    t: EventTemplateView,
    signed: SignedEventView,
) -> PduView {
    PduView {
        room_version: version,
        event_id: signed.event_id,
        room_id: room,
        sender: t.sender,
        origin: t.origin,
        origin_server_ts: t.origin_server_ts,
        event_type: t.event_type,
        state_key: t.state_key,
        membership: Some(t.membership),
        auth_events: Seq::empty(),
        signature: signed.signature,
    }
}

/// What `submit_join` answers. `encodable` are the room versions whose PDU
/// shape the submitter can write; `signed` is `None` where the signer
/// failed.
pub open spec fn submit_outcome(
    room: Seq<char>,
    version: Seq<char>,
    t: EventTemplateView,
    encodable: Seq<Seq<char>>,
    signed: Option<SignedEventView>,
) -> Result<PduView, JoinErrorView> {
    if !encodable.contains(version) {
        Err(JoinErrorView::UnsupportedRoomVersion { offered: seq![version], supported: encodable })
    } else {
        match signed {
            None => Err(JoinErrorView::SigningFailed),
            Some(s) => Ok(pdu_of_template(room, version, t, s)),
        }
    }
}

/// The view of what the signer handed back.
pub open spec fn signed_view(signed: Option<SignedEvent>) -> Option<SignedEventView> {
    match signed {
        Some(s) => Some(s@),
        None => None,
    }
}

/// Turns a template into the signed PDU that is sent to the resident
/// server, as the joining server.
///
/// `room_version` is the version that came with the template, `encodable`
/// the versions whose PDU shape this server can write, and `signed` what
/// the signer returned for the template, `None` where it failed.
pub fn submit_join(
    room: &RoomIdentifier,
    room_version: &String,
    template: EventTemplate,
    encodable: &Vec<String>,
    signed: Option<SignedEvent>,
) -> (r: Result<Pdu, JoinError>)
    ensures
        outcome(r) == submit_outcome(
            room@,
            room_version@,
            template@,
            tags(encodable@),
            signed_view(signed),
        ),
{
    if !contains_version(encodable, room_version) {
        let mut offered: Vec<String> = Vec::new();
        offered.push(room_version.clone());
        assert(tags(offered@) =~= seq![room_version@]);
        return Err(
            JoinError::UnsupportedRoomVersion { offered, supported: encodable.clone() },
        );
    }
    match signed {
        None => Err(JoinError::SigningFailed),
        Some(s) => {
            let auth_events: Vec<String> = Vec::new();
            assert(tags(auth_events@) =~= Seq::<Seq<char>>::empty());
            Ok(
                Pdu {
                    room_version: room_version.clone(),
                    event_id: s.event_id,
                    room_id: room.as_str().to_owned(),
                    sender: template.sender,
                    origin: template.origin,
                    origin_server_ts: template.origin_server_ts,
                    event_type: template.event_type,
                    state_key: template.state_key,
                    content: Some(template.content),
                    auth_events,
                    signature: s.signature,
                },
            )
        },
    }
}

} // verus!
