//! The unsigned membership template and the resident server that issues it.

use crate::error::{outcome, JoinError, JoinErrorView};
use crate::ident::{RoomIdentifier, UserIdentifier};
use crate::version::{
    contains_version, lemma_negotiated_is_member, negotiated, normalize_versions, normalized,
    select_version, tags,
};
use vstd::prelude::*;

verus! {

/// The content of a membership event.
#[derive(Clone, Debug, PartialEq, Eq)]
pub struct MembershipEventContent {
    /// The membership that the event gives its subject: `join` here.
    pub membership: String,
}

/// An unsigned proposal for a membership event.
#[derive(Clone, Debug, PartialEq, Eq)]
pub struct EventTemplate {
    /// The user ID of the joining member.
    pub sender: String,
    /// The name of the resident homeserver.
    pub origin: String,
    /// When the resident homeserver made the template, in milliseconds
    /// since the Unix epoch.
    pub origin_server_ts: u64,
    /// The type of the event: `m.room.member`.
    pub event_type: String,
    /// The user ID of the joining member.
    pub state_key: String,
    /// The content of the event.
    pub content: MembershipEventContent,
}

/// An `EventTemplate` as plain values.
pub ghost struct EventTemplateView {
    pub sender: Seq<char>,
    pub origin: Seq<char>,
    pub origin_server_ts: u64,
    pub event_type: Seq<char>,
    pub state_key: Seq<char>,
    pub membership: Seq<char>,
}

impl View for EventTemplate {
    type V = EventTemplateView;

    open spec fn view(&self) -> EventTemplateView {
        EventTemplateView {
            sender: self.sender@,
            origin: self.origin@,
            origin_server_ts: self.origin_server_ts,
            event_type: self.event_type@,
            state_key: self.state_key@,
            membership: self.content.membership@,
        }
    }
}

/// The type tag of every membership event.
pub open spec fn member_event_type() -> Seq<char> {
    "m.room.member"@
}

/// The membership value of a join.
pub open spec fn join_membership() -> Seq<char> {
    "join"@
}

/// A template by which a user joins on their own behalf.
pub open spec fn is_self_join(t: EventTemplateView) -> bool {
    &&& t.event_type == member_event_type()
    &&& t.state_key == t.sender
    &&& t.membership == join_membership()
}

/// The template that a server named `origin` issues at time `now_ms` for
/// the joining `user`.
pub open spec fn join_template(user: Seq<char>, origin: Seq<char>, now_ms: u64) -> EventTemplateView {
    EventTemplateView {
        sender: user,
        origin,
        origin_server_ts: now_ms,
        event_type: member_event_type(),
        state_key: user,
        membership: join_membership(),
    }
}

/// The answer to a request for a template: the room version that was
/// picked, and the template itself.
#[derive(Clone, Debug, PartialEq, Eq)]
pub struct JoinTemplate {
    /// The version of the room that the user is joining.
    pub room_version: String,
    /// An unsigned template event.
    pub event: EventTemplate,
}

/// A `JoinTemplate` as plain values.
pub ghost struct JoinTemplateView {
    pub room_version: Seq<char>,
    pub event: EventTemplateView,
}

impl View for JoinTemplate {
    type V = JoinTemplateView;

    open spec fn view(&self) -> JoinTemplateView {
        JoinTemplateView { room_version: self.room_version@, event: self.event@ }
    }
}

/// What a resident server knows of itself.
#[derive(Clone, Debug, PartialEq, Eq)]
pub struct ResidentServer {
    /// The server's own domain.
    pub origin: String,
    /// The room versions that it can host, the preferred ones first.
    pub versions: Vec<String>,
}

/// What `build_template` answers. `offered` is the requester's list as it
/// was sent, `room_known` and `may_join` are what storage and the
/// permission check said of the room and the user.
pub open spec fn template_outcome(
    origin: Seq<char>,
    hosted: Seq<Seq<char>>,
    user: Seq<char>,
    offered: Seq<Seq<char>>,
    room_known: bool,
    may_join: bool,
    now_ms: u64,
) -> Result<JoinTemplateView, JoinErrorView> {
    if !room_known {
        Err(JoinErrorView::NotFound)
    } else if !may_join {
        Err(JoinErrorView::Unauthorized)
    } else {
        match negotiated(hosted, normalized(offered)) {
            Some(version) => Ok(
                JoinTemplateView {
                    room_version: version,
                    event: join_template(user, origin, now_ms),
                },
            ),
            None => Err(
                JoinErrorView::UnsupportedRoomVersion {
                    offered: normalized(offered),
                    supported: hosted,
                },
            ),
        }
    }
}

/// Makes the template of a join event.
fn make_event(server: &ResidentServer, user: &UserIdentifier, now_ms: u64) -> (t: EventTemplate)
    ensures
        t@ == join_template(user@, server.origin@, now_ms),
{
    EventTemplate {
        sender: user.to_text(),
        origin: server.origin.clone(),
        origin_server_ts: now_ms,
        event_type: "m.room.member".to_string(),
        state_key: user.to_text(),
        content: MembershipEventContent { membership: "join".to_string() },
    }
}

/// Answers a request for a join template, as the resident server.
///
/// `room_known` says whether storage has the room `room`, `may_join` whether
/// the permission check lets `user` join it, and `now_ms` is the time at
/// which the template is made. An empty `supported_versions` stands for the
/// baseline version alone. The version is the first of the server's own
/// that the requester offered.
pub fn build_template(
    server: &ResidentServer,
    room: &RoomIdentifier,
    user: &UserIdentifier,
    supported_versions: Vec<String>,
    room_known: bool,
    may_join: bool,
    now_ms: u64,
) -> (r: Result<JoinTemplate, JoinError>)
    ensures
        outcome(r) == template_outcome(
            server.origin@,
            tags(server.versions@),
            user@,
            tags(supported_versions@),
            room_known,
            may_join,
            now_ms,
        ),
        r is Ok ==> normalized(tags(supported_versions@)).contains(r->Ok_0.room_version@),
        r is Ok ==> is_self_join(r->Ok_0.event@),
{
    if !room_known {
        return Err(JoinError::NotFound);
    }
    if !may_join {
        return Err(JoinError::Unauthorized);
    }
    let offered = normalize_versions(supported_versions);
    match select_version(&server.versions, &offered) {
        Some(room_version) => {
            proof {
                lemma_negotiated_is_member(tags(server.versions@), tags(offered@));
            }
            Ok(JoinTemplate { room_version, event: make_event(server, user, now_ms) })
        },
        None => Err(
            JoinError::UnsupportedRoomVersion { offered, supported: server.versions.clone() },
        ),
    }
}

/// What the requester makes of an answer to its request: the version must
/// be one that it offered, and the template a self-join of its user.
pub open spec fn template_check(
    offered: Seq<Seq<char>>,
    user: Seq<char>,
    answer: JoinTemplateView,
) -> Result<(), JoinErrorView> {
    if !normalized(offered).contains(answer.room_version) {
        Err(
            JoinErrorView::UnsupportedRoomVersion {
                offered: normalized(offered),
                supported: seq![answer.room_version],
            },
        )
    } else if !is_self_join(answer.event) || answer.event.sender != user {
        Err(JoinErrorView::MalformedPdu)
    } else {
        Ok(())
    }
}

/// Checks the answer to a request for a template, as the joining server.
///
/// `offered` is the list of versions that was sent with the request. An
/// answer in a version that was not offered is refused with
/// `UnsupportedRoomVersion`, which names the offer and the version that
/// came back; a template that is not a join of `user` by `user` is refused
/// with `MalformedPdu`.
pub fn check_template(offered: &Vec<String>, user: &UserIdentifier, answer: &JoinTemplate) -> (r:
    Result<(), JoinError>)
    ensures
        outcome(r) == template_check(tags(offered@), user@, answer@),
{
    let copy = offered.clone();
    assert(tags(copy@) =~= tags(offered@));
    let asked = normalize_versions(copy);
    if !contains_version(&asked, &answer.room_version) {
        let mut supported: Vec<String> = Vec::new();
        supported.push(answer.room_version.clone());
        assert(tags(supported@) =~= seq![answer.room_version@]);
        return Err(JoinError::UnsupportedRoomVersion { offered: asked, supported });
    }
    let t = &answer.event;
    let self_join = t.event_type == "m.room.member".to_string() && t.state_key == t.sender
        && t.content.membership == "join".to_string();
    if !self_join || t.sender != user.to_text() {
        return Err(JoinError::MalformedPdu);
    }
    Ok(())
}

/// Naming no version means naming the baseline: a request with an empty
/// list of versions is answered as one that offers the baseline alone.
pub proof fn lemma_omitted_versions_mean_baseline(
    origin: Seq<char>,
    hosted: Seq<Seq<char>>,
    user: Seq<char>,
    room_known: bool,
    may_join: bool,
    now_ms: u64,
)
    ensures
        template_outcome(origin, hosted, user, Seq::empty(), room_known, may_join, now_ms)
            == template_outcome(
            origin,
            hosted,
            user,
            seq!["1"@],
            room_known,
            may_join,
            now_ms,
        ),
{
    assert(normalized(Seq::<Seq<char>>::empty()) =~= normalized(seq!["1"@]));
}

/// Whatever is offered, a template that is issued names a version from the
/// offer (the baseline, where the offer is empty), and is a self-join of
/// the user it was asked for: the requester's check lets it pass.
pub proof fn lemma_issued_template(
    origin: Seq<char>,
    hosted: Seq<Seq<char>>,
    user: Seq<char>,
    offered: Seq<Seq<char>>,
    room_known: bool,
    may_join: bool,
    now_ms: u64,
)
    requires
        template_outcome(origin, hosted, user, offered, room_known, may_join, now_ms) is Ok,
    ensures
        ({
            let t = template_outcome(origin, hosted, user, offered, room_known, may_join, now_ms)->Ok_0;
            &&& normalized(offered).contains(t.room_version)
            &&& hosted.contains(t.room_version)
            &&& is_self_join(t.event)
            &&& t.event.sender == user
            &&& template_check(offered, user, t) == Ok::<(), JoinErrorView>(())
        }),
{
    lemma_negotiated_is_member(hosted, normalized(offered));
}

} // verus!
