//! The course of one join attempt, seen from the joining server, and what
//! the three steps of the handshake give when they follow one another.

use crate::error::JoinErrorView;
use crate::pdu::{is_join_pdu, pdu_of_template, submit_outcome, PduView, SignedEventView};
use crate::state::{accept_outcome, complete, RoomStateView};
use crate::template::template_outcome;
use crate::version::{lemma_negotiated_is_member, normalized};
use vstd::prelude::*;

verus! {

/// Where a join attempt stands.
#[derive(Clone, Copy, Debug, PartialEq, Eq, Structural)]
pub enum JoinPhase {
    /// A template was asked for.
    Requested,
    /// The resident server issued a template.
    TemplateIssued,
    /// The template was signed into a PDU.
    Signed,
    /// The PDU was sent to the resident server.
    Submitted,
    /// The resident server answered with state and chain. Final.
    Accepted,
    /// A step failed. Final.
    Rejected,
}

/// What happened to a join attempt.
#[derive(Clone, Copy, Debug, PartialEq, Eq, Structural)]
pub enum JoinEvent {
    /// The template arrived.
    TemplateReceived,
    /// The signer returned the signed event.
    EventSigned,
    /// The PDU went out.
    EventSent,
    /// State and chain arrived.
    StateReceived,
    /// Any step failed.
    Failed,
}

/// The phase that follows `phase` on `event`. A final phase stays; the
/// event that a phase waits for moves it on; any other event, a failure
/// among them, rejects the attempt.
pub open spec fn next_phase(phase: JoinPhase, event: JoinEvent) -> JoinPhase {
    match (phase, event) {
        (JoinPhase::Accepted, _) => JoinPhase::Accepted,
        (JoinPhase::Rejected, _) => JoinPhase::Rejected,
        (JoinPhase::Requested, JoinEvent::TemplateReceived) => JoinPhase::TemplateIssued,
        (JoinPhase::TemplateIssued, JoinEvent::EventSigned) => JoinPhase::Signed,
        (JoinPhase::Signed, JoinEvent::EventSent) => JoinPhase::Submitted,
        (JoinPhase::Submitted, JoinEvent::StateReceived) => JoinPhase::Accepted,
        _ => JoinPhase::Rejected,
    }
}

/// The phase reached from `phase` after all of `events`, in order.
pub open spec fn phase_after(phase: JoinPhase, events: Seq<JoinEvent>) -> JoinPhase
    decreases events.len(),
{
    if events.len() == 0 {
        phase
    } else {
        next_phase(phase_after(phase, events.drop_last()), events.last())
    }
}

impl JoinPhase {
    /// The phase in which every attempt starts.
    pub fn start() -> (p: JoinPhase)
        ensures
            p == JoinPhase::Requested,
    {
        JoinPhase::Requested
    }

    /// Whether the attempt is over.
    pub open spec fn spec_is_terminal(self) -> bool {
        self == JoinPhase::Accepted || self == JoinPhase::Rejected
    }

    /// Whether the attempt is over.
    #[verifier::when_used_as_spec(spec_is_terminal)]
    pub fn is_terminal(self) -> (t: bool)
        ensures
            t == self.spec_is_terminal(),
    {
        match self {
            JoinPhase::Accepted | JoinPhase::Rejected => true,
            _ => false,
        }
    }

    /// Moves the attempt on by one event.
    pub fn advance(self, event: JoinEvent) -> (p: JoinPhase)
        ensures
            p == next_phase(self, event),
    {
        match (self, event) {
            (JoinPhase::Accepted, _) => JoinPhase::Accepted,
            (JoinPhase::Rejected, _) => JoinPhase::Rejected,
            (JoinPhase::Requested, JoinEvent::TemplateReceived) => JoinPhase::TemplateIssued,
            (JoinPhase::TemplateIssued, JoinEvent::EventSigned) => JoinPhase::Signed,
            (JoinPhase::Signed, JoinEvent::EventSent) => JoinPhase::Submitted,
            (JoinPhase::Submitted, JoinEvent::StateReceived) => JoinPhase::Accepted,
            _ => JoinPhase::Rejected,
        }
    }
}

/// The four events of a join that goes through, in their order.
pub open spec fn full_course() -> Seq<JoinEvent> {
    seq![
        JoinEvent::TemplateReceived,
        JoinEvent::EventSigned,
        JoinEvent::EventSent,
        JoinEvent::StateReceived,
    ]
}

/// A final phase is never left, whatever happens after it.
pub proof fn lemma_terminal_is_final(phase: JoinPhase, events: Seq<JoinEvent>)
    requires
        phase.is_terminal(),
    ensures
        phase_after(phase, events) == phase,
    decreases events.len(),
{
    if events.len() > 0 {
        lemma_terminal_is_final(phase, events.drop_last());
    }
}

/// An attempt is accepted only by the full course: the events that lead
/// from the start to `Accepted` begin with the four steps, in order.
pub proof fn lemma_accepted_took_full_course(events: Seq<JoinEvent>)
    requires
        phase_after(JoinPhase::Requested, events) == JoinPhase::Accepted,
    ensures
        events.len() >= 4,
        events.subrange(0, 4) == full_course(),
{
    lemma_prefix_phase(events, events.len() as int);
    assert(events.subrange(0, events.len() as int) =~= events);
    assert(events.subrange(0, 4) =~= full_course());
}

/// After `n` events from the start, an attempt that is not rejected has
/// seen the first `n` steps of the full course and stands in the phase
/// that they lead to; past the fourth it is accepted.
proof fn lemma_prefix_phase(events: Seq<JoinEvent>, n: int)
    requires
        0 <= n <= events.len(),
    ensures
        ({
            let p = phase_after(JoinPhase::Requested, events.subrange(0, n));
            &&& p != JoinPhase::Rejected ==> forall|k: int|
                0 <= k < n && k < 4 ==> events[k] == full_course()[k]
            &&& p == JoinPhase::Requested <==> n == 0
            &&& p == JoinPhase::TemplateIssued ==> n == 1
            &&& p == JoinPhase::Signed ==> n == 2
            &&& p == JoinPhase::Submitted ==> n == 3
            &&& p == JoinPhase::Accepted ==> n >= 4
        }),
    decreases n,
{
    if n > 0 {
        lemma_prefix_phase(events, n - 1);
        let cur = events.subrange(0, n);
        assert(cur.drop_last() =~= events.subrange(0, n - 1));
        assert(cur.last() == events[n - 1]);
    }
}

/// The handshake goes through: where the resident server issued a
/// template, the joining server can write its version and the signer
/// signed, the resulting PDU is accepted by the same resident server for
/// the same room, given that the signature checks, the user may join and
/// storage holds a complete chain. The answer is that state and that
/// chain.
pub proof fn lemma_round_trip(
    origin: Seq<char>,
    hosted: Seq<Seq<char>>,
    room: Seq<char>,
    user: Seq<char>,
    offered: Seq<Seq<char>>,
    now_ms: u64,
    encodable: Seq<Seq<char>>,
    signed: SignedEventView,
    state: Seq<PduView>,
    chain: Seq<PduView>,
    disclose: bool,
)
    requires
        template_outcome(origin, hosted, user, offered, true, true, now_ms) is Ok,
        encodable.contains(
            template_outcome(origin, hosted, user, offered, true, true, now_ms)->Ok_0.room_version,
        ),
        complete(state, chain),
    ensures
        ({
            let t = template_outcome(origin, hosted, user, offered, true, true, now_ms)->Ok_0;
            let sent = submit_outcome(room, t.room_version, t.event, encodable, Some(signed));
            &&& sent == Ok::<PduView, JoinErrorView>(
                pdu_of_template(room, t.room_version, t.event, signed),
            )
            &&& is_join_pdu(sent->Ok_0)
            &&& accept_outcome(
                origin,
                hosted,
                room,
                sent->Ok_0,
                true,
                true,
                state,
                Some(chain),
                disclose,
            )
                == Ok::<RoomStateView, JoinErrorView>(
                RoomStateView {
                    origin: if disclose {
                        Some(origin)
                    } else {
                        None
                    },
                    auth_chain: chain,
                    state,
                },
            )
        }),
{
    lemma_negotiated_is_member(hosted, normalized(offered));
}

/// A PDU sent to another room than the one it names is refused as a
/// mismatch, whatever else holds of it.
pub proof fn lemma_other_room_is_mismatch(
    origin: Seq<char>,
    hosted: Seq<Seq<char>>,
    room: Seq<char>,
    pdu: PduView,
    verified: bool,
    may_join: bool,
    state: Seq<PduView>,
    chain: Option<Seq<PduView>>,
    disclose: bool,
)
    requires
        pdu.room_id != room,
    ensures
        accept_outcome(origin, hosted, room, pdu, verified, may_join, state, chain, disclose) == Err::<
            RoomStateView,
            JoinErrorView,
        >(JoinErrorView::RoomMismatch),
{
}

} // verus!
