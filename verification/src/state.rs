//! The resident server's answer to a join: the room's state and the chain
//! of events that authorizes it.
//!
//! The chain is a graph keyed by event identifier: every event lists the
//! identifiers of the events that authorize it, and an answer is complete
//! when each identifier listed anywhere in it names an event of the chain.

use crate::error::{outcome, JoinError, JoinErrorView};
use crate::ident::RoomIdentifier;
use crate::pdu::{is_join_pdu, pdu_views, Pdu, PduView};
use crate::template::ResidentServer;
use crate::version::{contains_version, tags};
use js_int::UInt;
use vstd::prelude::*;

verus! {

/// The room state and authorization chain sent back for a join.
#[derive(Clone, Debug, PartialEq, Eq)]
pub struct RoomState {
    /// The resident server's DNS name, where it chose to give it.
    pub origin: Option<String>,
    /// The full set of authorization events that make up the state of the
    /// room, and their authorization events, recursively.
    pub auth_chain: Vec<Pdu>,
    /// The room state, as it was before the join.
    pub state: Vec<Pdu>,
}

/// A `RoomState` as plain values.
pub ghost struct RoomStateView {
    pub origin: Option<Seq<char>>,
    pub auth_chain: Seq<PduView>,
    pub state: Seq<PduView>,
}

impl View for RoomState {
    type V = RoomStateView;

    open spec fn view(&self) -> RoomStateView {
        RoomStateView {
            origin: match self.origin {
                Some(o) => Some(o@),
                None => None,
            },
            auth_chain: pdu_views(self.auth_chain@),
            state: pdu_views(self.state@),
        }
    }
}

/// Some event of `chain` has the identifier `id`.
pub open spec fn chain_has(chain: Seq<PduView>, id: Seq<char>) -> bool {
    exists|k: int| 0 <= k < chain.len() && (#[trigger] chain[k]).event_id == id
}

/// Every authorization event that an event of `events` lists is in `chain`.
pub open spec fn refs_resolve(events: Seq<PduView>, chain: Seq<PduView>) -> bool {
    forall|i: int, j: int|
        0 <= i < events.len() && 0 <= j < events[i].auth_events.len() ==> chain_has(
            chain,
            #[trigger] events[i].auth_events[j],
        )
}

/// `chain` holds every authorization event that `state` or `chain` itself
/// lists.
pub open spec fn complete(state: Seq<PduView>, chain: Seq<PduView>) -> bool {
    refs_resolve(state, chain) && refs_resolve(chain, chain)
}

/// Some event of `events` lists `id` among its authorization events.
pub open spec fn listed_by(events: Seq<PduView>, id: Seq<char>) -> bool {
    exists|i: int, j: int|
        0 <= i < events.len() && 0 <= j < events[i].auth_events.len()
            && #[trigger] events[i].auth_events[j] == id
}

/// The event named `via` is among `events` and lists `id`.
pub open spec fn listed_by_event(events: Seq<PduView>, via: Seq<char>, id: Seq<char>) -> bool {
    exists|i: int, j: int|
        0 <= i < events.len() && 0 <= j < events[i].auth_events.len() && events[i].event_id == via
            && #[trigger] events[i].auth_events[j] == id
}

/// `path` follows authorization references from the events at hand: its
/// first entry is listed by one of them, and every later entry is listed
/// by the event that the entry before it names.
pub open spec fn is_reference_path(events: Seq<PduView>, path: Seq<Seq<char>>) -> bool {
    &&& path.len() > 0
    &&& listed_by(events, path[0])
    &&& forall|k: int|
        0 < k < path.len() ==> listed_by_event(events, path[k - 1], #[trigger] path[k])
}

/// What storage holds of a room when a join arrives: its current state,
/// and the authorization chain for it, `None` where none could be put
/// together.
#[derive(Clone, Debug, PartialEq, Eq)]
pub struct RoomSnapshot {
    /// The room's state events, as they stand before the join.
    pub state: Vec<Pdu>,
    /// The authorization events for that state, if storage has them.
    pub auth_chain: Option<Vec<Pdu>>,
}

/// What `accept_join` answers for a PDU sent to `room`. `verified` is what
/// the signature check said of the PDU, `may_join` what the room's rules
/// say of its sender, `state` and `chain` are what storage holds, and
/// `disclose` says whether the answer names the server.
pub open spec fn accept_outcome(
    origin: Seq<char>,
    hosted: Seq<Seq<char>>,
    room: Seq<char>,
    pdu: PduView,
    verified: bool,
    may_join: bool,
    state: Seq<PduView>,
    chain: Option<Seq<PduView>>,
    disclose: bool,
) -> Result<RoomStateView, JoinErrorView> {
    if pdu.room_id != room {
        Err(JoinErrorView::RoomMismatch)
    } else if !hosted.contains(pdu.room_version) {
        Err(
            JoinErrorView::UnsupportedRoomVersion {
                offered: seq![pdu.room_version],
                supported: hosted,
            },
        )
    } else if !is_join_pdu(pdu) {
        Err(JoinErrorView::MalformedPdu)
    } else if !verified || !may_join {
        Err(JoinErrorView::Unauthorized)
    } else if chain is None || !complete(state, chain->Some_0) {
        Err(JoinErrorView::AuthChainUnavailable)
    } else {
        Ok(
            RoomStateView {
                origin: if disclose {
                    Some(origin)
                } else {
                    None
                },
                auth_chain: chain->Some_0,
                state,
            },
        )
    }
}

/// The view of the chain that storage handed over.
pub open spec fn chain_view(chain: Option<Vec<Pdu>>) -> Option<Seq<PduView>> {
    match chain {
        Some(c) => Some(pdu_views(c@)),
        None => None,
    }
}

/// Whether an event of `chain` has the identifier `id`.
pub fn chain_contains(chain: &Vec<Pdu>, id: &String) -> (found: bool)
    ensures
        found == chain_has(pdu_views(chain@), id@),
{
    let mut k: usize = 0;
    while k < chain.len()
        invariant
            0 <= k <= chain.len(),
            forall|m: int| 0 <= m < k ==> (#[trigger] pdu_views(chain@)[m]).event_id != id@,
        decreases chain.len() - k,
    {
        if chain[k].event_id == *id {
            assert(pdu_views(chain@)[k as int].event_id == id@);
            return true;
        }
        k += 1;
    }
    false
}

/// Whether `chain` holds every authorization event that an event of
/// `events` lists.
pub fn references_resolve(events: &Vec<Pdu>, chain: &Vec<Pdu>) -> (ok: bool)
    ensures
        ok == refs_resolve(pdu_views(events@), pdu_views(chain@)),
{
    let ghost ev = pdu_views(events@);
    let ghost ch = pdu_views(chain@);
    let mut i: usize = 0;
    while i < events.len()
        invariant
            0 <= i <= events.len(),
            ev == pdu_views(events@),
            ch == pdu_views(chain@),
            forall|a: int, b: int|
                0 <= a < i && 0 <= b < ev[a].auth_events.len() ==> chain_has(
                    ch,
                    #[trigger] ev[a].auth_events[b],
                ),
        decreases events.len() - i,
    {
        let refs = &events[i].auth_events;
        assert(ev[i as int].auth_events == tags(refs@));
        let mut j: usize = 0;
        while j < refs.len()
            invariant
                0 <= i < events.len(),
                0 <= j <= refs.len(),
                ev == pdu_views(events@),
                ch == pdu_views(chain@),
                ev[i as int].auth_events == tags(refs@),
                forall|b: int| 0 <= b < j ==> chain_has(ch, #[trigger] ev[i as int].auth_events[b]),
            decreases refs.len() - j,
        {
            if !chain_contains(chain, &refs[j]) {
                assert(!chain_has(ch, ev[i as int].auth_events[j as int]));
                return false;
            }
            j += 1;
        }
        i += 1;
    }
    true
}

/// Whether `chain` is a complete authorization chain for `state`.
pub fn is_complete(state: &Vec<Pdu>, chain: &Vec<Pdu>) -> (ok: bool)
    ensures
        ok == complete(pdu_views(state@), pdu_views(chain@)),
{
    references_resolve(state, chain) && references_resolve(chain, chain)
}

/// Whether `pdu` is a membership event by which its sender joins.
pub fn is_join_event(pdu: &Pdu) -> (ok: bool)
    ensures
        ok == is_join_pdu(pdu@),
{
    let joins = match &pdu.content {
        Some(c) => c.membership == "join".to_string(),
        None => false,
    };
    joins && pdu.event_type == "m.room.member".to_string() && pdu.state_key == pdu.sender
}

impl RoomState {
    /// Whether the answer can be checked on its own: no event of it lists
    /// an authorization event that the chain lacks.
    pub open spec fn is_closed(self) -> bool {
        complete(self@.state, self@.auth_chain)
    }

    /// Checks an answer on the receiving side. An answer whose chain lacks
    /// an event that it refers to is refused with `AuthChainUnavailable`.
    pub fn check_complete(&self) -> (r: Result<(), JoinError>)
        ensures
            r is Ok <==> self.is_closed(),
            r is Err ==> r->Err_0 == JoinError::AuthChainUnavailable,
    {
        if is_complete(&self.state, &self.auth_chain) {
            Ok(())
        } else {
            Err(JoinError::AuthChainUnavailable)
        }
    }
}

/// Answers a signed join event sent to `room`, as the resident server.
///
/// `verified` is the outcome of the signature check on `pdu`, `may_join`
/// that of the room's authorization rules on the join, `snapshot` is what
/// storage holds of the room, and `disclose_origin` says whether the
/// answer names this server. The room that the PDU names is looked at
/// first: a PDU for another room is a mismatch whatever else is wrong.
/// Nothing is written anywhere: the answer is made from the arguments
/// alone. A chain that is missing or incomplete is never passed on.
pub fn accept_join(
    server: &ResidentServer,
    room: &RoomIdentifier,
    pdu: &Pdu,
    verified: bool,
    may_join: bool,
    snapshot: RoomSnapshot,
    disclose_origin: bool,
) -> (r: Result<RoomState, JoinError>)
    ensures
        outcome(r) == accept_outcome(
            server.origin@,
            tags(server.versions@),
            room@,
            pdu@,
            verified,
            may_join,
            pdu_views(snapshot.state@),
            chain_view(snapshot.auth_chain),
            disclose_origin,
        ),
        r is Ok ==> r->Ok_0.is_closed(),
        pdu.room_id@ != room@ ==> r is Err && r->Err_0 == JoinError::RoomMismatch,
{
    if !room.is_text(&pdu.room_id) {
        return Err(JoinError::RoomMismatch);
    }
    if !contains_version(&server.versions, &pdu.room_version) {
        let mut offered: Vec<String> = Vec::new();
        offered.push(pdu.room_version.clone());
        assert(tags(offered@) =~= seq![pdu.room_version@]);
        return Err(
            JoinError::UnsupportedRoomVersion { offered, supported: server.versions.clone() },
        );
    }
    if !is_join_event(pdu) {
        return Err(JoinError::MalformedPdu);
    }
    if !verified || !may_join {
        return Err(JoinError::Unauthorized);
    }
    let RoomSnapshot { state, auth_chain } = snapshot;
    match auth_chain {
        None => Err(JoinError::AuthChainUnavailable),
        Some(chain) => {
            if !is_complete(&state, &chain) {
                return Err(JoinError::AuthChainUnavailable);
            }
            let origin = if disclose_origin {
                Some(server.origin.clone())
            } else {
                None
            };
            Ok(RoomState { origin, auth_chain: chain, state })
        },
    }
}

/// In a complete answer no reference dangles: whatever is reached from the
/// events of the state and of the chain by following authorization
/// references, over any number of events, is an event of the chain.
pub proof fn lemma_complete_chain_has_all_reachable(
    state: Seq<PduView>,
    chain: Seq<PduView>,
    path: Seq<Seq<char>>,
    k: int,
)
    requires
        complete(state, chain),
        is_reference_path(state + chain, path),
        0 <= k < path.len(),
    ensures
        chain_has(chain, path[k]),
{
    let events = state + chain;
    if k == 0 {
        let (i, j) = choose|i: int, j: int|
            0 <= i < events.len() && 0 <= j < events[i].auth_events.len()
                && #[trigger] events[i].auth_events[j] == path[0];
        lemma_listed_is_in_chain(state, chain, i, j);
    } else {
        assert(listed_by_event(events, path[k - 1], path[k]));
        let (i, j) = choose|i: int, j: int|
            0 <= i < events.len() && 0 <= j < events[i].auth_events.len() && events[i].event_id
                == path[k - 1] && #[trigger] events[i].auth_events[j] == path[k];
        lemma_listed_is_in_chain(state, chain, i, j);
    }
}

/// In a complete answer, each reference of each event is in the chain.
proof fn lemma_listed_is_in_chain(state: Seq<PduView>, chain: Seq<PduView>, i: int, j: int)
    requires
        complete(state, chain),
        0 <= i < (state + chain).len(),
        0 <= j < (state + chain)[i].auth_events.len(),
    ensures
        chain_has(chain, (state + chain)[i].auth_events[j]),
{
    if i < state.len() {
        assert((state + chain)[i] == state[i]);
        assert(chain_has(chain, state[i].auth_events[j]));
    } else {
        let k = i - state.len();
        assert((state + chain)[i] == chain[k]);
        assert(chain_has(chain, chain[k].auth_events[j]));
    }
}

/// A 53-bit bound: the largest integer that the answer's number may be.
pub open spec fn max_safe_number() -> u64 {
    0x001F_FFFF_FFFF_FFFF
}

/// Calls `UInt::new` on `value` and reports whether it returned `Some`.
/// Trusted: `js_int` documents that it does so exactly for the values up
/// to `MAX_SAFE_UINT`, which is 2^53 - 1.
#[verifier::external_body]
fn fits_uint(value: u64) -> (ok: bool)
    ensures
        ok == (value <= max_safe_number()),
{
    UInt::new(value).is_some()
}

/// The body of the answer to a join event.
#[derive(Clone, Debug, PartialEq, Eq)]
pub struct JoinResponse {
    /// A number that the protocol sends along without saying what it is
    /// for. It is passed through as it came.
    pub some_number: u64,
    /// The room state and authorization chain.
    pub state: RoomState,
}

impl JoinResponse {
    /// The number is one that the wire format can carry exactly.
    pub open spec fn well_formed(self) -> bool {
        self.some_number <= max_safe_number()
    }

    /// Puts an answer together. There is none for a number that the wire
    /// format cannot carry exactly.
    pub fn new(some_number: u64, state: RoomState) -> (r: Option<JoinResponse>)
        ensures
            r is Some <==> some_number <= max_safe_number(),
            r is Some ==> r->Some_0.some_number == some_number && r->Some_0.state == state
                && r->Some_0.well_formed(),
    {
        if fits_uint(some_number) {
            Some(JoinResponse { some_number, state })
        } else {
            None
        }
    }
}

} // verus!
