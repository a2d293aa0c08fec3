//! The ways a join attempt can fail.

use crate::version::tags;
use vstd::prelude::*;

verus! {

/// A failure of one step of the join handshake.
#[derive(Debug, Clone, PartialEq, Eq)]
pub enum JoinError {
    /// The room or the user is unknown to the resident server.
    NotFound,
    /// The join is not permitted, or the event's signature does not check.
    Unauthorized,
    /// No room version is common to both sides. `offered` is what the
    /// requester asked for (after defaulting), `supported` is what this
    /// server could have used.
    UnsupportedRoomVersion { offered: Vec<String>, supported: Vec<String> },
    /// An identifier does not follow its grammar, or a field is missing.
    MalformedRequest,
    /// The PDU is not a well-formed self-join membership event.
    MalformedPdu,
    /// The PDU names another room than the one it was sent to.
    RoomMismatch,
    /// The signer did not produce a signature.
    SigningFailed,
    /// No complete authorization chain could be put together.
    AuthChainUnavailable,
}

/// A `JoinError` with its lists of versions as sequences of tags.
pub ghost enum JoinErrorView {
    NotFound,
    Unauthorized,
    UnsupportedRoomVersion { offered: Seq<Seq<char>>, supported: Seq<Seq<char>> },
    MalformedRequest,
    MalformedPdu,
    RoomMismatch,
    SigningFailed,
    AuthChainUnavailable,
}

impl View for JoinError {
    type V = JoinErrorView;

    open spec fn view(&self) -> JoinErrorView {
        match *self {
            JoinError::NotFound => JoinErrorView::NotFound,
            JoinError::Unauthorized => JoinErrorView::Unauthorized,
            JoinError::UnsupportedRoomVersion { offered, supported } => {
                JoinErrorView::UnsupportedRoomVersion {
                    offered: tags(offered@),
                    supported: tags(supported@),
                }
            },
            JoinError::MalformedRequest => JoinErrorView::MalformedRequest,
            JoinError::MalformedPdu => JoinErrorView::MalformedPdu,
            JoinError::RoomMismatch => JoinErrorView::RoomMismatch,
            JoinError::SigningFailed => JoinErrorView::SigningFailed,
            JoinError::AuthChainUnavailable => JoinErrorView::AuthChainUnavailable,
        }
    }
}

/// The outcome of a step, with its value or its error as plain values.
pub open spec fn outcome<T: View>(r: Result<T, JoinError>) -> Result<T::V, JoinErrorView> {
    match r {
        Ok(value) => Ok(value@),
        Err(e) => Err(e@),
    }
}

impl JoinError {
    /// The stable machine-readable code of each error kind.
    pub open spec fn spec_code(self) -> Seq<char> {
        match self {
            JoinError::NotFound => "M_NOT_FOUND"@,
            JoinError::Unauthorized => "M_FORBIDDEN"@,
            JoinError::UnsupportedRoomVersion { .. } => "M_INCOMPATIBLE_ROOM_VERSION"@,
            JoinError::MalformedRequest => "M_INVALID_PARAM"@,
            JoinError::MalformedPdu => "M_BAD_JSON"@,
            JoinError::RoomMismatch => "M_ROOM_MISMATCH"@,
            JoinError::SigningFailed => "M_SIGNING_FAILED"@,
            JoinError::AuthChainUnavailable => "M_AUTH_CHAIN_UNAVAILABLE"@,
        }
    }

    /// Whether two errors are of one kind, whatever they carry.
    pub open spec fn same_kind(self, other: JoinError) -> bool {
        match (self, other) {
            (JoinError::NotFound, JoinError::NotFound) => true,
            (JoinError::Unauthorized, JoinError::Unauthorized) => true,
            (
                JoinError::UnsupportedRoomVersion { .. },
                JoinError::UnsupportedRoomVersion { .. },
            ) => true,
            (JoinError::MalformedRequest, JoinError::MalformedRequest) => true,
            (JoinError::MalformedPdu, JoinError::MalformedPdu) => true,
            (JoinError::RoomMismatch, JoinError::RoomMismatch) => true,
            (JoinError::SigningFailed, JoinError::SigningFailed) => true,
            (JoinError::AuthChainUnavailable, JoinError::AuthChainUnavailable) => true,
            _ => false,
        }
    }

    /// The code under which this error is reported on the wire.
    pub fn code(&self) -> (c: &'static str)
        ensures
            c@ == self.spec_code(),
    {
        match self {
            JoinError::NotFound => "M_NOT_FOUND",
            JoinError::Unauthorized => "M_FORBIDDEN",
            JoinError::UnsupportedRoomVersion { .. } => "M_INCOMPATIBLE_ROOM_VERSION",
            JoinError::MalformedRequest => "M_INVALID_PARAM",
            JoinError::MalformedPdu => "M_BAD_JSON",
            JoinError::RoomMismatch => "M_ROOM_MISMATCH",
            JoinError::SigningFailed => "M_SIGNING_FAILED",
            JoinError::AuthChainUnavailable => "M_AUTH_CHAIN_UNAVAILABLE",
        }
    }
}

/// The code tells the kind: two errors have the same code exactly when
/// they are of the same kind.
pub proof fn lemma_code_tells_kind(a: JoinError, b: JoinError)
    ensures
        a.spec_code() == b.spec_code() <==> a.same_kind(b),
{
    reveal_strlit("M_NOT_FOUND");
    reveal_strlit("M_FORBIDDEN");
    reveal_strlit("M_INCOMPATIBLE_ROOM_VERSION");
    reveal_strlit("M_INVALID_PARAM");
    reveal_strlit("M_BAD_JSON");
    reveal_strlit("M_ROOM_MISMATCH");
    reveal_strlit("M_SIGNING_FAILED");
    reveal_strlit("M_AUTH_CHAIN_UNAVAILABLE");
    if a.spec_code() == b.spec_code() {
        assert(a.spec_code().len() == b.spec_code().len());
        assert(a.spec_code()[2] == b.spec_code()[2]);
    }
}

} // verus!
