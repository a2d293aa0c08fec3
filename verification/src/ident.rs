//! Room and user identifiers.
//!
//! An identifier is a sigil, a localpart, a colon and a server name. Whether
//! a text follows that grammar is decided by `ruma_identifiers`; a value of
//! one of the types here is a text that it accepted.

use crate::error::JoinError;
use ruma_identifiers::{RoomId, UserId};
use vstd::prelude::*;

verus! {

/// Whether `ruma_identifiers` accepts `text` as a room identifier.
pub uninterp spec fn room_id_accepted(text: Seq<char>) -> bool;

/// Whether `ruma_identifiers` accepts `text` as a user identifier.
pub uninterp spec fn user_id_accepted(text: Seq<char>) -> bool;

/// Calls `RoomId::try_from` on `text` and reports whether it returned `Ok`.
/// Trusted: the answer depends on the text alone, so it is given the name
/// `room_id_accepted`; nothing else is claimed of it.
#[verifier::external_body]
fn room_id_parses(text: &str) -> (ok: bool)
    ensures
        ok == room_id_accepted(text@),
{
    RoomId::try_from(text).is_ok()
}

/// Calls `UserId::try_from` on `text` and reports whether it returned `Ok`.
/// Trusted: the answer depends on the text alone, so it is given the name
/// `user_id_accepted`; nothing else is claimed of it.
#[verifier::external_body]
fn user_id_parses(text: &str) -> (ok: bool)
    ensures
        ok == user_id_accepted(text@),
{
    UserId::try_from(text).is_ok()
}

/// The identifier of a room, such as `!abc:example.org`.
#[derive(Debug)]
pub struct RoomIdentifier {
    text: String,
}

impl View for RoomIdentifier {
    type V = Seq<char>;

    closed spec fn view(&self) -> Seq<char> {
        self.text@
    }
}

impl Clone for RoomIdentifier {
    fn clone(&self) -> (copy: Self)
        ensures
            copy@ == self@,
    {
        proof {
            use_type_invariant(self);
        }
        RoomIdentifier { text: self.text.clone() }
    }
}

impl PartialEq for RoomIdentifier {
    fn eq(&self, other: &Self) -> (same: bool) {
        self.text == other.text
    }
}

impl Eq for RoomIdentifier {}

impl vstd::std_specs::cmp::PartialEqSpecImpl for RoomIdentifier {
    open spec fn obeys_eq_spec() -> bool {
        true
    }

    open spec fn eq_spec(&self, other: &Self) -> bool {
        self@ == other@
    }
}

impl RoomIdentifier {
    #[verifier::type_invariant]
    spec fn accepted(self) -> bool {
        room_id_accepted(self.text@)
    }

    /// Reads a room identifier. Fails with `MalformedRequest` exactly when
    /// the text does not follow the grammar of room identifiers.
    pub fn parse(text: &str) -> (r: Result<RoomIdentifier, JoinError>)
        ensures
            match r {
                Ok(id) => room_id_accepted(text@) && id@ == text@,
                Err(e) => !room_id_accepted(text@) && e == JoinError::MalformedRequest,
            },
    {
        if room_id_parses(text) {
            Ok(RoomIdentifier { text: text.to_owned() })
        } else {
            Err(JoinError::MalformedRequest)
        }
    }

    /// The identifier as text, which is one that the grammar accepts.
    pub fn as_str(&self) -> (s: &str)
        ensures
            s@ == self@,
            room_id_accepted(s@),
    {
        proof {
            use_type_invariant(self);
        }
        self.text.as_str()
    }

    /// Whether this identifier is the given text.
    pub fn is_text(&self, text: &String) -> (same: bool)
        ensures
            same == (self@ == text@),
    {
        self.text == *text
    }
}

/// The identifier of a user, such as `@alice:example.org`.
#[derive(Debug)]
pub struct UserIdentifier {
    text: String,
}

impl View for UserIdentifier {
    type V = Seq<char>;

    closed spec fn view(&self) -> Seq<char> {
        self.text@
    }
}

impl Clone for UserIdentifier {
    fn clone(&self) -> (copy: Self)
        ensures
            copy@ == self@,
    {
        proof {
            use_type_invariant(self);
        }
        UserIdentifier { text: self.text.clone() }
    }
}

impl PartialEq for UserIdentifier {
    fn eq(&self, other: &Self) -> (same: bool) {
        self.text == other.text
    }
}

impl Eq for UserIdentifier {}

impl vstd::std_specs::cmp::PartialEqSpecImpl for UserIdentifier {
    open spec fn obeys_eq_spec() -> bool {
        true
    }

    open spec fn eq_spec(&self, other: &Self) -> bool {
        self@ == other@
    }
}

impl UserIdentifier {
    #[verifier::type_invariant]
    spec fn accepted(self) -> bool {
        user_id_accepted(self.text@)
    }

    /// Reads a user identifier. Fails with `MalformedRequest` exactly when
    /// the text does not follow the grammar of user identifiers.
    pub fn parse(text: &str) -> (r: Result<UserIdentifier, JoinError>)
        ensures
            match r {
                Ok(id) => user_id_accepted(text@) && id@ == text@,
                Err(e) => !user_id_accepted(text@) && e == JoinError::MalformedRequest,
            },
    {
        if user_id_parses(text) {
            Ok(UserIdentifier { text: text.to_owned() })
        } else {
            Err(JoinError::MalformedRequest)
        }
    }

    /// The identifier as text, which is one that the grammar accepts.
    pub fn as_str(&self) -> (s: &str)
        ensures
            s@ == self@,
            user_id_accepted(s@),
    {
        proof {
            use_type_invariant(self);
        }
        self.text.as_str()
    }

    /// A copy of the identifier's text.
    pub fn to_text(&self) -> (s: String)
        ensures
            s@ == self@,
    {
        self.text.clone()
    }
}

} // verus!
