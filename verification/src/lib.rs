//! The join handshake between two federated homeservers.
//!
//! A resident server issues an unsigned membership template for a joining
//! user, the joining server signs it into a persistent data unit (PDU), and
//! the resident server answers with the room state and the authorization
//! chain that lets the joining server check the join on its own.
//!
//! Signing, signature checks, storage and the permission rules are done by
//! the caller; their outcomes are handed to the functions here as plain
//! values.

pub mod error;
pub mod handshake;
pub mod ident;
pub mod pdu;
pub mod state;
pub mod template;
pub mod version;

pub use error::JoinError;
pub use handshake::{JoinEvent, JoinPhase};
pub use ident::{RoomIdentifier, UserIdentifier};
pub use pdu::{submit_join, Pdu, SignedEvent};
pub use state::{accept_join, JoinResponse, RoomSnapshot, RoomState};
pub use template::{build_template, check_template, EventTemplate, JoinTemplate, MembershipEventContent, ResidentServer};
pub use version::{contains_version, default_versions, normalize_versions, select_version};
