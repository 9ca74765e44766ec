//! A record-management service for vessels and the voyages sailed against
//! them: create/read/update/delete operations guarded by payload validation
//! and ownership checks, with referential integrity kept between the two
//! collections.
//!
//! The host environment supplies the identity of the calling principal and
//! the current timestamp to every operation; the [`registry::Registry`]
//! owns both entity collections and both id counters.

pub mod helpers;
pub mod laws;
pub mod registry;
pub mod text;
pub mod types;

pub use helpers::{
    is_caller_vessel_admin, is_caller_voyage_admin, is_invalid_string_input,
    validate_vessel_payload, validate_voyage_payload,
};
pub use registry::Registry;
pub use types::{Error, Vessel, VesselPayload, Voyage, VoyagePayload};
