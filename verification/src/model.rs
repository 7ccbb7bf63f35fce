//! The data model shared by the repositories, the handlers and the relay.

use vstd::prelude::*;

verus! {

/// How a service is delivered.
#[derive(Clone, Copy, Debug, PartialEq, Eq, Structural)]
pub enum Modality {
    Domicilio,
    Presencial,
    Hibrido,
}

/// What a user may do.
#[derive(Clone, Copy, Debug, PartialEq, Eq, Structural)]
pub enum Roles {
    Admin,
    User,
}

/// A category as a client submits it.
#[derive(Clone, Debug, PartialEq, Eq)]
pub struct Category {
    pub name: String,
}

/// A category as it is stored.
#[derive(Clone, Debug, PartialEq, Eq)]
pub struct CategoryResponse {
    pub id: i64,
    pub name: String,
}

/// A comment of one user on another, as a client submits it.
#[derive(Clone, Debug, PartialEq, Eq)]
pub struct Comment {
    pub commentator: String,
    pub commented: String,
    pub comment: String,
}

/// One position report of a user, as the live relay carries it.
///
/// The relay never computes with the coordinates; it hands them on
/// unchanged. Each is held as the bit pattern of the single-precision value
/// that came over the wire, so that nothing is lost on the way to the
/// persistence collaborator.
#[derive(Clone, Debug, PartialEq, Eq)]
pub struct UserLocation {
    /// Identifier of the user whose position this is.
    pub dni: String,
    /// Bits of the latitude.
    pub latitude: u32,
    /// Bits of the longitude.
    pub longitude: u32,
}

} // verus!
