//! Core of an image asset service: format detection, asset naming and
//! storage planning, image geometry, and the request state machine that a
//! host drives by performing the I/O it is asked for.

pub mod error;
pub mod format;
pub mod geometry;
pub mod handlers;
pub mod host;
pub mod picture;
pub mod protocol;
pub mod state;
pub mod store;
pub mod text;
