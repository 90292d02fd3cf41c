//! Request handling for a sticky-note ("fusen") RPC service.
//!
//! The controller takes a wire request, hands its fields to one of three
//! use-case ports and turns what the port gives back into a wire response or
//! an RPC status.

pub mod entity;
pub mod peta_fusen_v1;
pub mod port;
pub mod status;
pub mod controller;
