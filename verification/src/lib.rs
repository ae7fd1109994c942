//! A record-management service for teams, coaches, stadiums and matches:
//! create, look up, update and delete by identifier, with one sequence of
//! identifiers shared by all kinds and required-field validation.
//!
//! - [`state`] holds the service as one owned value; [`handlers`] are the
//!   operations on it.
//! - [`counter`] issues identifiers; [`store`] keeps the records of one kind.
//! - [`team`], [`coach`], [`stadium`] and [`fixture`] define the records and
//!   their payloads; [`record`] says how a record is laid out for storage.
//! - [`model`] and [`history`] say what the operations do, [`laws`] what
//!   follows from that.
//! - [`stable`] is the boundary to `ic_stable_structures`, which keeps the
//!   counter and the tables.

pub mod coach;
pub mod counter;
pub mod error;
pub mod fixture;
pub mod handlers;
pub mod history;
pub mod laws;
pub mod model;
pub mod record;
pub mod stable;
pub mod stadium;
pub mod state;
pub mod store;
pub mod team;
pub mod text;
