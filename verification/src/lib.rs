//! Server-authoritative movement validation.
//!
//! This crate validates client-reported movement against the server's
//! authoritative view of the world. Each decoded movement packet is
//! normalized into a canonical record, gated against pending teleport
//! corrections, checked by a set of plausibility heuristics (spoofed ground
//! contact, flight, sustained and instantaneous overspeed), and finally
//! committed to the entity's authoritative pose, producing a movement event
//! for downstream listeners.
//!
//! All linear quantities are exact integers in units of a thousandth of a
//! world block ("milli-blocks"); look angles are integers in thousandths of
//! a degree. Callers that hold positions as doubles convert at the boundary.

pub mod commit;
pub mod direction;
pub mod gate;
pub mod history;
pub mod laws;
pub mod packet;
pub mod pipeline;
pub mod pose;
pub mod units;
pub mod validate;
