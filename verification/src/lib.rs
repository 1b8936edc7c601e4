//! Adapter for a proprietary wireless positioning service ("WPS").
//!
//! The library translates generic network observations (Wi-Fi access
//! points, cell towers) into the upstream's typed request schema, frames
//! the serialized payload in the upstream's binary envelope, reduces a
//! decoded response to a single estimated position, and decides the
//! fallback order between the network attempt, the IP-based coarse
//! estimate, and the not-found outcome.
//!
//! All coordinates are handled as fixed-point integers scaled by
//! 1e-8 degrees per unit, the representation the wire format itself uses.

pub mod apple_wps;
pub mod arith;
pub mod coordinator;
pub mod envelope;
pub mod estimator;
pub mod mls;
