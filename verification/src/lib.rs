//! Boundary layer for driving an anonymity-network client and a local SOCKS
//! proxy from a flat, synchronous call surface.
//!
//! The host side of the boundary can only pass primitive values and block on
//! calls, so this crate holds the decision logic of each boundary operation:
//! input validation, the per-thread error channel, the lifecycle of the
//! client and proxy handles, and the resource-limit passthrough. The
//! asynchronous network work itself is performed by the caller between the
//! decision steps and reported back as plain outcome values.

pub mod error;
pub mod lifecycle;
pub mod scheduler;
pub mod text;
pub mod util;
