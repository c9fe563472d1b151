//! A weather station on a four-level electrophoretic display panel.
//!
//! The panel driver is the core: command encoding ([`command`]), bit-plane
//! encoding ([`bitplane`]), the power/update state machine ([`panel`]) and the
//! busy-line wait policy ([`busy`]). Each driver operation returns the exact
//! sequence of bus operations ([`bus`]) that a transport must carry out; the
//! transport itself is not part of this crate. The remaining modules hold the
//! decisions behind the weather screen: condition codes, icons and forecasts
//! ([`weather`]) and the colouring of the radar map ([`radar`]).
pub mod bitplane;
pub mod bus;
pub mod busy;
pub mod command;
pub mod panel;
pub mod radar;
pub mod weather;
