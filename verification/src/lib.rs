//! Device-side core of a controller for heterogeneous actuator hardware:
//! command expansion, connection gating, event fan-out, request/response
//! correlation, cached feature state and a two-motor write encoder.

pub mod message;
pub mod error;
pub mod command;
pub mod state;
pub mod gate;
pub mod correlator;
pub mod event;
pub mod protocol;
pub mod jejoue;
pub mod device;
