//! Selection of the airport weather reports that matter to the traffic
//! flying to or from one airspace region.
//!
//! The crate holds the rules only: the frame of the two feeds, the
//! association of traffic with airports, the selection of reports and the
//! refresh cycle of the front end. Network access and floating-point
//! geometry are left to the caller, which hands their results in as plain
//! values.

pub mod model;
pub mod text;
pub mod error;
pub mod json;
pub mod weather;
pub mod traffic;
pub mod correlate;
pub mod cycle;
