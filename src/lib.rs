//! Hot corner detection: the geometry of the corner, the edge detector that
//! watches pointer movement, and the worker that confirms a dwell and fires a
//! fixed keyboard chord.

pub mod region;
pub mod keys;
pub mod detector;
pub mod worker;
pub mod system;
pub mod exit;
