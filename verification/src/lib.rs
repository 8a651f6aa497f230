//! Error handling for ReadySet, and the decisions of the views synchronizer.

pub mod conversions;
pub mod display;
pub mod errors;
pub mod external;
pub mod laws;
pub mod text;
pub mod views_synchronizer;
