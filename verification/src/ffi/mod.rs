//! Values shared with the native bridge.
pub mod status;
