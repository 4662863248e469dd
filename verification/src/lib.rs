//! Verified core of the learsim glass cockpit displays: the per-screen
//! configuration model, the glassout viewer URL builder, the view catalogue,
//! the control-API state changes, the native client's frame parsing and the
//! admin app's device store.
pub mod text;
pub mod json;
pub mod glassout;
pub mod config;
pub mod views;
pub mod native_views;
pub mod control;
pub mod reconcile;
pub mod windows;
pub mod frames;
pub mod session;
pub mod screen_view;
pub mod display;
pub mod devices;
pub mod admin;
