//! A verified core for a publish-subscribe inspector: the command and event
//! protocol between a user interface and a broker bridge, the decisions the
//! bridge takes on each broker outcome, and the interface state that reacts
//! to the bridge's events.

pub mod actions;
pub mod app;
pub mod backend;
pub mod cancellation;
pub mod column_settings;
pub mod exit_state;
pub mod message;
pub mod model;
pub mod settings;
pub mod string_map;
pub mod text;
pub mod ui;
