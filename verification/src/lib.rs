//! Verified control and format logic of the Phaselith audio enhancement system.
pub mod format_negotiate;
pub mod config;
pub mod frame;
pub mod module;
pub mod constants;
pub mod object_model;
pub mod plugin_interface;
pub mod properties;
pub mod orchestrator;
pub mod apo_control;
pub mod audio_dump;
pub mod io_engine;
pub mod guid;
pub mod apo_com;
