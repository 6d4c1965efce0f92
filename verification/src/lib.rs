//! Verified core logic of Streamduck, a manager for stream-deck style button devices.

pub mod text;
pub mod features;
pub mod keyed;
pub mod ui;
pub mod button;
pub mod render;
pub mod modules;
pub mod panel;
pub mod config;
pub mod sdcore;
pub mod commands;
pub mod help;
pub mod table;
pub mod keys;
pub mod key_sequence;
pub mod run_command;
pub mod parse;
pub mod data;
pub mod device;
pub mod devices;
pub mod folders;
pub mod core_module;
pub mod localization;
pub mod events;
pub mod plugins;
pub mod device_thread;
pub mod prompt;
pub mod manager;
pub mod params;
pub mod settings;
pub mod autoconnect;
