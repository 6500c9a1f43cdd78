//! Verified core of the Wayvern compositor: the decisions, bookkeeping and
//! message formats of a Wayland compositor whose user interface is drawn by the
//! Flutter engine.

pub mod backend_config;
pub mod common;
pub mod embedder;
pub mod encodable_value;
pub mod flutter_engine;
pub mod input_handling;
pub mod mouse_button_tracker;
pub mod platform_channels;
pub mod platform_message_handler;
pub mod task_runner;
pub mod wayland_messages;
