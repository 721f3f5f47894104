//! Startup core of a chat-bot client: configuration assembly, the shared
//! state populated at startup, command resolution and the startup sequence.

pub mod config;
pub mod dispatch;
pub mod handler;
pub mod permissions;
pub mod startup;
pub mod store;
pub mod text;
