//! The decisions of a status bar's compositor client.

pub mod address;
pub mod button;
pub mod client;
pub mod compositor;
pub mod config;
pub mod events;
pub mod history;
pub mod input;
pub mod ipc;
pub mod laws;
pub mod lookup;
pub mod search;
pub mod snapshot;
pub mod subscription;
pub mod text;
pub mod workspace;
