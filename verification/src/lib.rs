//! A verified core for driving Firecracker microVMs: request framing, jailer
//! path layout, configuration checks, handler lists and microVM status rules.
#![allow(unused_imports)]

pub mod agent;
pub mod command_builder;
pub mod client;
pub mod config;
pub mod database;
pub mod error;
pub mod exchange;
pub mod firecracker;
pub mod handler;
pub mod http;
pub mod hypervisor;
pub mod jailer;
pub mod jailer_command;
pub mod launch;
pub mod machine;
pub mod microvm;
pub mod network;
pub mod options;
pub mod paths;
pub mod pool;
pub mod text;

pub use error::{handle_entry, handle_entry_default, handle_entry_ref, RtckError, RtckErrorKind};
