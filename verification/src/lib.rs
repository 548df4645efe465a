//! Decisions of an intercepting HTTP(S) and WebSocket proxy.
#![allow(unused_imports)]

pub mod body;
pub mod edit;
pub mod emulation;
pub mod exchange;
pub mod export;
pub mod flow;
pub mod headers;
pub mod json;
pub mod launch;
pub mod laws;
pub mod message;
pub mod relay;
pub mod response;
pub mod rules;
pub mod server;
pub mod state;
pub mod tables;
pub mod text;
pub mod traffic;
pub mod tunnel;
pub mod uri;
