//! `wt`: a walkie-talkie for agents on one machine or on several.

pub mod agents;
pub mod answer_laws;
pub mod auth;
pub mod bus;
pub mod bus_laws;
pub mod cli;
pub mod client_laws;
pub mod clock;
pub mod codec;
pub mod commands;
pub mod conns;
pub mod crypto;
pub mod daemon;
pub mod daemon_laws;
pub mod dispatch;
pub mod display;
pub mod display_laws;
pub mod framing;
pub mod harness;
pub mod instance;
pub mod ipc;
pub mod json;
pub mod lan;
pub mod lookup_laws;
pub mod node;
pub mod paths;
pub mod peer_laws;
pub mod peering;
pub mod prompt;
pub mod queries;
pub mod rows;
pub mod spawn_laws;
pub mod store;
pub mod store_laws;
pub mod supervisor;
pub mod table;
pub mod text;
pub mod ticket;
pub mod token;
pub mod web;
pub mod web_laws;
pub mod wire;
pub mod workspace;
