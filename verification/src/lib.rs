//! The node of an inter-process communication fabric: its identity, its
//! registration layout, how peers classify and reap it, and the services a
//! process holds open through it.

pub mod backend;
pub mod builder;
pub mod cleanup;
pub mod decimal;
pub mod details;
pub mod failure;
pub mod file_name;
pub mod listing;
pub mod node;
pub mod node_id;
pub mod node_state;
pub mod registered_services;
