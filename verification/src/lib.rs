//! Decision logic of a daemon that keeps a VPN tunnel down on the home
//! wireless network and up everywhere else.
//!
//! The crate performs no I/O. A driver subscribes to the connection
//! manager's state changes, runs the commands this crate asks for, and hands
//! every result back; what to do next is decided here.

pub mod config;
pub mod controller;
pub mod failure;
pub mod gateway;
pub mod laws;
pub mod model;
pub mod monitor;
pub mod policy;
pub mod resolver;
pub mod step;
pub mod text;
