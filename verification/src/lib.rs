//! The core of an OpenXR runtime that hands its work to a Stardust XR server.
//!
//! Every rule of the runtime is here, as functions on plain values with contracts that Verus
//! proves: the table of handles (`registry`), the addresses of the server's nodes
//! (`address`), the two-call protocol for results of variable length (`util`), the lookup of
//! entry points by name (`proc_addr`, `loader`), the names of result codes and structure
//! types (`names`), and what is sent to the server and made of its answers (`rpc`,
//! `instance`, `session`, `input`, `system`, `paths`).
//!
//! Nothing here talks to the server or reads raw memory. A function whose work needs a
//! message to the server answers with the message to send; the caller sends it and comes
//! back with what happened.
#![allow(non_snake_case)]

pub mod address;
pub mod error;
pub mod extensions;
pub mod input;
pub mod instance;
pub mod loader;
pub mod names;
pub mod paths;
pub mod proc_addr;
pub mod registry;
pub mod rpc;
pub mod runtime;
pub mod session;
pub mod system;
pub mod text;
pub mod util;
pub mod version;
