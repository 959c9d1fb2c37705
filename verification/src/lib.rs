//! Verified core of the secure sandbox server: the decisions and encodings
//! that the server's adapters rely on (input mapping, sandbox policy,
//! wire framing, persistence encodings and request checks).

pub mod text;
pub mod keys;
pub mod seccomp;
pub mod framing;
pub mod hex;
pub mod records;
pub mod auth;
pub mod sandbox;
pub mod xinput;
pub mod apps;
pub mod landlock_calls;
pub mod sandbox_fs;
pub mod framebuffer;
pub mod wasm_host;
pub mod signaling;
pub mod app_config;
pub mod protocol;
pub mod challenges;
pub mod control;
