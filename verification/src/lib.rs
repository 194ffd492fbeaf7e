//! Search for CREATE2 salts that deploy a contract to an address with many
//! zero bytes.
//!
//! The crate states, and proves, the byte layout of the hashed message, the
//! zero-byte metrics of an address, the acceptance policy, the text of each
//! reported line and the host-side decisions of both search engines. Hashing,
//! hexadecimal conversion and random draws are done by outside crates, behind
//! a handful of trusted wrappers whose comments say what is taken on trust.

pub mod codec;
pub mod keccak;
pub mod text;
pub mod config;
pub mod reward;
pub mod report;
pub mod cpu_engine;
pub mod gpu_engine;
pub mod kernel;

pub use crate::config::Config;
pub use crate::cpu_engine::cpu;
pub use crate::gpu_engine::gpu;
pub use crate::reward::Reward;
