//! Helpers of an SGX support library: byte-stream probes used to observe
//! how a copy loop sizes its buffers, and the configuration decisions of
//! the trusted-runtime build script.

pub mod build_config;
pub mod io_utils;
pub mod probes;
