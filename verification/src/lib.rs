//! A minimal greeting library: a pure formatter that builds `"Hello {name}!"`,
//! and a host bridge that resolves an optional name to a default and hands the
//! greeting to a host-supplied display capability exactly once.

pub mod greeting;
pub mod host;
