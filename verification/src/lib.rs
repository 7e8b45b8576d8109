//! A host that embeds a script engine: the permission-prompt protocol, the
//! execution-harness decisions, and the native-extension registry, with their
//! contracts proved. The engine itself, the terminal, and the process
//! environment stay outside; a driver hands this library plain values and
//! carries its answers back out.

pub mod extensions;
pub mod harness;
pub mod prompt;
pub mod text;
