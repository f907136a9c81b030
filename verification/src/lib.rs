//! A verified core of a Python virtual machine.
pub mod attributes;
pub mod calls;
pub mod compare;
pub mod compile;
pub mod context;
pub mod convert;
pub mod errors;
pub mod failure;
pub mod frames;
pub mod guard;
pub mod laws;
pub mod lifecycle;
pub mod machine;
pub mod modules;
pub mod object;
pub mod operators;
pub mod protocol;
pub mod resume;
pub mod runs;
pub mod settings;
pub mod thread;
