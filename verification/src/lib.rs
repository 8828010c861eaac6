//! Declarative single-container development-sandbox lifecycle manager.
//!
//! The library holds the decision core of the tool: descriptor validation,
//! runtime discovery, GUI passthrough argument assembly, and the container
//! lifecycle state machine. Every operation against the container runtime is
//! expressed as an [`lifecycle::Action`] that a thin driver performs, feeding
//! the observed result back in as an [`lifecycle::Event`]; the machine itself
//! never touches the host.

pub mod config;
pub mod container;
pub mod errors;
pub mod gui;
pub mod host;
pub mod lifecycle;
pub mod runtime;
pub mod temp_script;
