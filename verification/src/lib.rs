//! Capability contexts for audio plugins that run unchanged as a CLAP plugin,
//! as a VST3 plugin or as a standalone application.
//!
//! The code that receives the host's calls under one protocol, the wrapper,
//! makes a context for each callback and lends it to the plugin. Each kind of
//! callback has a context type of its own, which offers what may be done in
//! that phase and nothing else. What the plugin asks of the host through a
//! context is recorded as plain data; the wrapper takes it when the callback
//! has returned and forwards it to the host.

pub mod context;
