//! Guest-side bootstrap of a microVM agent.
//!
//! The agent brings the guest's network up from fixed addressing and then
//! offers a control channel to the host. Everything the agent decides is a
//! pure transition function, [`machine::Agent::step`]: it takes the report
//! of how the last operation went and answers with the next one to
//! perform. The caller owns the sockets and performs the operations.
//!
//! - [`config`], [`addr`], [`model`], [`vsock`]: the values the agent works
//!   with.
//! - [`resolver`]: picking the interface from the kernel's links.
//! - [`machine`]: the agent itself.
//! - [`trace`]: what holds of every run of the agent, whatever it is told.
//! - [`environment`]: a model of the kernel and the host channel, and what
//!   a boot leaves behind in it.

pub mod addr;
pub mod error;
pub mod model;
pub mod vsock;
pub mod config;
pub mod resolver;
pub mod machine;
pub mod trace;
pub mod environment;
