//! NATLaB BUILDR26 core library: module registry, build overseer, admin
//! audit trail, runtime mesh monitor and platform integrations, with the
//! request handling rules of the desktop commands.

pub mod fixed;
pub mod text;
pub mod clock;
pub mod history;
pub mod overseer;
pub mod admin_audit;
pub mod core_engine;
pub mod commands;
