//! Request handling of the desktop commands: what each command checks in
//! its request, what it answers, and how it reaches the engines.

pub mod admin_cmds;
pub mod ai_assistant;
pub mod ai_logo_studio;
pub mod app_repair;
pub mod boot_forge;
pub mod cloud_sync;
pub mod core_cmds;
pub mod live_docs;
pub mod overseer_cmds;
pub mod plugin_system;
pub mod xplatform_forge;
