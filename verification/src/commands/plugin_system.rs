//! Plugin system commands: installed plugins and their lifecycle.

use vstd::prelude::*;

verus! {

#[derive(Debug, Clone, Copy, PartialEq, Eq, Structural)]
pub enum PluginStatus {
    Available,
    Loaded,
    Error,
    Disabled,
}

/// What a plugin declares about itself.
#[derive(Debug, Clone)]
pub struct PluginManifest {
    pub id: String,
    pub name: String,
    pub version: String,
    pub author: String,
    pub description: String,
    pub entry_point: String,
    pub permissions: Vec<String>,
    pub min_natlab_version: String,
    pub checksum_sha256: String,
}

/// An installed plugin.
#[derive(Debug, Clone)]
pub struct PluginInfo {
    pub manifest: PluginManifest,
    pub status: PluginStatus,
    pub loaded_at: Option<String>,
    pub sandbox_id: Option<String>,
}

/// The installed plugins: none yet.
pub fn plugin_list() -> (r: Result<Vec<PluginInfo>, String>)
    ensures
        r matches Ok(v) && v@.len() == 0,
{
    Ok(Vec::new())
}

/// Installs a plugin from its manifest. An empty path is refused;
/// installation itself is not available, so any other request is answered
/// with that error.
pub fn plugin_install(manifest_path: String) -> (r: Result<PluginInfo, String>)
    ensures
        r matches Err(e) && e@ == (
            if manifest_path@.len() == 0 {
                "Manifest path cannot be empty"@
            } else {
                "Plugin installation not yet implemented"@
            }
        ),
{
    if manifest_path.as_str().is_empty() {
        return Err(String::from_str("Manifest path cannot be empty"));
    }
    Err(String::from_str("Plugin installation not yet implemented"))
}

/// The answer to a lifecycle request on a plugin: an empty id is refused.
pub open spec fn plugin_request_ok(plugin_id: Seq<char>, r: Result<(), String>) -> bool {
    &&& plugin_id.len() == 0 ==> (r matches Err(e) && e@ == "Plugin ID cannot be empty"@)
    &&& plugin_id.len() > 0 ==> r is Ok
}

/// Enables a previously disabled plugin.
pub fn plugin_enable(plugin_id: String) -> (r: Result<(), String>)
    ensures
        plugin_request_ok(plugin_id@, r),
{
    if plugin_id.as_str().is_empty() {
        return Err(String::from_str("Plugin ID cannot be empty"));
    }
    Ok(())
}

/// Disables (but does not uninstall) a plugin.
pub fn plugin_disable(plugin_id: String) -> (r: Result<(), String>)
    ensures
        plugin_request_ok(plugin_id@, r),
{
    if plugin_id.as_str().is_empty() {
        return Err(String::from_str("Plugin ID cannot be empty"));
    }
    Ok(())
}

/// Uninstalls a plugin and removes its sandbox.
pub fn plugin_uninstall(plugin_id: String) -> (r: Result<(), String>)
    ensures
        plugin_request_ok(plugin_id@, r),
{
    if plugin_id.as_str().is_empty() {
        return Err(String::from_str("Plugin ID cannot be empty"));
    }
    Ok(())
}

} // verus!
