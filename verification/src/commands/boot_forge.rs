//! BootForge commands: bootable media images and their verification.

use vstd::prelude::*;

verus! {

#[derive(Debug, Clone, Copy, PartialEq, Eq, Structural)]
pub enum MediaFormat {
    Iso,
    Usb,
    Pxe,
    Vhd,
}

/// A bootable media build job.
#[derive(Debug, Clone)]
pub struct BootForgeRequest {
    pub source_path: String,
    pub output_path: String,
    pub format: MediaFormat,
    pub label: String,
    pub compression: bool,
    pub verify_checksum: bool,
}

/// The outcome of a media build job.
#[derive(Debug, Clone)]
pub struct BootForgeResult {
    pub job_id: String,
    pub output_path: String,
    pub format: MediaFormat,
    pub size_bytes: u64,
    pub sha256: String,
    pub duration_ms: u64,
    pub success: bool,
    pub error: Option<String>,
}

/// Starts a bootable media build. The request is checked (source path,
/// output path, label, in that order); media creation itself is not
/// available, so a valid request is answered with that error too.
pub fn bootforge_create(request: &BootForgeRequest) -> (r: Result<BootForgeResult, String>)
    ensures
        r matches Err(e) && e@ == (
            if request.source_path@.len() == 0 {
                "Source path cannot be empty"@
            } else if request.output_path@.len() == 0 {
                "Output path cannot be empty"@
            } else if request.label@.len() == 0 {
                "Media label cannot be empty"@
            } else {
                "BootForge media creation is not yet implemented. This is a stub endpoint."@
            }
        ),
{
    if request.source_path.as_str().is_empty() {
        return Err(String::from_str("Source path cannot be empty"));
    }
    if request.output_path.as_str().is_empty() {
        return Err(String::from_str("Output path cannot be empty"));
    }
    if request.label.as_str().is_empty() {
        return Err(String::from_str("Media label cannot be empty"));
    }
    Err(String::from_str("BootForge media creation is not yet implemented. This is a stub endpoint."))
}

/// Verifies a bootable image. An empty path is refused; verification
/// itself is not available, so any other request is answered with that error.
pub fn bootforge_verify(image_path: String, expected_sha256: Option<String>) -> (r: Result<bool, String>)
    ensures
        r matches Err(e) && e@ == (
            if image_path@.len() == 0 {
                "Image path cannot be empty"@
            } else {
                "BootForge image verification is not yet implemented. This is a stub endpoint."@
            }
        ),
{
    if image_path.as_str().is_empty() {
        return Err(String::from_str("Image path cannot be empty"));
    }
    Err(String::from_str("BootForge image verification is not yet implemented. This is a stub endpoint."))
}

} // verus!
