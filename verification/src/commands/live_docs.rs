//! Live docs commands: documentation generation and directory watchers.

use vstd::prelude::*;
use crate::clock::{new_id, start_timer, elapsed_millis, uuid_v4_text};

verus! {

#[derive(Debug, Clone, Copy, PartialEq, Eq, Structural)]
pub enum DocFormat {
    Markdown,
    Html,
    Pdf,
    Docx,
}

/// A documentation job.
#[derive(Debug, Clone)]
pub struct DocGenRequest {
    pub project_path: String,
    pub format: DocFormat,
    pub include_private: bool,
    pub include_examples: bool,
    pub output_path: String,
    pub template: Option<String>,
}

/// The outcome of a documentation job.
#[derive(Debug, Clone)]
pub struct DocGenResult {
    pub job_id: String,
    pub output_path: String,
    pub pages_generated: u32,
    pub symbols_documented: u32,
    pub duration_ms: u64,
    pub warnings: Vec<String>,
    pub success: bool,
}

/// Generates documentation for a project; an empty project path, then an
/// empty output path, is refused.
pub fn docs_generate(request: DocGenRequest) -> (r: Result<DocGenResult, String>)
    ensures
        request.project_path@.len() == 0 ==> (r matches Err(e) && e@ == "Project path cannot be empty"@),
        request.project_path@.len() > 0 && request.output_path@.len() == 0
            ==> (r matches Err(e) && e@ == "Output path cannot be empty"@),
        request.project_path@.len() > 0 && request.output_path@.len() > 0 ==> (r matches Ok(d) && {
            &&& uuid_v4_text(d.job_id@)
            &&& d.output_path@ == request.output_path@
            &&& d.pages_generated == 0
            &&& d.symbols_documented == 0
            &&& d.warnings@.len() == 0
            &&& d.success
        }),
{
    if request.project_path.as_str().is_empty() {
        return Err(String::from_str("Project path cannot be empty"));
    }
    if request.output_path.as_str().is_empty() {
        return Err(String::from_str("Output path cannot be empty"));
    }
    let start = start_timer();
    Ok(DocGenResult {
        job_id: new_id(),
        output_path: request.output_path,
        pages_generated: 0,
        symbols_documented: 0,
        duration_ms: elapsed_millis(&start),
        warnings: Vec::new(),
        success: true,
    })
}

/// Starts watching a project, answering with the watcher's id; an empty
/// project path is refused.
pub fn docs_watch_start(project_path: String, output_path: String) -> (r: Result<String, String>)
    ensures
        project_path@.len() == 0 ==> (r matches Err(e) && e@ == "Project path cannot be empty"@),
        project_path@.len() > 0 ==> (r matches Ok(id) && uuid_v4_text(id@)),
{
    if project_path.as_str().is_empty() {
        return Err(String::from_str("Project path cannot be empty"));
    }
    Ok(new_id())
}

/// Stops a watcher; an empty watcher id is refused.
pub fn docs_watch_stop(watcher_id: String) -> (r: Result<(), String>)
    ensures
        watcher_id@.len() == 0 ==> (r matches Err(e) && e@ == "Watcher ID cannot be empty"@),
        watcher_id@.len() > 0 ==> r is Ok,
{
    if watcher_id.as_str().is_empty() {
        return Err(String::from_str("Watcher ID cannot be empty"));
    }
    Ok(())
}

} // verus!
