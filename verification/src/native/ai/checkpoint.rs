//! Checkpoints of the agent loop: the records they keep, the names of file
//! backups, and how a recorded file change is undone.

use vstd::prelude::*;
use crate::native::ai::provider::ChatMessage;
use crate::native::ai::tools::{ToolCall, ToolResult};
use crate::text::{decimal, owned, push_str, push_u64, signed_decimal, push_i64};

verus! {

/// A saved state of the agent loop.
#[derive(Debug, Clone)]
pub struct Checkpoint {
    pub id: String,
    pub conversation_id: String,
    pub iteration: u32,
    pub timestamp: i64,
    /// Messages added since the previous checkpoint.
    pub new_messages: Vec<ChatMessage>,
    /// Files changed by the tools.
    pub file_changes: Vec<FileChange>,
    /// Results of the tools.
    pub tool_results: Vec<ToolResultRecord>,
}

/// A change a tool made to a file, with the backup that undoes it.
#[derive(Debug, Clone, PartialEq, Eq)]
pub enum FileChange {
    /// A new file; usually without backup.
    Created { path: String, backup_path: Option<String> },
    /// A changed file and the copy made before the change.
    Modified { path: String, backup_path: String },
    /// A deleted file and the copy made before the deletion.
    Deleted { path: String, backup_path: String },
}

impl FileChange {
    /// The path of the changed file.
    pub fn get_path(&self) -> (r: &str)
        ensures
            r@ == match *self {
                FileChange::Created { path, .. } => path@,
                FileChange::Modified { path, .. } => path@,
                FileChange::Deleted { path, .. } => path@,
            },
    {
        match self {
            FileChange::Created { path, .. } => path.as_str(),
            FileChange::Modified { path, .. } => path.as_str(),
            FileChange::Deleted { path, .. } => path.as_str(),
        }
    }

    /// The path of the backup, if there is one.
    pub fn get_backup_path(&self) -> (r: Option<&str>)
        ensures
            match *self {
                FileChange::Created { backup_path, .. } => match backup_path {
                    Some(b) => r matches Some(x) && x@ == b@,
                    None => r is None,
                },
                FileChange::Modified { backup_path, .. } => r matches Some(x) && x@ == backup_path@,
                FileChange::Deleted { backup_path, .. } => r matches Some(x) && x@ == backup_path@,
            },
    {
        match self {
            FileChange::Created { backup_path, .. } => match backup_path {
                Some(b) => Some(b.as_str()),
                None => None,
            },
            FileChange::Modified { backup_path, .. } => Some(backup_path.as_str()),
            FileChange::Deleted { backup_path, .. } => Some(backup_path.as_str()),
        }
    }
}

/// A tool result as a checkpoint keeps it.
#[derive(Debug, Clone, PartialEq, Eq)]
pub struct ToolResultRecord {
    pub tool_call_id: String,
    pub tool_name: String,
    pub output: String,
    pub success: bool,
}

impl ToolResultRecord {
    /// The record of a call and its result.
    pub fn new(tool_call: &ToolCall, result: &ToolResult) -> (r: Self)
        ensures
            r.tool_call_id == tool_call.id,
            r.tool_name == tool_call.name,
            r.output == result.output,
            r.success == result.success,
    {
        ToolResultRecord {
            tool_call_id: tool_call.id.clone(),
            tool_name: tool_call.name.clone(),
            output: result.output.clone(),
            success: result.success,
        }
    }
}

/// A checkpoint as listed: id, iteration and creation time.
#[derive(Debug, Clone, PartialEq, Eq)]
pub struct CheckpointSummary {
    pub id: String,
    pub iteration: u32,
    pub created_at: i64,
}

/// What undoing a file change takes.
#[derive(Debug, Clone, PartialEq, Eq)]
pub enum RestoreStep {
    /// Delete the file, where it exists.
    DeleteIfPresent { path: String },
    /// Copy the backup over the file and delete the backup, where the
    /// backup exists.
    CopyBack { backup_path: String, path: String },
}

/// Undoing a change: a created file is deleted; a modified or deleted file
/// is copied back from its backup.
pub fn restore_step(change: &FileChange) -> (r: RestoreStep)
    ensures
        match *change {
            FileChange::Created { path, .. } => r == RestoreStep::DeleteIfPresent { path },
            FileChange::Modified { path, backup_path } => r == RestoreStep::CopyBack { backup_path, path },
            FileChange::Deleted { path, backup_path } => r == RestoreStep::CopyBack { backup_path, path },
        },
{
    match change {
        FileChange::Created { path, .. } => RestoreStep::DeleteIfPresent { path: path.clone() },
        FileChange::Modified { path, backup_path } => RestoreStep::CopyBack { backup_path: backup_path.clone(), path: path.clone() },
        FileChange::Deleted { path, backup_path } => RestoreStep::CopyBack { backup_path: backup_path.clone(), path: path.clone() },
    }
}

/// The steps that undo a list of changes, in order; a step that fails does
/// not stop the ones after it.
pub fn rollback_steps(changes: &[FileChange]) -> (r: Vec<RestoreStep>)
    ensures
        r.len() == changes.len(),
        forall|i: int| 0 <= i < changes.len() ==> match changes@[i] {
            FileChange::Created { path, .. } => #[trigger] r@[i] == RestoreStep::DeleteIfPresent { path },
            FileChange::Modified { path, backup_path } => r@[i] == RestoreStep::CopyBack { backup_path, path },
            FileChange::Deleted { path, backup_path } => r@[i] == RestoreStep::CopyBack { backup_path, path },
        },
{
    let mut r: Vec<RestoreStep> = Vec::new();
    let mut i: usize = 0;
    while i < changes.len()
        invariant
            0 <= i <= changes.len(),
            r.len() == i,
            forall|j: int| 0 <= j < i ==> match changes@[j] {
                FileChange::Created { path, .. } => #[trigger] r@[j] == RestoreStep::DeleteIfPresent { path },
                FileChange::Modified { path, backup_path } => r@[j] == RestoreStep::CopyBack { backup_path, path },
                FileChange::Deleted { path, backup_path } => r@[j] == RestoreStep::CopyBack { backup_path, path },
            },
        decreases changes.len() - i,
    {
        r.push(restore_step(&changes[i]));
        i = i + 1;
    }
    r
}

/// Directory, under the system's temporary directory, that keeps backups.
pub open spec fn backup_dir_name() -> Seq<char> {
    "cosurf-checkpoint-backups"@
}

/// The name of the directory, under the temporary directory, that holds the
/// backups.
pub fn backup_directory() -> (r: &'static str)
    ensures
        r@ == backup_dir_name(),
{
    "cosurf-checkpoint-backups"
}

/// The name of the backup of a file: its name, `_`, the time in
/// milliseconds, and `.bak`.
pub fn backup_file_name(file_name: &str, timestamp_millis: i64) -> (r: String)
    ensures
        r@ == file_name@ + "_"@ + signed_decimal(timestamp_millis as int) + ".bak"@,
{
    let mut r = owned(file_name);
    push_str(&mut r, "_");
    push_i64(&mut r, timestamp_millis);
    push_str(&mut r, ".bak");
    r
}

/// The change recorded for a file backed up before a tool wrote it.
pub fn modified_change(path: &str, backup_path: String) -> (r: FileChange)
    ensures
        r matches FileChange::Modified { path: p, backup_path: b } && p@ == path@ && b == backup_path,
{
    FileChange::Modified { path: owned(path), backup_path }
}

/// Tools whose calls may write a file, whose target is therefore backed up.
/// The tools that write files: `export_markdown` and `run_command`.
pub open spec fn writes_files_name(name: Seq<char>) -> bool {
    name == "export_markdown"@ || name == "run_command"@
}

pub fn writes_files(tool_name: &str) -> (r: bool)
    ensures
        r == (tool_name@ == "export_markdown"@ || tool_name@ == "run_command"@),
        r == writes_files_name(tool_name@),
{
    crate::text::str_eq(tool_name, "export_markdown") || crate::text::str_eq(tool_name, "run_command")
}

/// The file a tool call names: its `path` argument, else `file_path`, else
/// `filename`.
pub fn file_path_argument(path: Option<String>, file_path: Option<String>, filename: Option<String>) -> (r: Option<String>)
    ensures
        r == match path {
            Some(p) => Some(p),
            None => match file_path {
                Some(p) => Some(p),
                None => filename,
            },
        },
{
    match path {
        Some(p) => Some(p),
        None => match file_path {
            Some(p) => Some(p),
            None => filename,
        },
    }
}

/// Whether an entry created at `created_at` is older than the retention
/// period at `now`, both in seconds.
pub fn checkpoint_expired(created_at: i64, now: i64, retention_hours: i64) -> (r: bool)
    requires
        i64::MIN <= retention_hours * 3600 <= i64::MAX,
        i64::MIN <= now - retention_hours * 3600 <= i64::MAX,
    ensures
        r == (created_at < now - retention_hours * 3600),
{
    let cutoff = now - retention_hours * 3600;
    created_at < cutoff
}

/// Whether a backup made at `modified_millis` is older than the retention
/// period at `now_millis`.
pub fn backup_expired(modified_millis: i64, now_millis: i64, retention_hours: i64) -> (r: bool)
    requires
        i64::MIN <= retention_hours * 3600000 <= i64::MAX,
        i64::MIN <= now_millis - retention_hours * 3600000 <= i64::MAX,
    ensures
        r == (modified_millis < now_millis - retention_hours * 3600000),
{
    let cutoff = now_millis - retention_hours * 3600 * 1000;
    modified_millis < cutoff
}

} // verus!
