//! Planning a run and carrying it out: the action for each file, the file
//! operations that an action stands for, and the report of a dry run.

use crate::archive_type::ArchiveType;
use crate::clock::{get_file_mtime_diff, Timestamp};
use crate::decision::{action_for, decide, RotationAction};
use crate::encode::{archive_of, tar_file, tar_gunzip_file, zip_file, ArchiveFile, ArchiveFileView, SourceFile, SourceFileView};
use crate::error::RotateError;
use crate::file_type::FileType;
use vstd::prelude::*;

verus! {

/// One change to the file system.
#[derive(Debug, Clone)]
pub enum FileOperation {
    /// Create the archive at its path with its bytes.
    Write(ArchiveFile),
    /// Set the length of the file at this path to zero; the file stays.
    Truncate(String),
    /// Delete the file at this path.
    Remove(String),
}

/// What a `FileOperation` holds, as mathematical values.
pub enum FileOperationView {
    Write(ArchiveFileView),
    Truncate(Seq<char>),
    Remove(Seq<char>),
}

impl View for FileOperation {
    type V = FileOperationView;

    open spec fn view(&self) -> FileOperationView {
        match self {
            FileOperation::Write(archive) => FileOperationView::Write(archive@),
            FileOperation::Truncate(path) => FileOperationView::Truncate(path@),
            FileOperation::Remove(path) => FileOperationView::Remove(path@),
        }
    }
}

/// A file of the directory that is looked at: its path and the instant of
/// its last change.
#[derive(Debug, Clone)]
pub struct CandidateFile {
    /// The path of the file.
    pub path: String,
    /// When the file was last changed.
    pub modified: Timestamp,
}

/// The operations `ops`, as mathematical values.
pub open spec fn operations_view(ops: Seq<FileOperation>) -> Seq<FileOperationView> {
    ops.map_values(|op: FileOperation| op@)
}

/// The outcome `r` of carrying an action out, as mathematical values.
pub open spec fn steps_view(r: Result<Vec<FileOperation>, RotateError>) -> Result<Seq<FileOperationView>, RotateError> {
    match r {
        Ok(ops) => Ok(operations_view(ops@)),
        Err(e) => Err(e),
    }
}

/// What archiving `source` consists of: its archive is written, then the
/// source is emptied. Where the archive cannot be made, nothing is done.
pub open spec fn archiving_steps(source: SourceFileView, date: Seq<char>, archive_type: ArchiveType) -> Result<Seq<FileOperationView>, RotateError> {
    match archive_of(source, date, archive_type) {
        Ok(archive) => Ok(seq![FileOperationView::Write(archive), FileOperationView::Truncate(source.path)]),
        Err(e) => Err(e),
    }
}

/// What carrying `action` out on `source` consists of.
pub open spec fn steps_for(action: RotationAction, source: SourceFileView, date: Seq<char>, archive_type: ArchiveType) -> Result<Seq<FileOperationView>, RotateError> {
    match action {
        RotationAction::Archive => archiving_steps(source, date, archive_type),
        RotationAction::Remove => Ok(seq![FileOperationView::Remove(source.path)]),
        RotationAction::Truncate => Ok(seq![FileOperationView::Truncate(source.path)]),
        RotationAction::Unchanged => Ok(Seq::empty()),
    }
}

/// The line that a dry run reports for the file at `path`.
pub open spec fn report_line(path: Seq<char>, action: RotationAction, archive_type: ArchiveType) -> Seq<char> {
    let extension = FileType::of_path(path).name();
    match action {
        RotationAction::Archive => "File: "@ + path + " | Status: "@ + archive_type.suffix()
            + " | Action Type: Archiving | File Extension: "@ + extension,
        RotationAction::Remove => "File: "@ + path + " | Action Type: Removing | File Extension: "@
            + extension,
        RotationAction::Truncate => "File: "@ + path
            + " | Action Type: Truncating | File Extension: "@ + extension,
        RotationAction::Unchanged => "File: "@ + path
            + " | Action Type: Unchanged | File Extension: "@ + extension,
    }
}

/// The action that a run at the time `now` takes for `file`.
pub open spec fn action_of(file: CandidateFile, now: Timestamp, threshold_days: int) -> RotationAction {
    action_for(now.days_since(file.modified), FileType::of_path(file.path@), threshold_days)
}

/// The line that a dry run reports for `file` at the time `now`: that of
/// the action that a real run takes for it.
pub open spec fn report_of(file: CandidateFile, now: Timestamp, threshold_days: int, archive_type: ArchiveType) -> Seq<char> {
    report_line(file.path@, action_of(file, now, threshold_days), archive_type)
}

/// Archives `source` in the format `archive_type`: the operations that
/// write its archive, named after the date of `now`, and then empty the
/// source. Where the archive cannot be made, there is no operation: the
/// source keeps what it holds.
pub fn archive_selection_and_process(source: &SourceFile, now: &Timestamp, archive_type: ArchiveType) -> (r: Result<Vec<FileOperation>, RotateError>)
    ensures
        steps_view(r) == archiving_steps(source@, now.date_stamp(), archive_type),
{
    let made = match archive_type {
        ArchiveType::Tar => tar_file(source, now, archive_type),
        ArchiveType::TarGunzip => tar_gunzip_file(source, now, archive_type),
        ArchiveType::Zip => zip_file(source, now, archive_type),
    };
    match made {
        Ok(archive) => {
            let mut ops: Vec<FileOperation> = Vec::new();
            ops.push(FileOperation::Write(archive));
            ops.push(FileOperation::Truncate(source.path.clone()));
            assert(operations_view(ops@) =~= seq![
                FileOperationView::Write(archive@),
                FileOperationView::Truncate(source.path@),
            ]);
            Ok(ops)
        },
        Err(e) => Err(e),
    }
}

/// Carries `action` out on `source`: the operations that are to be done,
/// in order. Only archiving reads what the source holds, and only
/// archiving can fail.
pub fn apply_action(action: RotationAction, source: &SourceFile, now: &Timestamp, archive_type: ArchiveType) -> (r: Result<Vec<FileOperation>, RotateError>)
    ensures
        steps_view(r) == steps_for(action, source@, now.date_stamp(), archive_type),
{
    match action {
        RotationAction::Archive => archive_selection_and_process(source, now, archive_type),
        RotationAction::Remove => {
            let mut ops: Vec<FileOperation> = Vec::new();
            ops.push(FileOperation::Remove(source.path.clone()));
            assert(operations_view(ops@) =~= seq![FileOperationView::Remove(source.path@)]);
            Ok(ops)
        },
        RotationAction::Truncate => {
            let mut ops: Vec<FileOperation> = Vec::new();
            ops.push(FileOperation::Truncate(source.path.clone()));
            assert(operations_view(ops@) =~= seq![FileOperationView::Truncate(source.path@)]);
            Ok(ops)
        },
        RotationAction::Unchanged => {
            let ops: Vec<FileOperation> = Vec::new();
            assert(operations_view(ops@) =~= Seq::empty());
            Ok(ops)
        },
    }
}

/// The line that a dry run reports for the file at `file`, for which
/// `action` was decided.
pub fn dry_run_line(file: &str, action: RotationAction, archive_type: ArchiveType) -> (line: String)
    ensures
        line@ == report_line(file@, action, archive_type),
{
    let mut line = "File: ".to_owned();
    line.append(file);
    match action {
        RotationAction::Archive => {
            line.append(" | Status: ");
            line.append(archive_type.as_str());
            line.append(" | Action Type: Archiving | File Extension: ");
        },
        RotationAction::Remove => {
            line.append(" | Action Type: Removing | File Extension: ");
        },
        RotationAction::Truncate => {
            line.append(" | Action Type: Truncating | File Extension: ");
        },
        RotationAction::Unchanged => {
            line.append(" | Action Type: Unchanged | File Extension: ");
        },
    }
    let extension = FileType::classify(file).to_string();
    line.append(extension.as_str());
    line
}

/// The actions of a run over `file_list` at the time `now`: one for each
/// file, in the order of the list. A dry run reports them and a real run
/// carries them out.
pub fn plan_run(file_list: &Vec<CandidateFile>, now: &Timestamp, threshold_days: i64) -> (actions: Vec<RotationAction>)
    ensures
        actions.len() == file_list.len(),
        forall|i: int| 0 <= i < file_list.len() ==> #[trigger] actions[i] == action_of(file_list[i], *now, threshold_days as int),
{
    let mut actions: Vec<RotationAction> = Vec::new();
    let mut i: usize = 0;
    while i < file_list.len()
        invariant
            i <= file_list.len(),
            actions.len() == i,
            forall|j: int| 0 <= j < i ==> #[trigger] actions[j] == action_of(file_list[j], *now, threshold_days as int),
        decreases file_list.len() - i,
    {
        let file = &file_list[i];
        let age_days = get_file_mtime_diff(&file.modified, now);
        let file_type = FileType::classify(file.path.as_str());
        actions.push(decide(age_days, file_type, threshold_days));
        i = i + 1;
    }
    actions
}

/// The report of a dry run over `file_list` at the time `now`: one line for
/// each file, in the order of the list, with the action that a real run
/// would take.
pub fn dry_run_details(file_list: &Vec<CandidateFile>, now: &Timestamp, threshold_days: i64, archive_type: ArchiveType) -> (lines: Vec<String>)
    ensures
        lines.len() == file_list.len(),
        forall|i: int| 0 <= i < file_list.len() ==> (#[trigger] lines[i])@ == report_of(file_list[i], *now, threshold_days as int, archive_type),
{
    let actions = plan_run(file_list, now, threshold_days);
    let mut lines: Vec<String> = Vec::new();
    let mut i: usize = 0;
    while i < file_list.len()
        invariant
            i <= file_list.len(),
            actions.len() == file_list.len(),
            lines.len() == i,
            forall|j: int| 0 <= j < file_list.len() ==> #[trigger] actions[j] == action_of(file_list[j], *now, threshold_days as int),
            forall|j: int| 0 <= j < i ==> (#[trigger] lines[j])@ == report_of(file_list[j], *now, threshold_days as int, archive_type),
        decreases file_list.len() - i,
    {
        lines.push(dry_run_line(file_list[i].path.as_str(), actions[i], archive_type));
        i = i + 1;
    }
    lines
}

} // verus!
