//! The rotation decision: what is to happen to a file of a given age and
//! type under a retention threshold.

use crate::clock::{get_file_mtime_diff, Timestamp};
use crate::file_type::FileType;
use vstd::prelude::*;

verus! {

/// What is to happen to a file.
#[derive(Debug, Clone, Copy, PartialEq, Eq, Structural)]
pub enum RotationAction {
    /// Store the file in an archive, then empty it.
    Archive,
    /// Delete the file.
    Remove,
    /// Empty the file in place.
    Truncate,
    /// Leave the file as it is.
    Unchanged,
}

/// Whether a file is deleted: an archive of an earlier rotation that is
/// older than the threshold.
pub open spec fn removal_due(age_days: int, file_type: FileType, threshold_days: int) -> bool {
    age_days > threshold_days && file_type.is_archive() && file_type != FileType::Unknown
}

/// Whether a file is archived: a file of a known type, no archive itself,
/// within the threshold and at most one day old.
pub open spec fn archiving_due(age_days: int, file_type: FileType, threshold_days: int) -> bool {
    age_days <= threshold_days && age_days <= 1 && !file_type.is_archive() && file_type
        != FileType::Unknown
}

/// Whether a file is emptied in place: a file of a known type, no archive
/// itself, within the threshold and more than one day old.
pub open spec fn truncation_due(age_days: int, file_type: FileType, threshold_days: int) -> bool {
    age_days <= threshold_days && age_days > 1 && !file_type.is_archive() && file_type
        != FileType::Unknown
}

/// The action for a file of the given age and type: the first of removal,
/// archiving and truncation whose condition holds, and none of them where
/// none holds.
pub open spec fn action_for(age_days: int, file_type: FileType, threshold_days: int) -> RotationAction {
    if removal_due(age_days, file_type, threshold_days) {
        RotationAction::Remove
    } else if archiving_due(age_days, file_type, threshold_days) {
        RotationAction::Archive
    } else if truncation_due(age_days, file_type, threshold_days) {
        RotationAction::Truncate
    } else {
        RotationAction::Unchanged
    }
}

impl RotationAction {
    /// The number that stands for this action.
    pub open spec fn ordinal(self) -> int {
        match self {
            RotationAction::Archive => 0,
            RotationAction::Remove => 1,
            RotationAction::Truncate => 2,
            RotationAction::Unchanged => 3,
        }
    }

    /// The number that stands for this action.
    pub fn code(&self) -> (code: i32)
        ensures
            code == self.ordinal(),
    {
        match self {
            RotationAction::Archive => 0,
            RotationAction::Remove => 1,
            RotationAction::Truncate => 2,
            RotationAction::Unchanged => 3,
        }
    }

    /// The action that `code` stands for, if it stands for one.
    pub fn from_code(code: i32) -> (action: Option<RotationAction>)
        ensures
            action is Some <==> 0 <= code <= 3,
            action is Some ==> action.unwrap().ordinal() == code,
    {
        if code == 0 {
            Some(RotationAction::Archive)
        } else if code == 1 {
            Some(RotationAction::Remove)
        } else if code == 2 {
            Some(RotationAction::Truncate)
        } else if code == 3 {
            Some(RotationAction::Unchanged)
        } else {
            None
        }
    }
}

/// Decides what is to happen to a file that is `age_days` old and of type
/// `file_type`, where files are kept for `threshold_days`. Every age is
/// decided on, a negative one too.
pub fn decide(age_days: i64, file_type: FileType, threshold_days: i64) -> (action: RotationAction)
    ensures
        action == action_for(age_days as int, file_type, threshold_days as int),
{
    match file_type {
        FileType::Unknown => RotationAction::Unchanged,
        FileType::Gz | FileType::Tar | FileType::Zip => {
            if age_days > threshold_days {
                RotationAction::Remove
            } else {
                RotationAction::Unchanged
            }
        },
        FileType::Txt | FileType::Log | FileType::Json | FileType::Csv | FileType::Xml => {
            if age_days > threshold_days {
                RotationAction::Unchanged
            } else if age_days <= 1 {
                RotationAction::Archive
            } else {
                RotationAction::Truncate
            }
        },
    }
}

/// The number of the action for the file at `file`, last changed at
/// `modified`, when files are kept for `threshold_days` and the time is
/// `now`: 0 to archive it, 1 to remove it, 2 to truncate it, 3 to leave it.
pub fn archive_remove_truncate_file_bucketing(file: &str, modified: &Timestamp, now: &Timestamp, threshold_days: i64) -> (code: i32)
    ensures
        code == action_for(now.days_since(*modified), FileType::of_path(file@), threshold_days as int).ordinal(),
{
    let age_days = get_file_mtime_diff(modified, now);
    let file_type = FileType::classify(file);
    decide(age_days, file_type, threshold_days).code()
}

/// The conditions of the four actions part all inputs among them: no two
/// hold together, and each action is chosen exactly where its condition
/// holds, `Unchanged` exactly where none of the other three does.
pub proof fn lemma_actions_partition(age_days: int, file_type: FileType, threshold_days: int)
    ensures
        !(removal_due(age_days, file_type, threshold_days) && archiving_due(age_days, file_type, threshold_days)),
        !(removal_due(age_days, file_type, threshold_days) && truncation_due(age_days, file_type, threshold_days)),
        !(archiving_due(age_days, file_type, threshold_days) && truncation_due(age_days, file_type, threshold_days)),
        action_for(age_days, file_type, threshold_days) == RotationAction::Remove <==> removal_due(age_days, file_type, threshold_days),
        action_for(age_days, file_type, threshold_days) == RotationAction::Archive <==> archiving_due(age_days, file_type, threshold_days),
        action_for(age_days, file_type, threshold_days) == RotationAction::Truncate <==> truncation_due(age_days, file_type, threshold_days),
        action_for(age_days, file_type, threshold_days) == RotationAction::Unchanged <==> !removal_due(age_days, file_type, threshold_days)
            && !archiving_due(age_days, file_type, threshold_days) && !truncation_due(age_days, file_type, threshold_days),
{
}

/// A file of unknown type is left as it is, whatever its age and the
/// threshold.
pub proof fn lemma_unknown_is_unchanged(age_days: int, threshold_days: int)
    ensures
        action_for(age_days, FileType::Unknown, threshold_days) == RotationAction::Unchanged,
{
}

/// An archive is removed once it is older than the threshold and left as it
/// is until then: it is never archived again nor truncated.
pub proof fn lemma_archives_are_removed_or_kept(age_days: int, file_type: FileType, threshold_days: int)
    requires
        file_type.is_archive(),
    ensures
        action_for(age_days, file_type, threshold_days) == (if age_days > threshold_days {
            RotationAction::Remove
        } else {
            RotationAction::Unchanged
        }),
{
}

/// Raising the threshold never changes whether a file that stays within it
/// is archived or truncated: that depends on its age alone.
pub proof fn lemma_threshold_does_not_move_archiving(age_days: int, file_type: FileType, low: int, high: int)
    requires
        age_days <= low <= high,
    ensures
        action_for(age_days, file_type, low) == action_for(age_days, file_type, high),
{
}

} // verus!
