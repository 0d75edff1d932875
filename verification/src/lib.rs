//! Log rotation for a single directory: classify each file by its extension,
//! measure its age in whole days, decide what is to happen to it, and encode
//! the archive that replaces it.
//!
//! The library works on plain values and touches neither the file system
//! nor the clock: a caller reads a file and the time, and carries out the
//! file operations that the library hands back. Paths are Unix paths, with
//! `/` between their components.

use vstd::prelude::*;

pub mod archive_type;
pub mod clock;
pub mod decision;
pub mod encode;
pub mod error;
pub mod file_type;
pub mod path;
pub mod run;

pub use archive_type::ArchiveType;
pub use clock::{get_date, get_file_mtime_diff, Timestamp};
pub use decision::{archive_remove_truncate_file_bucketing, decide, RotationAction};
pub use encode::{archive_file_name, archive_from_encoding, tar_file, tar_gunzip_file, zip_file, ArchiveFile, SourceFile};
pub use error::RotateError;
pub use file_type::{get_file_extension, FileType};
pub use path::base_name;
pub use run::{apply_action, archive_selection_and_process, dry_run_details, dry_run_line, plan_run, CandidateFile, FileOperation};

verus! {

/// The sum of `left` and `right`, for two numbers whose sum is a `u64`.
pub fn test_add(left: u64, right: u64) -> (sum: u64)
    requires
        left + right <= u64::MAX,
    ensures
        sum == left + right,
{
    left + right
}

} // verus!
