//! The archive formats that a rotated file can be stored in.

use crate::file_type::FileType;
use vstd::prelude::*;

verus! {

/// The container that a rotated file is stored in, chosen once per run.
#[derive(Debug, Clone, Copy, PartialEq, Eq, Structural)]
pub enum ArchiveType {
    /// A tar container without compression.
    Tar,
    /// A tar container inside a gzip stream.
    TarGunzip,
    /// A zip archive whose entry is deflated.
    Zip,
}

impl ArchiveType {
    /// The file name suffix of this format, without its leading dot.
    pub open spec fn suffix(self) -> Seq<char> {
        match self {
            ArchiveType::Tar => seq!['t', 'a', 'r'],
            ArchiveType::TarGunzip => seq!['t', 'a', 'r', '.', 'g', 'z'],
            ArchiveType::Zip => seq!['z', 'i', 'p'],
        }
    }

    /// The type that files of this format are classified as.
    pub open spec fn file_type(self) -> FileType {
        match self {
            ArchiveType::Tar => FileType::Tar,
            ArchiveType::TarGunzip => FileType::Gz,
            ArchiveType::Zip => FileType::Zip,
        }
    }

    /// The file name suffix of this format, without its leading dot.
    pub fn as_str(&self) -> (s: &'static str)
        ensures
            s@ == self.suffix(),
    {
        proof {
            reveal_strlit("tar");
            reveal_strlit("tar.gz");
            reveal_strlit("zip");
        }
        match self {
            ArchiveType::Tar => "tar",
            ArchiveType::TarGunzip => "tar.gz",
            ArchiveType::Zip => "zip",
        }
    }
}

} // verus!
