//! The archive encoders: each stores one file, under its file name, in a
//! tar, tar+gzip or zip archive whose own name carries the date.

use crate::archive_type::ArchiveType;
use crate::clock::{get_date, is_date_char, is_date_text, Timestamp};
use crate::error::RotateError;
use crate::file_type::{lowered, FileType};
use crate::path::{base_name, component_start, extension, file_name, is_plain_component, last_index_of, lemma_last_index_is, lemma_last_index_is_none, lemma_last_index_of};
use vstd::prelude::*;
use vstd::utf8::encode_utf8;

verus! {

/// `std::io::Error`: the failure of an encoder that writes into memory.
/// Nothing is read from it.
#[verifier::external_type_specification]
#[verifier::external_body]
pub struct ExIoError(std::io::Error);

/// `zip::result::ZipError`: the failure of the zip encoder. Nothing is read
/// from it.
#[verifier::external_type_specification]
#[verifier::external_body]
pub struct ExZipError(zip::result::ZipError);

/// A file that is to be archived, as it was read.
#[derive(Debug, Clone)]
pub struct SourceFile {
    /// The path that the file was read from.
    pub path: String,
    /// All that the file holds.
    pub contents: Vec<u8>,
    /// The permission bits and file type bits of the file.
    pub mode: u32,
    /// When the file was last changed, in seconds since the start of 1970.
    pub mtime: u64,
    /// The user that owns the file.
    pub uid: u64,
    /// The group that owns the file.
    pub gid: u64,
}

/// What a `SourceFile` holds, as mathematical values.
pub struct SourceFileView {
    pub path: Seq<char>,
    pub contents: Seq<u8>,
    pub mode: int,
    pub mtime: int,
    pub uid: int,
    pub gid: int,
}

impl View for SourceFile {
    type V = SourceFileView;

    open spec fn view(&self) -> SourceFileView {
        SourceFileView {
            path: self.path@,
            contents: self.contents@,
            mode: self.mode as int,
            mtime: self.mtime as int,
            uid: self.uid as int,
            gid: self.gid as int,
        }
    }
}

/// An archive that is to be written: where, and what.
#[derive(Debug, Clone)]
pub struct ArchiveFile {
    /// The path that the archive is written to.
    pub path: String,
    /// All that the archive holds.
    pub bytes: Vec<u8>,
}

/// What an `ArchiveFile` holds, as mathematical values.
pub struct ArchiveFileView {
    pub path: Seq<char>,
    pub bytes: Seq<u8>,
}

impl View for ArchiveFile {
    type V = ArchiveFileView;

    open spec fn view(&self) -> ArchiveFileView {
        ArchiveFileView { path: self.path@, bytes: self.bytes@ }
    }
}

/// The greatest length in bytes, as UTF-8, of an entry name in a zip
/// archive.
pub const ZIP_NAME_LIMIT: usize = 65_535;

/// The tar archive that holds one regular file, `contents`, under `name`
/// and with the given mode, time of change and owners; `None` where the
/// encoder refuses the entry. The name is read as a Unix path.
pub uninterp spec fn tar_stream(name: Seq<char>, mode: int, mtime: int, uid: int, gid: int, contents: Seq<u8>) -> Option<Seq<u8>>;

/// The gzip stream that holds `data`, compressed at the standard level;
/// `None` where the encoder fails.
pub uninterp spec fn gzip_stream(data: Seq<u8>) -> Option<Seq<u8>>;

/// The zip archive that holds `contents`, deflated, as its one entry `name`;
/// `None` where the encoder refuses the entry.
pub uninterp spec fn zip_stream(name: Seq<char>, contents: Seq<u8>) -> Option<Seq<u8>>;

/// Builds a GNU header with `tar::Header::new_gnu` and its setters, hands it
/// with `name` and `contents` to `tar::Builder::append_data` on a builder
/// that writes into memory, and closes the archive with
/// `tar::Builder::into_inner`. The contract names what comes back, for a
/// name that is one plain component.
#[verifier::external_body]
fn tar_encode(name: &str, mode: u32, mtime: u64, uid: u64, gid: u64, contents: &[u8]) -> (r: Result<Vec<u8>, std::io::Error>)
    requires
        is_plain_component(name@),
    ensures
        r is Ok ==> tar_stream(name@, mode as int, mtime as int, uid as int, gid as int, contents@) == Some(r->Ok_0@),
        r is Err ==> tar_stream(name@, mode as int, mtime as int, uid as int, gid as int, contents@) is None,
{
    let mut header = tar::Header::new_gnu();
    header.set_size(contents.len() as u64);
    header.set_mode(mode);
    header.set_mtime(mtime);
    header.set_uid(uid);
    header.set_gid(gid);
    header.set_entry_type(tar::EntryType::file());
    let mut builder = tar::Builder::new(Vec::new());
    builder.append_data(&mut header, name, contents)?;
    builder.into_inner()
}

/// Writes `data` through `flate2::write::GzEncoder`, made with
/// `Compression::default()` over memory, and closes it with `finish`. The
/// contract names what comes back.
#[verifier::external_body]
fn gzip_encode(data: &[u8]) -> (r: Result<Vec<u8>, std::io::Error>)
    ensures
        r is Ok ==> gzip_stream(data@) == Some(r->Ok_0@),
        r is Err ==> gzip_stream(data@) is None,
{
    let mut encoder = flate2::write::GzEncoder::new(Vec::new(), flate2::Compression::default());
    std::io::Write::write_all(&mut encoder, data)?;
    encoder.finish()
}

/// Starts the entry `name` with `zip::ZipWriter::start_file` on a writer
/// over memory, with the default options and the deflate method, writes
/// `contents` into it and closes the archive with `finish`. The contract
/// names what comes back, for a name that is one plain component. A name
/// whose length does not fit the 16 bits that a zip header has for it is
/// left out: `start_file` panics on it.
#[verifier::external_body]
fn zip_encode(name: &str, contents: &[u8]) -> (r: Result<Vec<u8>, zip::result::ZipError>)
    requires
        is_plain_component(name@),
        encode_utf8(name@).len() <= ZIP_NAME_LIMIT,
    ensures
        r is Ok ==> zip_stream(name@, contents@) == Some(r->Ok_0@),
        r is Err ==> zip_stream(name@, contents@) is None,
{
    let mut writer = zip::ZipWriter::new(std::io::Cursor::new(Vec::new()));
    let options = zip::write::SimpleFileOptions::default();
    writer.start_file(name, options.compression_method(zip::CompressionMethod::Deflated))?;
    std::io::Write::write_all(&mut writer, contents)?;
    Ok(writer.finish()?.into_inner())
}

/// The name of the archive of the file at `path`: the path, `_`, the date,
/// `.` and the suffix of the format.
pub open spec fn archive_path(path: Seq<char>, date: Seq<char>, archive_type: ArchiveType) -> Seq<char> {
    path + seq!['_'] + date + seq!['.'] + archive_type.suffix()
}

/// The bytes of the archive of `source` in the format `archive_type`, with
/// its one entry under `name`, or `None` where the encoder of that format
/// fails. A zip archive has no room for a name of more than `ZIP_NAME_LIMIT`
/// bytes.
pub open spec fn archive_bytes(name: Seq<char>, source: SourceFileView, archive_type: ArchiveType) -> Option<Seq<u8>> {
    match archive_type {
        ArchiveType::Tar => tar_stream(name, source.mode, source.mtime, source.uid, source.gid, source.contents),
        ArchiveType::TarGunzip => match tar_stream(name, source.mode, source.mtime, source.uid, source.gid, source.contents) {
            Some(tar) => gzip_stream(tar),
            None => None,
        },
        ArchiveType::Zip => if encode_utf8(name).len() <= ZIP_NAME_LIMIT {
            zip_stream(name, source.contents)
        } else {
            None
        },
    }
}

/// The archive of `source` in the format `archive_type`, named after the
/// date `date`. The entry is named by the file name of the source; a source
/// whose path has no file name cannot be read as a file, and neither it nor
/// one whose encoding fails has an archive.
pub open spec fn archive_of(source: SourceFileView, date: Seq<char>, archive_type: ArchiveType) -> Result<ArchiveFileView, RotateError> {
    match file_name(source.path) {
        Some(name) => match archive_bytes(name, source, archive_type) {
            Some(bytes) => Ok(ArchiveFileView { path: archive_path(source.path, date, archive_type), bytes }),
            None => Err(RotateError::IoError),
        },
        None => Err(RotateError::IoError),
    }
}

/// What an encoder for the format `encoder` returns when it is asked for
/// the format `requested`: the archive where the two agree, and a mismatch
/// where they do not, whatever the source.
pub open spec fn encoder_result(source: SourceFileView, date: Seq<char>, requested: ArchiveType, encoder: ArchiveType) -> Result<ArchiveFileView, RotateError> {
    if requested == encoder {
        archive_of(source, date, encoder)
    } else {
        Err(RotateError::ArchiveTypeMismatch)
    }
}

/// The outcome `r` of an encoder, as mathematical values.
pub open spec fn outcome_view(r: Result<ArchiveFile, RotateError>) -> Result<ArchiveFileView, RotateError> {
    match r {
        Ok(archive) => Ok(archive@),
        Err(e) => Err(e),
    }
}

/// What a rotation writes, the next one knows again: the archive of a file,
/// whatever its path, is classified as an archive of its format, so that it
/// is never archived a second time; and it never lies at the path of the
/// file itself.
pub proof fn lemma_archive_is_known_as_archive(path: Seq<char>, date: Seq<char>, archive_type: ArchiveType)
    requires
        is_date_text(date),
    ensures
        FileType::of_path(archive_path(path, date, archive_type)) == archive_type.file_type(),
        archive_type.file_type().is_archive(),
        archive_path(path, date, archive_type) != path,
{
    let suffix = archive_type.suffix();
    let a = archive_path(path, date, archive_type);
    let n: int = path.len() as int;
    let d: int = date.len() as int;
    assert forall|j: int| n < j <= n + d implies is_date_char(#[trigger] a[j]) by {}
    assert forall|j: int| n <= j < a.len() implies a[j] != '/' by {}
    lemma_last_index_of(path, '/');
    match last_index_of(path, '/') {
        Some(i) => {
            lemma_last_index_is(a, '/', i);
        },
        None => {
            lemma_last_index_is_none(a, '/');
        },
    }
    let start: int = component_start(a);
    let name = a.subrange(start, a.len() as int);
    let dot: int = match archive_type {
        ArchiveType::TarGunzip => n - start + 1 + d + 4,
        _ => n - start + 1 + d,
    };
    lemma_last_index_is(name, '.', dot);
    let ext = name.subrange(dot + 1, name.len() as int);
    match archive_type {
        ArchiveType::Tar => {
            assert(lowered(ext) =~= seq!['t', 'a', 'r']);
        },
        ArchiveType::TarGunzip => {
            assert(lowered(ext) =~= seq!['g', 'z']);
        },
        ArchiveType::Zip => {
            assert(lowered(ext) =~= seq!['z', 'i', 'p']);
        },
    }
}

/// The name of the archive of the file at `file_path`, made on the date
/// `date` in the format `archive_type`.
pub fn archive_file_name(file_path: &str, date: &str, archive_type: ArchiveType) -> (name: String)
    ensures
        name@ == archive_path(file_path@, date@, archive_type),
{
    proof {
        reveal_strlit("_");
        reveal_strlit(".");
    }
    let mut name = file_path.to_owned();
    name.append("_");
    name.append(date);
    name.append(".");
    name.append(archive_type.as_str());
    name
}

/// Makes the archive that is written to `path` from what an encoder
/// returned: the bytes where it succeeded, an I/O error where it failed.
pub fn archive_from_encoding<E>(path: String, encoded: Result<Vec<u8>, E>) -> (r: Result<ArchiveFile, RotateError>)
    ensures
        match encoded {
            Ok(bytes) => outcome_view(r) == Ok::<ArchiveFileView, RotateError>(ArchiveFileView { path: path@, bytes: bytes@ }),
            Err(_) => r == Err::<ArchiveFile, RotateError>(RotateError::IoError),
        },
{
    match encoded {
        Ok(bytes) => Ok(ArchiveFile { path, bytes }),
        Err(_) => Err(RotateError::IoError),
    }
}

/// Stores `source` in a tar archive without compression, named after the
/// date of `now`. Asked for another format, it refuses.
pub fn tar_file(source: &SourceFile, now: &Timestamp, archive_type: ArchiveType) -> (r: Result<ArchiveFile, RotateError>)
    ensures
        outcome_view(r) == encoder_result(source@, now.date_stamp(), archive_type, ArchiveType::Tar),
        archive_type != ArchiveType::Tar ==> r == Err::<ArchiveFile, RotateError>(RotateError::ArchiveTypeMismatch),
        r is Ok ==> r.unwrap().path@ == archive_path(source.path@, now.date_stamp(), ArchiveType::Tar),
        r is Ok ==> FileType::of_path(r.unwrap().path@) == ArchiveType::Tar.file_type(),
{
    if archive_type != ArchiveType::Tar {
        return Err(RotateError::ArchiveTypeMismatch);
    }
    match base_name(source.path.as_str()) {
        None => Err(RotateError::IoError),
        Some(name) => {
            let date = get_date(now);
            let path = archive_file_name(source.path.as_str(), date.as_str(), archive_type);
            proof {
                lemma_archive_is_known_as_archive(source.path@, date@, archive_type);
            }
            let encoded = tar_encode(name.as_str(), source.mode, source.mtime, source.uid, source.gid, source.contents.as_slice());
            archive_from_encoding(path, encoded)
        },
    }
}

/// Stores `source` in a tar archive inside a gzip stream, named after the
/// date of `now`. Asked for another format, it refuses.
pub fn tar_gunzip_file(source: &SourceFile, now: &Timestamp, archive_type: ArchiveType) -> (r: Result<ArchiveFile, RotateError>)
    ensures
        outcome_view(r) == encoder_result(source@, now.date_stamp(), archive_type, ArchiveType::TarGunzip),
        archive_type != ArchiveType::TarGunzip ==> r == Err::<ArchiveFile, RotateError>(RotateError::ArchiveTypeMismatch),
        r is Ok ==> r.unwrap().path@ == archive_path(source.path@, now.date_stamp(), ArchiveType::TarGunzip),
        r is Ok ==> FileType::of_path(r.unwrap().path@) == ArchiveType::TarGunzip.file_type(),
{
    if archive_type != ArchiveType::TarGunzip {
        return Err(RotateError::ArchiveTypeMismatch);
    }
    match base_name(source.path.as_str()) {
        None => Err(RotateError::IoError),
        Some(name) => {
            let date = get_date(now);
            let path = archive_file_name(source.path.as_str(), date.as_str(), archive_type);
            proof {
                lemma_archive_is_known_as_archive(source.path@, date@, archive_type);
            }
            match tar_encode(name.as_str(), source.mode, source.mtime, source.uid, source.gid, source.contents.as_slice()) {
                Ok(tar) => archive_from_encoding(path, gzip_encode(tar.as_slice())),
                Err(_) => Err(RotateError::IoError),
            }
        },
    }
}

/// Stores `source` in a zip archive as one deflated entry, named after the
/// date of `now`. Asked for another format, it refuses.
pub fn zip_file(source: &SourceFile, now: &Timestamp, archive_type: ArchiveType) -> (r: Result<ArchiveFile, RotateError>)
    ensures
        outcome_view(r) == encoder_result(source@, now.date_stamp(), archive_type, ArchiveType::Zip),
        archive_type != ArchiveType::Zip ==> r == Err::<ArchiveFile, RotateError>(RotateError::ArchiveTypeMismatch),
        r is Ok ==> r.unwrap().path@ == archive_path(source.path@, now.date_stamp(), ArchiveType::Zip),
        r is Ok ==> FileType::of_path(r.unwrap().path@) == ArchiveType::Zip.file_type(),
{
    if archive_type != ArchiveType::Zip {
        return Err(RotateError::ArchiveTypeMismatch);
    }
    match base_name(source.path.as_str()) {
        None => Err(RotateError::IoError),
        Some(name) => {
            if name.as_str().as_bytes().len() > ZIP_NAME_LIMIT {
                return Err(RotateError::IoError);
            }
            let date = get_date(now);
            let path = archive_file_name(source.path.as_str(), date.as_str(), archive_type);
            proof {
                lemma_archive_is_known_as_archive(source.path@, date@, archive_type);
            }
            let encoded = zip_encode(name.as_str(), source.contents.as_slice());
            archive_from_encoding(path, encoded)
        },
    }
}

} // verus!
