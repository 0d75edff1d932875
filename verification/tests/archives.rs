use logrotate::{
    archive_file_name, archive_from_encoding, decide, get_date, tar_file, tar_gunzip_file,
    zip_file, ArchiveType, FileType, RotateError, RotationAction, SourceFile, Timestamp,
};
use std::io::{Cursor, Read};

fn now() -> Timestamp {
    Timestamp::new(1_700_000_000, 0).unwrap()
}

fn source(path: &str, contents: &[u8]) -> SourceFile {
    SourceFile {
        path: path.to_string(),
        contents: contents.to_vec(),
        mode: 0o100640,
        mtime: 1_699_990_000,
        uid: 1001,
        gid: 1002,
    }
}

/// The entries of a tar archive: name, contents, mode, time, owners.
fn tar_entries(bytes: &[u8]) -> Vec<(String, Vec<u8>, u32, u64, u64, u64)> {
    let mut archive = tar::Archive::new(bytes);
    let mut found = Vec::new();
    for entry in archive.entries().unwrap() {
        let mut entry = entry.unwrap();
        let name = entry.path().unwrap().to_str().unwrap().to_string();
        let mut contents = Vec::new();
        entry.read_to_end(&mut contents).unwrap();
        let header = entry.header();
        assert!(header.entry_type().is_file());
        found.push((
            name,
            contents,
            header.mode().unwrap(),
            header.mtime().unwrap(),
            header.uid().unwrap(),
            header.gid().unwrap(),
        ));
    }
    found
}

fn gunzip(bytes: &[u8]) -> Vec<u8> {
    let mut plain = Vec::new();
    flate2::read::GzDecoder::new(bytes).read_to_end(&mut plain).unwrap();
    plain
}

#[test]
fn archive_names_carry_date_and_suffix() {
    assert_eq!(archive_file_name("/var/log/app.log", "2023_11_14", ArchiveType::Tar), "/var/log/app.log_2023_11_14.tar");
    assert_eq!(archive_file_name("/var/log/app.log", "2023_11_14", ArchiveType::TarGunzip), "/var/log/app.log_2023_11_14.tar.gz");
    assert_eq!(archive_file_name("app.log", "2023_11_14", ArchiveType::Zip), "app.log_2023_11_14.zip");
    assert_eq!(archive_file_name("", "", ArchiveType::Zip), "_.zip");
}

#[test]
fn tar_round_trip() {
    let contents = b"alpha\nbeta\ngamma\n";
    let file = source("/var/log/app.log", contents);
    let archive = tar_file(&file, &now(), ArchiveType::Tar).unwrap();
    assert_eq!(archive.path, "/var/log/app.log_2023_11_14.tar");
    assert_ne!(archive.bytes, contents.to_vec());
    assert_eq!(archive.bytes.len(), 512 + 512 + 1024);
    let entries = tar_entries(&archive.bytes);
    assert_eq!(entries, vec![("app.log".to_string(), contents.to_vec(), 0o100640, 1_699_990_000, 1001, 1002)]);
}

#[test]
fn tar_gzip_round_trip() {
    let contents = vec![b'x'; 10_000];
    let file = source("logs/big.txt", &contents);
    let archive = tar_gunzip_file(&file, &now(), ArchiveType::TarGunzip).unwrap();
    assert_eq!(archive.path, "logs/big.txt_2023_11_14.tar.gz");
    assert_eq!(&archive.bytes[..2], &[0x1f, 0x8b]);
    assert!(archive.bytes.len() < contents.len());
    let tar = gunzip(&archive.bytes);
    assert_eq!(tar, tar_file(&file, &now(), ArchiveType::Tar).unwrap().bytes);
    let entries = tar_entries(&tar);
    assert_eq!(entries, vec![("big.txt".to_string(), contents, 0o100640, 1_699_990_000, 1001, 1002)]);
}

#[test]
fn zip_round_trip() {
    let contents = b"one,two\n1,2\n".repeat(50);
    let file = source("./data/table.csv", &contents);
    let archive = zip_file(&file, &now(), ArchiveType::Zip).unwrap();
    assert_eq!(archive.path, "./data/table.csv_2023_11_14.zip");
    assert_ne!(archive.bytes, contents);
    let mut reader = zip::ZipArchive::new(Cursor::new(archive.bytes)).unwrap();
    assert_eq!(reader.len(), 1);
    let mut entry = reader.by_index(0).unwrap();
    assert_eq!(entry.name(), "table.csv");
    assert_eq!(entry.compression(), zip::CompressionMethod::Deflated);
    assert_eq!(entry.size(), contents.len() as u64);
    let mut read_back = Vec::new();
    entry.read_to_end(&mut read_back).unwrap();
    assert_eq!(read_back, contents);
}

#[test]
fn empty_files_are_archived_too() {
    let file = source("empty.log", b"");
    let tar = tar_file(&file, &now(), ArchiveType::Tar).unwrap();
    assert_eq!(tar.bytes.len(), 512 + 1024);
    assert_eq!(tar_entries(&tar.bytes)[0].1, Vec::<u8>::new());
    let gz = tar_gunzip_file(&file, &now(), ArchiveType::TarGunzip).unwrap();
    assert_eq!(gunzip(&gz.bytes), tar.bytes);
    let zipped = zip_file(&file, &now(), ArchiveType::Zip).unwrap();
    let mut reader = zip::ZipArchive::new(Cursor::new(zipped.bytes)).unwrap();
    assert_eq!(reader.by_index(0).unwrap().size(), 0);
}

#[test]
fn entry_is_named_by_the_file_name_alone() {
    for (path, name) in [
        ("app.log", "app.log"),
        ("./app.log", "app.log"),
        ("/a/b/c/app.log", "app.log"),
        ("a/../b/app.log", "app.log"),
        ("dir/app.log/", "app.log"),
        ("dir/.hidden", ".hidden"),
    ] {
        let file = source(path, b"data");
        let tar = tar_file(&file, &now(), ArchiveType::Tar).unwrap();
        assert_eq!(tar_entries(&tar.bytes)[0].0, name);
        assert_eq!(tar.path, format!("{}_2023_11_14.tar", path));
        let zipped = zip_file(&file, &now(), ArchiveType::Zip).unwrap();
        let mut reader = zip::ZipArchive::new(Cursor::new(zipped.bytes)).unwrap();
        assert_eq!(reader.by_index(0).unwrap().name(), name);
    }
}

#[test]
fn long_file_names_are_kept_whole() {
    let name = "n".repeat(180) + ".log";
    let file = source(&format!("dir/{}", name), b"data");
    let tar = tar_file(&file, &now(), ArchiveType::Tar).unwrap();
    let entries = tar_entries(&tar.bytes);
    assert_eq!(entries.len(), 1);
    assert_eq!(entries[0].0, name);
    assert_eq!(entries[0].1, b"data".to_vec());
}

#[test]
fn archives_are_the_same_each_time() {
    let file = source("dir/app.log", b"the same bytes every time");
    for archive_type in [ArchiveType::Tar, ArchiveType::TarGunzip, ArchiveType::Zip] {
        let encode = |t: ArchiveType| match t {
            ArchiveType::Tar => tar_file(&file, &now(), t),
            ArchiveType::TarGunzip => tar_gunzip_file(&file, &now(), t),
            ArchiveType::Zip => zip_file(&file, &now(), t),
        };
        let first = encode(archive_type).unwrap();
        let second = encode(archive_type).unwrap();
        assert_eq!(first.path, second.path);
        assert_eq!(first.bytes, second.bytes);
    }
}

#[test]
fn archive_name_follows_the_date_of_the_run() {
    let file = source("dir/app.log", b"data");
    let later = Timestamp::new(1_700_000_000 + 86_400, 0).unwrap();
    assert_eq!(get_date(&later), "2023_11_15");
    assert_eq!(tar_file(&file, &later, ArchiveType::Tar).unwrap().path, "dir/app.log_2023_11_15.tar");
    assert_eq!(tar_gunzip_file(&file, &later, ArchiveType::TarGunzip).unwrap().path, "dir/app.log_2023_11_15.tar.gz");
    assert_eq!(zip_file(&file, &later, ArchiveType::Zip).unwrap().path, "dir/app.log_2023_11_15.zip");
}

#[test]
fn archives_are_known_as_archives_afterwards() {
    for path in ["app.log", "dir/app.log", "dir.d/notes", "/x/.hidden", "a.tar", "dir/sub/", "odd/name.", "UPPER.TXT"] {
        let file = source(path, b"data");
        let tar = tar_file(&file, &now(), ArchiveType::Tar).unwrap();
        assert_eq!(FileType::classify(&tar.path), FileType::Tar, "{}", tar.path);
        let gz = tar_gunzip_file(&file, &now(), ArchiveType::TarGunzip).unwrap();
        assert_eq!(FileType::classify(&gz.path), FileType::Gz, "{}", gz.path);
        let zipped = zip_file(&file, &now(), ArchiveType::Zip).unwrap();
        assert_eq!(FileType::classify(&zipped.path), FileType::Zip, "{}", zipped.path);
        for made in [&tar.path, &gz.path, &zipped.path] {
            assert_ne!(made.as_str(), path);
            let kind = FileType::classify(made);
            assert_eq!(decide(0, kind, 7), RotationAction::Unchanged);
            assert_eq!(decide(8, kind, 7), RotationAction::Remove);
        }
    }
}

#[test]
fn date_stamps_hold_digits_signs_and_underscores_only() {
    for secs in [-8_334_601_228_800i64, -62_167_219_200, -62_135_596_801, -1, 0, 1_700_000_000, 253_402_300_800, 8_210_266_876_799] {
        let stamp = get_date(&Timestamp::new(secs, 0).unwrap());
        assert!(stamp.chars().all(|c| c.is_ascii_digit() || c == '_' || c == '+' || c == '-'), "{}", stamp);
        assert_eq!(stamp.matches('_').count(), 2, "{}", stamp);
    }
    assert_eq!(get_date(&Timestamp::new(-62_167_219_200, 0).unwrap()), "0000_01_01");
    assert_eq!(get_date(&Timestamp::new(-62_167_219_201, 0).unwrap()), "-0001_12_31");
}

#[test]
fn every_mismatched_tag_is_refused() {
    let file = source("dir/app.log", b"data");
    let all = [ArchiveType::Tar, ArchiveType::TarGunzip, ArchiveType::Zip];
    for tag in all {
        if tag != ArchiveType::Tar {
            assert_eq!(tar_file(&file, &now(), tag).unwrap_err(), RotateError::ArchiveTypeMismatch);
        }
        if tag != ArchiveType::TarGunzip {
            assert_eq!(tar_gunzip_file(&file, &now(), tag).unwrap_err(), RotateError::ArchiveTypeMismatch);
        }
        if tag != ArchiveType::Zip {
            assert_eq!(zip_file(&file, &now(), tag).unwrap_err(), RotateError::ArchiveTypeMismatch);
        }
    }
}

#[test]
fn mismatch_is_reported_before_anything_else() {
    let nameless = source("dir/..", b"data");
    assert_eq!(tar_file(&nameless, &now(), ArchiveType::Zip).unwrap_err(), RotateError::ArchiveTypeMismatch);
    assert_eq!(tar_gunzip_file(&nameless, &now(), ArchiveType::Tar).unwrap_err(), RotateError::ArchiveTypeMismatch);
    assert_eq!(zip_file(&nameless, &now(), ArchiveType::TarGunzip).unwrap_err(), RotateError::ArchiveTypeMismatch);
}

#[test]
fn paths_without_a_file_name_cannot_be_archived() {
    for path in ["", "/", ".", "..", "dir/..", "./"] {
        let file = source(path, b"data");
        assert_eq!(tar_file(&file, &now(), ArchiveType::Tar).unwrap_err(), RotateError::IoError, "{:?}", path);
        assert_eq!(tar_gunzip_file(&file, &now(), ArchiveType::TarGunzip).unwrap_err(), RotateError::IoError, "{:?}", path);
        assert_eq!(zip_file(&file, &now(), ArchiveType::Zip).unwrap_err(), RotateError::IoError, "{:?}", path);
    }
}

#[test]
fn names_that_an_encoder_refuses_are_io_errors() {
    let with_nul = source("dir/a\0b.log", b"data");
    assert_eq!(tar_file(&with_nul, &now(), ArchiveType::Tar).unwrap_err(), RotateError::IoError);
    assert_eq!(tar_gunzip_file(&with_nul, &now(), ArchiveType::TarGunzip).unwrap_err(), RotateError::IoError);
    let too_long = source(&"z".repeat(70_000), b"data");
    assert_eq!(zip_file(&too_long, &now(), ArchiveType::Zip).unwrap_err(), RotateError::IoError);
}

#[test]
fn zip_names_may_be_as_long_as_their_length_field_allows() {
    let longest = source(&format!("dir/{}", "z".repeat(65_535)), b"data");
    let archive = zip_file(&longest, &now(), ArchiveType::Zip).unwrap();
    let mut reader = zip::ZipArchive::new(Cursor::new(archive.bytes)).unwrap();
    assert_eq!(reader.by_index(0).unwrap().name().len(), 65_535);
    let too_long = source(&format!("dir/{}", "z".repeat(65_536)), b"data");
    assert_eq!(zip_file(&too_long, &now(), ArchiveType::Zip).unwrap_err(), RotateError::IoError);
    let wide = source(&"\u{e4}".repeat(32_768), b"data");
    assert_eq!(zip_file(&wide, &now(), ArchiveType::Zip).unwrap_err(), RotateError::IoError);
    assert!(tar_file(&too_long, &now(), ArchiveType::Tar).is_ok());
}

#[test]
fn any_mode_time_and_owner_can_be_archived() {
    let mut file = source("dir/app.log", b"data");
    file.mode = u32::MAX;
    file.mtime = u64::MAX;
    file.uid = u64::MAX;
    file.gid = u64::MAX;
    let tar = tar_file(&file, &now(), ArchiveType::Tar).unwrap();
    assert_eq!(tar_entries(&tar.bytes)[0].1, b"data".to_vec());
    assert!(tar_gunzip_file(&file, &now(), ArchiveType::TarGunzip).is_ok());
    assert!(zip_file(&file, &now(), ArchiveType::Zip).is_ok());
    file.mode = 0;
    file.mtime = 0;
    file.uid = 0;
    file.gid = 0;
    let plain = tar_file(&file, &now(), ArchiveType::Tar).unwrap();
    assert_eq!(tar_entries(&plain.bytes), vec![("app.log".to_string(), b"data".to_vec(), 0, 0, 0, 0)]);
    assert_ne!(plain.bytes, tar.bytes);
}

#[test]
fn encoder_results_become_archives_or_io_errors() {
    let made = archive_from_encoding::<std::io::Error>("out.tar".to_string(), Ok(vec![1, 2, 3])).unwrap();
    assert_eq!(made.path, "out.tar");
    assert_eq!(made.bytes, vec![1, 2, 3]);
    let failed = archive_from_encoding("out.tar".to_string(), Err(std::io::Error::other("disk full")));
    assert_eq!(failed.unwrap_err(), RotateError::IoError);
    let refused = archive_from_encoding("out.zip".to_string(), Err(zip::result::ZipError::FileNotFound));
    assert_eq!(refused.unwrap_err(), RotateError::IoError);
}

#[test]
fn errors_describe_themselves() {
    assert_eq!(RotateError::IoError.describe(), "file could not be read or written");
    assert_eq!(RotateError::ArchiveTypeMismatch.describe(), "archive type did not match the encoder");
}

#[test]
fn archive_type_suffixes() {
    assert_eq!(ArchiveType::Tar.as_str(), "tar");
    assert_eq!(ArchiveType::TarGunzip.as_str(), "tar.gz");
    assert_eq!(ArchiveType::Zip.as_str(), "zip");
}
