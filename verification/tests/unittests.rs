use logrotate::{
    archive_remove_truncate_file_bucketing, get_date, get_file_mtime_diff, tar_file,
    tar_gunzip_file, test_add, zip_file, ArchiveType, RotationAction, SourceFile, Timestamp,
};

/// The path of a test file with the given extension.
pub fn creat_test_file(extension: &str) -> String {
    "./tests/test_log_dir/test_".to_string() + extension + "_file." + extension
}

/// The instant at which the tests run their rotation.
pub fn test_now() -> Timestamp {
    Timestamp::new(1_700_000_000, 250_000_000).unwrap()
}

/// The test log file as it is read for archiving: changed a moment ago.
pub fn test_log_source() -> SourceFile {
    SourceFile {
        path: "./tests/test_log_dir/test_log_file.log".to_string(),
        contents: b"first line\nsecond line\n".to_vec(),
        mode: 0o100644,
        mtime: 1_699_999_990,
        uid: 1000,
        gid: 1000,
    }
}

#[test]
fn test_txt_file_archive() {
    let txt_test_file = creat_test_file("txt");
    let now = test_now();
    let result = archive_remove_truncate_file_bucketing(txt_test_file.as_str(), &now, &now, -1);

    assert_eq!(result, 3)
}

#[test]
fn test_text_file_archive() {
    let text_test_file = creat_test_file("text");
    let now = test_now();
    let result = archive_remove_truncate_file_bucketing(text_test_file.as_str(), &now, &now, -1);

    assert_eq!(result, 3)
}

#[test]
fn test_xml_file_archive() {
    let xml_test_file = creat_test_file("xml");
    let now = test_now();
    let result = archive_remove_truncate_file_bucketing(xml_test_file.as_str(), &now, &now, -1);

    assert_eq!(result, 3)
}

#[test]
fn test_log_file_archive() {
    let log_test_file = creat_test_file("log");
    let now = test_now();
    let result = archive_remove_truncate_file_bucketing(log_test_file.as_str(), &now, &now, -1);

    assert_eq!(result, 3)
}

#[test]
fn test_logs_file_archive() {
    let logs_test_file = creat_test_file("logs");
    let now = test_now();
    let result = archive_remove_truncate_file_bucketing(logs_test_file.as_str(), &now, &now, -1);

    assert_eq!(result, 3)
}

#[test]
fn test_clf_file_archive() {
    let clf_test_file = creat_test_file("clf");
    let now = test_now();
    let result = archive_remove_truncate_file_bucketing(clf_test_file.as_str(), &now, &now, -1);

    assert_eq!(result, 3)
}

#[test]
fn test_cef_file_archive() {
    let cef_test_file = creat_test_file("cef");
    let now = test_now();
    let result = archive_remove_truncate_file_bucketing(cef_test_file.as_str(), &now, &now, -1);

    assert_eq!(result, 3)
}

#[test]
fn test_syslog_file_archive() {
    let syslog_test_file = creat_test_file("syslog");
    let now = test_now();
    let result =
        archive_remove_truncate_file_bucketing(syslog_test_file.as_str(), &now, &now, -1);

    assert_eq!(result, 3)
}

#[test]
fn test_json_file_archive() {
    let json_test_file = creat_test_file("json");
    let now = test_now();
    let result = archive_remove_truncate_file_bucketing(json_test_file.as_str(), &now, &now, -1);

    assert_eq!(result, 3)
}

#[test]
fn test_csv_file_archive() {
    let csv_test_file = creat_test_file("csv");
    let now = test_now();
    let result = archive_remove_truncate_file_bucketing(csv_test_file.as_str(), &now, &now, -1);

    assert_eq!(result, 3)
}

#[test]
fn test_get_file_mtime_diff() {
    // A file that was changed at this very moment.
    let now = test_now();
    let modified = test_now();

    let diff_testing_operand = get_file_mtime_diff(&modified, &now);
    let ok_testing_operand = Some(get_file_mtime_diff(&modified, &now));

    assert_eq!(diff_testing_operand, 0);
    assert_eq!(ok_testing_operand, Some(0));
}

#[test]
fn test_archive_or_remove_file_threshold_check() {
    let test_file_path = "./tests/test_log_dir/test_log_file.log";
    let now = test_now();
    let testing_greater_than_threshold =
        archive_remove_truncate_file_bucketing(test_file_path, &now, &now, 1);

    let testing_less_than_threshold =
        archive_remove_truncate_file_bucketing(test_file_path, &now, &now, -1);

    assert_eq!(testing_greater_than_threshold, 0);
    assert_eq!(testing_less_than_threshold, 3);
}

#[test]
fn test_tar_archive_file_threshold_check() {
    let test_file_path = "./tests/test_log_dir/test_log_file.log";
    let now = test_now();
    let code = archive_remove_truncate_file_bucketing(test_file_path, &now, &now, 0);
    let testing_boolean = RotationAction::from_code(code).is_some();

    assert!(testing_boolean);
}

#[test]
fn test_targunzip_archive_file_threshold_check() {
    let test_file_path = "./tests/test_log_dir/test_log_file.log";
    let now = test_now();
    let code = archive_remove_truncate_file_bucketing(test_file_path, &now, &now, 0);
    let testing_boolean = RotationAction::from_code(code).is_some();

    assert!(testing_boolean);
}

#[test]
fn test_zip_archive_file_threshold_check() {
    let test_file_path = "./tests/test_log_dir/test_log_file.log";
    let now = test_now();
    let code = archive_remove_truncate_file_bucketing(test_file_path, &now, &now, 0);
    let testing_boolean = RotationAction::from_code(code).is_some();

    assert!(testing_boolean);
}

#[test]
fn test_targunzip_file_process() {
    let source = test_log_source();
    let now = test_now();
    let test_new_tar_file = source.path.clone() + "_" + &get_date(&now) + ".tar.gz";

    let archive =
        tar_gunzip_file(&source, &now, ArchiveType::TarGunzip).expect("Error tar-ing file");

    assert_eq!(archive.path, test_new_tar_file);
    assert!(!archive.bytes.is_empty());
}

#[test]
fn test_tar_file_process() {
    let source = test_log_source();
    let now = test_now();
    let test_new_tar_file = source.path.clone() + "_" + &get_date(&now) + ".tar";

    let archive = tar_file(&source, &now, ArchiveType::Tar).expect("Error tar-ing file");

    assert_eq!(archive.path, test_new_tar_file);
    assert!(!archive.bytes.is_empty());
}

#[test]
fn test_zip_file_process() {
    let source = test_log_source();
    let now = test_now();
    let test_new_zip_file = source.path.clone() + "_" + &get_date(&now) + ".zip";

    let archive = zip_file(&source, &now, ArchiveType::Zip).expect("Error zipping file");

    assert_eq!(archive.path, test_new_zip_file);
    assert!(!archive.bytes.is_empty());
}

#[test]
fn test_wrong_archive_types() {
    let source = test_log_source();
    let now = test_now();

    let tar_result = tar_file(&source, &now, ArchiveType::TarGunzip);
    let targunzip_result = tar_gunzip_file(&source, &now, ArchiveType::Zip);
    let zip_result = zip_file(&source, &now, ArchiveType::Tar);

    assert!(tar_result.is_err());
    assert!(targunzip_result.is_err());
    assert!(zip_result.is_err());
}

#[test]
fn test_simple_add() {
    let testing_operand = test_add(1, 2);
    assert_eq!(testing_operand, 3);
}
