use saberdb::JsonFile;
use saberdb::JsonFileSync;
use saberdb::SaberError;
use saberdb::adapters::json_file::RawReadOutcome;
use saberdb::adapters::json_file::classify_raw_read;

#[test]
fn temp_path_replaces_extension() {
    let a = JsonFileSync::new(String::from("db.json"));
    assert_eq!(a.path().as_str(), "db.json");
    assert_eq!(a.temp_path(), "db.tmp");
}

#[test]
fn temp_path_replaces_only_last_extension() {
    let a = JsonFileSync::new(String::from("archive.tar.gz"));
    assert_eq!(a.temp_path(), "archive.tar.tmp");
}

#[test]
fn temp_path_appends_when_no_extension() {
    let a = JsonFileSync::new(String::from("noext"));
    assert_eq!(a.temp_path(), "noext.tmp");
}

#[test]
fn temp_path_keeps_hidden_file_name() {
    let a = JsonFileSync::new(String::from(".hidden"));
    assert_eq!(a.temp_path(), ".hidden.tmp");
}

#[test]
fn temp_path_ignores_dots_in_directories() {
    let a = JsonFileSync::new(String::from("dir.d/file"));
    assert_eq!(a.temp_path(), "dir.d/file.tmp");
}

#[test]
fn temp_path_stays_beside_target() {
    let a = JsonFileSync::new(String::from("state/db.json"));
    assert_eq!(a.temp_path(), "state/db.tmp");
}

#[test]
fn temp_path_leaves_non_files_alone() {
    let trailing = JsonFileSync::new(String::from("some/dir/"));
    assert_eq!(trailing.temp_path(), "some/dir/");
    let parent = JsonFileSync::new(String::from(".."));
    assert_eq!(parent.temp_path(), "..");
    let empty = JsonFileSync::new(String::new());
    assert_eq!(empty.temp_path(), "");
}

#[test]
fn async_adapter_shares_the_path_rules() {
    let a = JsonFile::new(String::from("db_async.json"));
    assert_eq!(a.path().as_str(), "db_async.json");
    assert_eq!(a.temp_path(), "db_async.tmp");
}

#[test]
fn raw_read_content_passes_through() {
    let r = classify_raw_read(RawReadOutcome::Content(vec![b'{', b'}']));
    assert_eq!(r.unwrap(), Some(vec![b'{', b'}']));
}

#[test]
fn raw_read_missing_is_no_payload_not_an_error() {
    let r = classify_raw_read(RawReadOutcome::Missing);
    assert_eq!(r.unwrap(), None);
}

#[test]
fn raw_read_failure_is_an_io_error() {
    let r = classify_raw_read(RawReadOutcome::Failure(String::from("permission denied")));
    match r {
        Err(e) => {
            assert!(e.is_io());
            assert_eq!(e.message().as_str(), "permission denied");
            assert_eq!(e, SaberError::Io(String::from("permission denied")));
        },
        Ok(_) => panic!("a non-missing failure must be an error"),
    }
}
