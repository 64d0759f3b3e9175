use mud_saver::snowrunner::{
    files_to_archive, ProfileFileEntry, is_profile_dir, metadata_file_name, profile_dirs, try_load_metadata, ProfileDirEntry,
    SnowRunnerMetaData, DATA_FOLDER, PROFILE_PATH,
};
use mud_saver::{AppError, SavedProfile, SnowRunnerProfile, Timestamp};

fn at(secs: i64) -> Timestamp {
    Timestamp { secs, nanos: 0 }
}

fn backup(name: &str, path: &str, uuid: &str) -> SavedProfile {
    SavedProfile { name: name.to_string(), saved_on: at(5), file_path: path.to_string(), uuid: uuid.to_string() }
}

fn profile(uuid: &str, backups: Vec<SavedProfile>) -> SnowRunnerProfile {
    SnowRunnerProfile {
        uuid: uuid.to_string(),
        modified: at(1),
        meta_data: SnowRunnerMetaData { stored_profiles: backups, alias: None },
    }
}

fn dir(name: &str, is_dir: bool) -> ProfileDirEntry {
    ProfileDirEntry { is_dir, name_len: name.len(), name: Some(name.to_string()), modified: Some(at(3)) }
}

const ID_A: &str = "0123456789abcdef0123456789abcdef";
const ID_B: &str = "fedcba9876543210fedcba9876543210";

#[test]
fn snowrunner_storage_names() {
    assert_eq!(PROFILE_PATH, "My Games\\SnowRunner\\base\\storage");
    assert_eq!(DATA_FOLDER, "sr-data");
    assert_eq!(metadata_file_name("abc"), "abc.meta");
}

#[test]
fn profile_dirs_are_directories_with_32_long_names() {
    assert!(is_profile_dir(&dir(ID_A, true)));
    assert!(!is_profile_dir(&dir(ID_A, false)));
    assert!(!is_profile_dir(&dir("short", true)));

    let dirs = profile_dirs(Ok(vec![dir("short", true), dir(ID_A, true), dir(ID_B, false), dir(ID_B, true)])).unwrap();
    assert_eq!(dirs.len(), 2);
    assert_eq!(dirs[0].name.as_deref(), Some(ID_A));
    assert_eq!(dirs[1].name.as_deref(), Some(ID_B));
}

#[test]
fn no_profile_dir_is_an_error() {
    let err = profile_dirs(Ok(vec![dir("short", true)])).unwrap_err();
    assert_eq!(err, AppError::SnowRunnerNoProfile("No SnowRunner profiles found".to_string()));
    assert_eq!(err.status_code(), 400);
    let err = profile_dirs(Err("denied".to_string())).unwrap_err();
    assert_eq!(err, AppError::SnowRunnerProfileDirMissing("denied".to_string()));
}

#[test]
fn profile_lookup_finds_the_first_with_the_id() {
    let profiles = vec![profile(ID_A, vec![]), profile(ID_B, vec![backup("x", "p", "u")]), profile(ID_B, vec![])];
    let p = SnowRunnerProfile::get_snowrunner_profile(ID_B, profiles).unwrap();
    assert_eq!(p.uuid, ID_B);
    assert_eq!(p.meta_data.stored_profiles.len(), 1);
}

#[test]
fn unknown_profile_is_an_error() {
    let err = SnowRunnerProfile::get_snowrunner_profile("nope", vec![profile(ID_A, vec![])]).unwrap_err();
    assert_eq!(err, AppError::SnowRunnerNoProfile("Profile with id 'nope' not found".to_string()));
}

#[test]
fn metadata_defaults() {
    let m = SnowRunnerMetaData::default();
    assert!(m.stored_profiles.is_empty());
    assert!(m.alias.is_none());
    let m = try_load_metadata(None, true);
    assert!(m.stored_profiles.is_empty());
    let loaded = SnowRunnerMetaData { stored_profiles: vec![backup("a", "p", "u")], alias: Some("al".to_string()) };
    let m = try_load_metadata(Some(loaded), true);
    assert_eq!(m.stored_profiles.len(), 1);
    assert_eq!(m.alias.as_deref(), Some("al"));
}

#[test]
fn metadata_not_stored_back_is_dropped() {
    let loaded = SnowRunnerMetaData { stored_profiles: vec![backup("a", "p", "u")], alias: Some("al".to_string()) };
    let m = try_load_metadata(Some(loaded), false);
    assert!(m.stored_profiles.is_empty());
    assert!(m.alias.is_none());
}

#[test]
fn vanished_backups_are_forgotten() {
    let mut m = SnowRunnerMetaData {
        stored_profiles: vec![backup("a", "/p/1", "u1"), backup("b", "/p/2", "u2"), backup("c", "/p/3", "u3")],
        alias: Some("mine".to_string()),
    };
    let readable = vec!["/p/3".to_string(), "/p/1".to_string()];
    m.remove_deleted_backups(&readable);
    let names: Vec<_> = m.stored_profiles.iter().map(|p| p.name.as_str()).collect();
    assert_eq!(names, vec!["a", "c"]);
    assert_eq!(m.alias.as_deref(), Some("mine"));
    // a second pass changes nothing
    m.remove_deleted_backups(&readable);
    assert_eq!(m.stored_profiles.len(), 2);
}

#[test]
fn archived_saves_are_listed_in_order() {
    let p = profile(ID_A, vec![backup("a", "p1", "u1"), backup("b", "p2", "u2")]);
    let saves = p.get_archived_snowrunner_saves();
    assert_eq!(saves.len(), 2);
    assert_eq!(saves[0].uuid, "u1");
    assert_eq!(saves[1].uuid, "u2");
}

#[test]
fn unknown_save_is_an_error() {
    let p = profile(ID_A, vec![backup("a", "p1", "u1")]);
    assert_eq!(p.get_save("u2").unwrap_err(), AppError::SavegameNotFound("u2".to_string()));
    assert_eq!(p.get_save("u1").unwrap().name, "a");
}

#[test]
fn cloned_backup_keeps_every_field() {
    let b = backup("a", "p", "u");
    let c = b.clone();
    assert_eq!((c.name.as_str(), c.file_path.as_str(), c.uuid.as_str(), c.saved_on), ("a", "p", "u", at(5)));
}

#[test]
fn archive_holds_the_files_of_the_profile_directory() {
    let file = |n: &str| Some(ProfileFileEntry { is_dir: false, name: Some(n.to_string()) });
    let entries = vec![
        file("a.cfg"),
        Some(ProfileFileEntry { is_dir: true, name: Some("sub".to_string()) }),
        None,
        Some(ProfileFileEntry { is_dir: true, name: None }),
        file("b.dat"),
    ];
    assert_eq!(files_to_archive(entries), Some(vec!["a.cfg".to_string(), "b.dat".to_string()]));
    assert_eq!(files_to_archive(vec![]), Some(vec![]));
    let entries = vec![file("a.cfg"), Some(ProfileFileEntry { is_dir: false, name: None })];
    assert_eq!(files_to_archive(entries), None);
}
