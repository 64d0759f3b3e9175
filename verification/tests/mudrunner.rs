use mud_saver::mud_runner_saves::{MudrunnerMetadata, SaveFileEntry, DATA_PATH, METADATA_FILE, PROFILE_PATH};
use mud_saver::{AppError, MudrunnerSave, Timestamp};

fn at(secs: i64) -> Timestamp {
    Timestamp { secs, nanos: 0 }
}

fn archived(user: &str, original: &str, file: &str) -> MudrunnerSave {
    MudrunnerSave::new(user.to_string(), at(10), original.to_string(), Some(file.to_string()))
}

#[test]
fn mudrunner_storage_names() {
    assert_eq!(DATA_PATH, "SpinTires MudRunner\\UserSaves");
    assert_eq!(PROFILE_PATH, "mr-data");
    assert_eq!(METADATA_FILE, "MudrunnerMetadata.json");
}

#[test]
fn archived_saves_from_missing_metadata_are_none() {
    let saves = MudrunnerSave::get_archived_mudrunner_saves(MudrunnerMetadata::Missing).unwrap();
    assert!(saves.is_empty());
}

#[test]
fn archived_saves_from_corrupt_metadata_is_an_error() {
    let err = MudrunnerSave::get_archived_mudrunner_saves(MudrunnerMetadata::Corrupt).unwrap_err();
    assert_eq!(err, AppError::FileReadError("Error reading \"MudrunnerMetadata.json\"".to_string()));
    assert_eq!(err.status_code(), 500);
}

#[test]
fn archived_saves_from_loaded_metadata_are_those_listed() {
    let listed = vec![archived("a", "s1", "f1"), archived("b", "s2", "f2")];
    let saves = MudrunnerSave::get_archived_mudrunner_saves(MudrunnerMetadata::Loaded(listed)).unwrap();
    assert_eq!(saves.len(), 2);
    assert_eq!(saves[0].user_name(), "a");
    assert_eq!(saves[1].original_name(), "s2");
    assert_eq!(saves[1].internal_filename(), Some("f2"));
}

#[test]
fn available_saves_without_directory_is_an_error() {
    let err = MudrunnerSave::get_available_mudrunner_saves(None).unwrap_err();
    assert_eq!(
        err,
        AppError::MudrunnerProfileDirMissing("Mudrunner profile directory missing".to_string())
    );
}

#[test]
fn available_saves_skip_unreadable_entries_and_non_utf8_names() {
    let listing = vec![
        Some(SaveFileEntry { file_name: Some("profile1".to_string()), modified: Some(at(100)) }),
        None,
        Some(SaveFileEntry { file_name: None, modified: Some(at(200)) }),
        Some(SaveFileEntry { file_name: Some("profile2".to_string()), modified: None }),
    ];
    let saves = MudrunnerSave::get_available_mudrunner_saves(Some(listing)).unwrap();
    assert_eq!(saves.len(), 2);
    assert_eq!(saves[0].original_name(), "profile1");
    assert_eq!(saves[0].user_name(), "");
    assert_eq!(saves[0].internal_filename(), None);
    assert_eq!(saves[0].timestamp(), at(100));
    assert_eq!(saves[1].original_name(), "profile2");
    // no modification time: dated by the clock, which is past 2020
    assert!(saves[1].timestamp().secs > 1_577_836_800);
    assert!(saves[1].timestamp().nanos < 2_000_000_000);
}

#[test]
fn available_saves_of_an_empty_directory_are_none() {
    let saves = MudrunnerSave::get_available_mudrunner_saves(Some(Vec::new())).unwrap();
    assert!(saves.is_empty());
}

#[test]
fn archiving_replaces_the_save_of_the_same_user_name() {
    let saves = vec![
        archived("bob", "s1", "old-bob"),
        archived("ann", "s2", "ann-file"),
        archived("bob", "s3", "older-bob"),
    ];
    let (mut kept, stale) = MudrunnerSave::remove_user_saves(saves, "bob");
    assert_eq!(stale, Some("old-bob".to_string()));
    assert_eq!(kept.len(), 1);
    assert_eq!(kept[0].user_name(), "ann");

    kept.push(MudrunnerSave::archived("bob", "s9", "new-bob".to_string(), Some(at(7))));
    let bobs: Vec<_> = kept.iter().filter(|s| s.user_name() == "bob").collect();
    assert_eq!(bobs.len(), 1);
    assert_eq!(bobs[0].original_name(), "s9");
    assert_eq!(bobs[0].internal_filename(), Some("new-bob"));
    assert_eq!(bobs[0].timestamp(), at(7));
    assert_eq!(kept.last().unwrap().user_name(), "bob");
}

#[test]
fn archiving_a_new_user_name_deletes_nothing() {
    let saves = vec![archived("ann", "s2", "ann-file")];
    let (kept, stale) = MudrunnerSave::remove_user_saves(saves, "bob");
    assert_eq!(stale, None);
    assert_eq!(kept.len(), 1);
}

#[test]
fn replaced_save_without_backup_file_deletes_nothing() {
    let saves = vec![MudrunnerSave::new("bob".to_string(), at(1), "s".to_string(), None)];
    let (kept, stale) = MudrunnerSave::remove_user_saves(saves, "bob");
    assert_eq!(stale, None);
    assert!(kept.is_empty());
}

#[test]
fn archived_record_without_modification_time_is_dated_now() {
    let s = MudrunnerSave::archived("u", "o", "f".to_string(), None);
    assert!(s.timestamp().secs > 1_577_836_800);
    assert_eq!(s.user_name(), "u");
    assert_eq!(s.original_name(), "o");
}

#[test]
fn restoring_reports_a_failed_copy() {
    assert_eq!(MudrunnerSave::restore_savegame(true), Ok(()));
    assert_eq!(
        MudrunnerSave::restore_savegame(false),
        Err(AppError::FileWriteError("Couldn't restore backup.".to_string()))
    );
}

#[test]
fn cloned_save_keeps_every_field() {
    let s = archived("bob", "s1", "f1");
    let c = s.clone();
    assert_eq!(c.user_name(), "bob");
    assert_eq!(c.original_name(), "s1");
    assert_eq!(c.internal_filename(), Some("f1"));
    assert_eq!(c.timestamp(), s.timestamp());
}

#[test]
fn restoring_overwrites_the_game_save_of_that_name() {
    assert_eq!(MudrunnerSave::restore_target(Some("/cfg/saves".to_string()), "profile7"), Ok("/cfg/saves/profile7".to_string()));
    assert_eq!(MudrunnerSave::restore_target(Some("/cfg/saves/".to_string()), "profile7"), Ok("/cfg/saves/profile7".to_string()));
    assert_eq!(
        MudrunnerSave::restore_target(None, "profile7"),
        Err(AppError::MudrunnerProfileDirMissing("Mudrunner profile directory missing".to_string()))
    );
}
