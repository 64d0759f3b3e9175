use mud_saver::ids::{new_archive_id, new_backup_name};
use mud_saver::mud_runner_archive::{BackupDir, MudArchiveAction, MudArchiveEvent, MudArchiveJob};
use mud_saver::mud_runner_saves::MudrunnerMetadata;
use mud_saver::snowrunner::{ProfileDirEntry, ProfileFileEntry, SnowRunnerMetaData};
use mud_saver::snowrunner_archive::{ArchiveAction, ArchiveEvent, ArchiveJob};
use mud_saver::snowrunner_backups::{
    DeleteAction, DeleteEvent, DeleteJob, RestoreAction, RestoreEvent, RestoreJob,
};
use mud_saver::snowrunner_profiles::{ProfilesAction, ProfilesEvent, ProfilesJob};
use mud_saver::error::StorageFailure;
use mud_saver::{AppError, MudrunnerSave, SavedProfile, SnowRunnerProfile, Timestamp};

fn ts(secs: i64) -> Timestamp {
    Timestamp { secs, nanos: 0 }
}

fn saved(name: &str, path: &str, uuid: &str) -> SavedProfile {
    SavedProfile { name: name.to_string(), saved_on: ts(5), file_path: path.to_string(), uuid: uuid.to_string() }
}

fn snow_profile(backups: Vec<SavedProfile>) -> SnowRunnerProfile {
    SnowRunnerProfile {
        uuid: "0123456789abcdef0123456789abcdef".to_string(),
        modified: ts(1),
        meta_data: SnowRunnerMetaData { stored_profiles: backups, alias: Some("me".to_string()) },
    }
}

fn file(n: &str) -> Option<ProfileFileEntry> {
    Some(ProfileFileEntry { is_dir: false, name: Some(n.to_string()) })
}

fn is_finish_ok(a: &ArchiveAction) -> bool {
    matches!(a, ArchiveAction::Finish(Ok(())))
}

#[test]
fn fresh_ids_have_the_uuid_shapes() {
    let id = new_archive_id();
    let h = id.hyphenated();
    assert_eq!(h.len(), 36);
    for (i, c) in h.chars().enumerate() {
        if i == 8 || i == 13 || i == 18 || i == 23 {
            assert_eq!(c, '-');
        } else {
            assert!(c.is_ascii_hexdigit() && !c.is_ascii_uppercase());
        }
    }
    assert_eq!(id.simple().len(), 32);
    assert_eq!(id.simple(), h.replace('-', ""));
    let name = new_backup_name();
    assert_eq!(name.len(), 36);
    assert_ne!(name, h);
}

#[test]
fn archive_of_an_unlistable_profile_is_refused() {
    let mut p = snow_profile(vec![]);
    let mut job = ArchiveJob::new("weekend");
    let a = p.archive_savegame(&mut job, ArchiveEvent::ProfileListed(None));
    assert!(matches!(a, ArchiveAction::Finish(Err(AppError::FileReadError(ref d))) if d.is_empty()));
    assert!(p.meta_data.stored_profiles.is_empty());
}

#[test]
fn archive_of_an_empty_profile_is_refused() {
    let mut p = snow_profile(vec![]);
    let mut job = ArchiveJob::new("weekend");
    let a = p.archive_savegame(&mut job, ArchiveEvent::ProfileListed(Some(vec![])));
    assert!(matches!(a, ArchiveAction::Finish(Err(AppError::SnowRunnerNoProfile(ref d))) if d == "No save data found"));
    // the job stays finished
    let again = p.archive_savegame(&mut job, ArchiveEvent::ZipWritten(true));
    assert!(matches!(again, ArchiveAction::Finish(Err(AppError::SnowRunnerNoProfile(_)))));
    assert!(p.meta_data.stored_profiles.is_empty());
}

#[test]
fn archive_records_the_backup_under_the_id_of_its_file() {
    let mut p = snow_profile(vec![saved("old", "/d/old.zip", "u1")]);
    let mut job = ArchiveJob::new("weekend");
    let entries = vec![file("a.cfg"), Some(ProfileFileEntry { is_dir: true, name: Some("sub".to_string()) }), file("b.dat")];
    let a = p.archive_savegame(&mut job, ArchiveEvent::ProfileListed(Some(entries)));
    assert!(matches!(a, ArchiveAction::LocateDataDir));
    let a = p.archive_savegame(&mut job, ArchiveEvent::DataDirLocated(Some("/data/sr-data".to_string())));
    let target = match a {
        ArchiveAction::CreateFile(t) => t,
        other => panic!("unexpected {:?}", other),
    };
    assert!(target.starts_with("/data/sr-data/"));
    assert!(target.ends_with(".zip"));
    assert_eq!(target.len(), "/data/sr-data/".len() + 40);
    // an event out of turn repeats the request
    let a = p.archive_savegame(&mut job, ArchiveEvent::ZipWritten(true));
    assert!(matches!(a, ArchiveAction::CreateFile(ref t) if *t == target));
    let a = p.archive_savegame(&mut job, ArchiveEvent::FileCreated(Ok(())));
    assert!(matches!(a, ArchiveAction::WriteZip(ref f) if *f == vec!["a.cfg".to_string(), "b.dat".to_string()]));
    let a = p.archive_savegame(&mut job, ArchiveEvent::ZipWritten(true));
    assert!(matches!(a, ArchiveAction::StoreMetadata));
    assert_eq!(p.meta_data.stored_profiles.len(), 2);
    let rec = p.meta_data.stored_profiles[1].clone();
    assert_eq!(rec.name, "weekend");
    assert_eq!(rec.file_path, target);
    let file_name = target.rsplit('/').next().unwrap();
    assert_eq!(file_name, format!("{}.zip", &file_name[..36]));
    assert_eq!(rec.uuid, file_name[..36].replace('-', ""));
    assert!(rec.saved_on.secs > 1_577_836_800);
    let a = p.archive_savegame(&mut job, ArchiveEvent::MetadataStored(Ok(())));
    assert!(is_finish_ok(&a));
    assert_eq!(p.get_save(&rec.uuid).unwrap().name, "weekend");
}

#[test]
fn archive_failures_in_turn() {
    let start = |p: &mut SnowRunnerProfile, job: &mut ArchiveJob, files: Vec<Option<ProfileFileEntry>>| {
        p.archive_savegame(job, ArchiveEvent::ProfileListed(Some(files)));
    };
    // no data directory
    let mut p = snow_profile(vec![]);
    let mut job = ArchiveJob::new("n");
    start(&mut p, &mut job, vec![file("a")]);
    let a = p.archive_savegame(&mut job, ArchiveEvent::DataDirLocated(None));
    assert!(matches!(a, ArchiveAction::Finish(Err(AppError::AppDataDirNotFound(_)))));
    // file not created
    let mut job = ArchiveJob::new("n");
    start(&mut p, &mut job, vec![file("a")]);
    p.archive_savegame(&mut job, ArchiveEvent::DataDirLocated(Some("/d".to_string())));
    let a = p.archive_savegame(&mut job, ArchiveEvent::FileCreated(Err("denied".to_string())));
    assert!(matches!(a, ArchiveAction::Finish(Err(AppError::FileCreateError(ref m))) if m == "denied"));
    // a file whose name is not valid UTF-8
    let mut job = ArchiveJob::new("n");
    start(&mut p, &mut job, vec![file("a"), Some(ProfileFileEntry { is_dir: false, name: None })]);
    p.archive_savegame(&mut job, ArchiveEvent::DataDirLocated(Some("/d".to_string())));
    let a = p.archive_savegame(&mut job, ArchiveEvent::FileCreated(Ok(())));
    assert!(matches!(a, ArchiveAction::RemoveArchive(ref t) if t.starts_with("/d/") && t.ends_with(".zip")));
    let a = p.archive_savegame(&mut job, ArchiveEvent::ArchiveRemoved);
    assert!(matches!(a, ArchiveAction::Finish(Err(AppError::FileWriteError(ref m))) if m == "Unable to archive savegame!"));
    // zip not written: the partly written file is deleted first
    let mut job = ArchiveJob::new("n");
    start(&mut p, &mut job, vec![file("a")]);
    let created = p.archive_savegame(&mut job, ArchiveEvent::DataDirLocated(Some("/d".to_string())));
    p.archive_savegame(&mut job, ArchiveEvent::FileCreated(Ok(())));
    let a = p.archive_savegame(&mut job, ArchiveEvent::ZipWritten(false));
    match (&created, &a) {
        (ArchiveAction::CreateFile(c), ArchiveAction::RemoveArchive(r)) => assert_eq!(c, r),
        other => panic!("unexpected {:?}", other),
    }
    // an event out of turn repeats the request
    let again = p.archive_savegame(&mut job, ArchiveEvent::ZipWritten(true));
    assert!(matches!(again, ArchiveAction::RemoveArchive(_)));
    let a = p.archive_savegame(&mut job, ArchiveEvent::ArchiveRemoved);
    assert!(matches!(a, ArchiveAction::Finish(Err(AppError::FileWriteError(ref m))) if m == "Unable to archive savegame!"));
    assert!(p.meta_data.stored_profiles.is_empty());
    // metadata not stored: the backup stays recorded, the failure is reported
    let mut job = ArchiveJob::new("n");
    start(&mut p, &mut job, vec![file("a")]);
    p.archive_savegame(&mut job, ArchiveEvent::DataDirLocated(Some("/d".to_string())));
    p.archive_savegame(&mut job, ArchiveEvent::FileCreated(Ok(())));
    p.archive_savegame(&mut job, ArchiveEvent::ZipWritten(true));
    let a = p.archive_savegame(&mut job, ArchiveEvent::MetadataStored(Err(StorageFailure::FileNotWritten("full".to_string()))));
    assert!(matches!(a, ArchiveAction::Finish(Err(AppError::FileWriteError(ref m))) if m == "full"));
    assert_eq!(p.meta_data.stored_profiles.len(), 1);
}

#[test]
fn deleting_an_unknown_backup_is_an_error() {
    let mut p = snow_profile(vec![saved("a", "p1", "u1")]);
    let mut job = DeleteJob::new("u9");
    let a = p.delete_archived_savegame(&mut job, DeleteEvent::Started);
    assert!(matches!(a, DeleteAction::Finish(Err(AppError::SavegameNotFound(ref d))) if d == "u9"));
    assert_eq!(p.meta_data.stored_profiles.len(), 1);
}

#[test]
fn deleted_backup_is_no_longer_found() {
    let mut p = snow_profile(vec![saved("a", "p1", "u1"), saved("b", "p2", "u2"), saved("c", "p3", "u1")]);
    let mut job = DeleteJob::new("u1");
    let a = p.delete_archived_savegame(&mut job, DeleteEvent::Started);
    assert!(matches!(a, DeleteAction::RemoveFile(ref f) if f == "p1"));
    let a = p.delete_archived_savegame(&mut job, DeleteEvent::FileRemoved(true));
    assert!(matches!(a, DeleteAction::StoreMetadata));
    assert_eq!(p.meta_data.stored_profiles.len(), 1);
    assert!(p.get_save("u1").is_err());
    assert_eq!(p.get_save("u2").unwrap().name, "b");
    let a = p.delete_archived_savegame(&mut job, DeleteEvent::MetadataStored(Ok(())));
    assert!(matches!(a, DeleteAction::Finish(Ok(()))));
}

#[test]
fn failed_deletion_keeps_the_backup() {
    let mut p = snow_profile(vec![saved("a", "p1", "u1")]);
    let mut job = DeleteJob::new("u1");
    p.delete_archived_savegame(&mut job, DeleteEvent::Started);
    let a = p.delete_archived_savegame(&mut job, DeleteEvent::FileRemoved(false));
    assert!(matches!(a, DeleteAction::Finish(Err(AppError::FileWriteError(ref d))) if d == "Delete failed"));
    assert_eq!(p.meta_data.stored_profiles.len(), 1);
}

#[test]
fn restoring_an_unknown_backup_is_an_error() {
    let mut p = snow_profile(vec![saved("a", "p1", "u1")]);
    let mut job = RestoreJob::new("u9");
    let a = p.restore_backup(&mut job, RestoreEvent::Started);
    assert!(matches!(a, RestoreAction::Finish(Err(AppError::SavegameNotFound(ref d))) if d == "u9"));
}

#[test]
fn unreadable_backup_archive_is_reported_with_its_path() {
    let mut p = snow_profile(vec![saved("a", "/d/x.zip", "u1")]);
    let mut job = RestoreJob::new("u1");
    assert!(matches!(p.restore_backup(&mut job, RestoreEvent::Started), RestoreAction::LocateProfileDir));
    let a = p.restore_backup(&mut job, RestoreEvent::ProfileDirLocated(true));
    assert!(matches!(a, RestoreAction::OpenArchive(ref f) if f == "/d/x.zip"));
    let a = p.restore_backup(&mut job, RestoreEvent::ArchiveOpened(false));
    assert!(matches!(a, RestoreAction::Finish(Err(AppError::FileReadError(ref f))) if f == "/d/x.zip"));
    assert_eq!(p.modified, ts(1));
}

#[test]
fn restore_without_profile_directory_is_an_error() {
    let mut p = snow_profile(vec![saved("a", "/d/x.zip", "u1")]);
    let mut job = RestoreJob::new("u1");
    p.restore_backup(&mut job, RestoreEvent::Started);
    let a = p.restore_backup(&mut job, RestoreEvent::ProfileDirLocated(false));
    assert!(matches!(a, RestoreAction::Finish(Err(AppError::HomeDirNotFound(_)))));
}

#[test]
fn complete_restore_dates_the_profile_from_the_backup() {
    let mut p = snow_profile(vec![saved("a", "/d/x.zip", "u1")]);
    let mut job = RestoreJob::new("u1");
    p.restore_backup(&mut job, RestoreEvent::Started);
    p.restore_backup(&mut job, RestoreEvent::ProfileDirLocated(true));
    assert!(matches!(p.restore_backup(&mut job, RestoreEvent::ArchiveOpened(true)), RestoreAction::ReplaceFiles));
    let a = p.restore_backup(&mut job, RestoreEvent::FilesReplaced { restored: 3, total: 3 });
    assert!(matches!(a, RestoreAction::Finish(Ok(()))));
    assert_eq!(p.modified, ts(5));
}

#[test]
fn partial_restore_is_an_error() {
    let mut p = snow_profile(vec![saved("a", "/d/x.zip", "u1")]);
    let mut job = RestoreJob::new("u1");
    p.restore_backup(&mut job, RestoreEvent::Started);
    p.restore_backup(&mut job, RestoreEvent::ProfileDirLocated(true));
    p.restore_backup(&mut job, RestoreEvent::ArchiveOpened(true));
    let a = p.restore_backup(&mut job, RestoreEvent::FilesReplaced { restored: 2, total: 3 });
    assert!(matches!(a, RestoreAction::Finish(Err(AppError::ProfileRestoreFailed(ref d))) if d == "Not all saved files could be restored"));
    assert_eq!(p.modified, ts(1));
}

#[test]
fn restoring_right_after_archiving_finds_the_new_backup() {
    let mut p = snow_profile(vec![saved("old", "/d/old.zip", "u1")]);
    let mut job = ArchiveJob::new("weekend");
    p.archive_savegame(&mut job, ArchiveEvent::ProfileListed(Some(vec![file("a.cfg"), file("b.dat")])));
    let target = match p.archive_savegame(&mut job, ArchiveEvent::DataDirLocated(Some("/d".to_string()))) {
        ArchiveAction::CreateFile(t) => t,
        other => panic!("unexpected {:?}", other),
    };
    p.archive_savegame(&mut job, ArchiveEvent::FileCreated(Ok(())));
    p.archive_savegame(&mut job, ArchiveEvent::ZipWritten(true));
    let a = p.archive_savegame(&mut job, ArchiveEvent::MetadataStored(Ok(())));
    assert!(is_finish_ok(&a));
    let rec = p.meta_data.stored_profiles[1].clone();

    let mut job = RestoreJob::new(&rec.uuid);
    assert!(matches!(p.restore_backup(&mut job, RestoreEvent::Started), RestoreAction::LocateProfileDir));
    let a = p.restore_backup(&mut job, RestoreEvent::ProfileDirLocated(true));
    assert!(matches!(a, RestoreAction::OpenArchive(ref f) if *f == target));
    assert!(matches!(p.restore_backup(&mut job, RestoreEvent::ArchiveOpened(true)), RestoreAction::ReplaceFiles));
    let a = p.restore_backup(&mut job, RestoreEvent::FilesReplaced { restored: 2, total: 2 });
    assert!(matches!(a, RestoreAction::Finish(Ok(()))));
    assert_eq!(p.modified, rec.saved_on);
    assert_eq!(p.meta_data.stored_profiles.len(), 2);
}

fn profile_dir(name: Option<&str>, is_dir: bool, len: usize, modified: Option<Timestamp>) -> ProfileDirEntry {
    ProfileDirEntry { is_dir, name_len: len, name: name.map(String::from), modified }
}

#[test]
fn profiles_are_gathered_with_their_metadata() {
    let a = "0123456789abcdef0123456789abcdef";
    let b = "fedcba9876543210fedcba9876543210";
    let listing = vec![
        profile_dir(Some("short"), true, 5, None),
        profile_dir(Some(a), true, 32, Some(ts(10))),
        profile_dir(None, true, 32, None),
        profile_dir(Some(b), false, 32, None),
        profile_dir(Some(b), true, 32, None),
    ];
    let mut job = ProfilesJob::new();
    let act = SnowRunnerProfile::get_available_snowrunner_profiles(&mut job, ProfilesEvent::Listed(Ok(listing)));
    assert!(matches!(act, ProfilesAction::LoadMetadata(ref n) if n == a));
    let meta = SnowRunnerMetaData { stored_profiles: vec![saved("x", "p", "u")], alias: None };
    let act = SnowRunnerProfile::get_available_snowrunner_profiles(&mut job, ProfilesEvent::MetadataLoaded(meta));
    assert!(matches!(act, ProfilesAction::LoadMetadata(ref n) if n == b));
    let act = SnowRunnerProfile::get_available_snowrunner_profiles(&mut job, ProfilesEvent::MetadataLoaded(SnowRunnerMetaData::default()));
    assert!(matches!(act, ProfilesAction::Finish(Ok(()))));
    let profiles = job.into_profiles();
    assert_eq!(profiles.len(), 2);
    assert_eq!(profiles[0].uuid, a);
    assert_eq!(profiles[0].modified, ts(10));
    assert_eq!(profiles[0].meta_data.stored_profiles.len(), 1);
    assert_eq!(profiles[1].uuid, b);
    assert!(profiles[1].modified.secs > 1_577_836_800);
}

#[test]
fn gathering_profiles_reports_a_missing_or_empty_directory() {
    let mut job = ProfilesJob::new();
    let act = SnowRunnerProfile::get_available_snowrunner_profiles(&mut job, ProfilesEvent::Listed(Err("gone".to_string())));
    assert!(matches!(act, ProfilesAction::Finish(Err(AppError::SnowRunnerProfileDirMissing(ref m))) if m == "gone"));
    assert!(job.into_profiles().is_empty());
    let mut job = ProfilesJob::new();
    let act = SnowRunnerProfile::get_available_snowrunner_profiles(&mut job, ProfilesEvent::Listed(Ok(vec![profile_dir(Some("x"), true, 1, None)])));
    assert!(matches!(act, ProfilesAction::Finish(Err(AppError::SnowRunnerNoProfile(ref m))) if m == "No SnowRunner profiles found"));
}

#[test]
fn only_unnamed_profile_dirs_gather_nothing() {
    let mut job = ProfilesJob::new();
    let act = SnowRunnerProfile::get_available_snowrunner_profiles(
        &mut job,
        ProfilesEvent::Listed(Ok(vec![profile_dir(None, true, 32, None)])),
    );
    assert!(matches!(act, ProfilesAction::Finish(Ok(()))));
    assert!(job.into_profiles().is_empty());
}

fn mud(user: &str, original: &str, file: Option<&str>) -> MudrunnerSave {
    MudrunnerSave::new(user.to_string(), ts(3), original.to_string(), file.map(String::from))
}

#[test]
fn mudrunner_archive_replaces_the_earlier_save_of_the_user() {
    let existing = vec![mud("bob", "s1", Some("/b/old")), mud("ann", "s2", Some("/b/ann")), mud("bob", "s3", None)];
    let mut job = MudArchiveJob::new("bob", "profile7");
    let a = MudrunnerSave::archive_savegame(&mut job, MudArchiveEvent::MetadataRead(MudrunnerMetadata::Loaded(existing)));
    assert!(matches!(a, MudArchiveAction::RemoveFile(ref f) if f == "/b/old"));
    let a = MudrunnerSave::archive_savegame(&mut job, MudArchiveEvent::FileRemoved);
    assert!(matches!(a, MudArchiveAction::LocateGameDir));
    let a = MudrunnerSave::archive_savegame(&mut job, MudArchiveEvent::GameDirLocated(Some("/game".to_string())));
    assert!(matches!(a, MudArchiveAction::LocateBackupDir));
    let a = MudrunnerSave::archive_savegame(&mut job, MudArchiveEvent::BackupDirLocated(BackupDir::Ready("/backups".to_string())));
    let (from, to) = match a {
        MudArchiveAction::CopySave { from, to } => (from, to),
        other => panic!("unexpected {:?}", other),
    };
    assert_eq!(from, "/game/profile7");
    assert!(to.starts_with("/backups/"));
    assert_eq!(to.len(), "/backups/".len() + 36);
    let a = MudrunnerSave::archive_savegame(&mut job, MudArchiveEvent::SaveCopied { copied: true, modified: Some(ts(9)) });
    assert!(matches!(a, MudArchiveAction::WriteMetadata));
    let saves = job.saves_to_write().unwrap();
    assert_eq!(saves.len(), 2);
    assert_eq!(saves[0].user_name(), "ann");
    assert_eq!(saves[1].user_name(), "bob");
    assert_eq!(saves[1].original_name(), "profile7");
    assert_eq!(saves[1].internal_filename(), Some(to.as_str()));
    assert_eq!(saves[1].timestamp(), ts(9));
    let a = MudrunnerSave::archive_savegame(&mut job, MudArchiveEvent::MetadataWritten(Ok(())));
    assert!(matches!(a, MudArchiveAction::Finish(Ok(()))));
}

#[test]
fn mudrunner_archive_failures() {
    let mut job = MudArchiveJob::new("bob", "p");
    let a = MudrunnerSave::archive_savegame(&mut job, MudArchiveEvent::MetadataRead(MudrunnerMetadata::Corrupt));
    assert!(matches!(a, MudArchiveAction::Finish(Err(AppError::FileReadError(ref d))) if d == "Error reading \"MudrunnerMetadata.json\""));

    let mut job = MudArchiveJob::new("bob", "p");
    let a = MudrunnerSave::archive_savegame(&mut job, MudArchiveEvent::MetadataRead(MudrunnerMetadata::Missing));
    assert!(matches!(a, MudArchiveAction::LocateGameDir));
    let a = MudrunnerSave::archive_savegame(&mut job, MudArchiveEvent::GameDirLocated(None));
    assert!(matches!(a, MudArchiveAction::Finish(Err(AppError::MudrunnerProfileDirMissing(_)))));

    let mut job = MudArchiveJob::new("bob", "p");
    MudrunnerSave::archive_savegame(&mut job, MudArchiveEvent::MetadataRead(MudrunnerMetadata::Missing));
    MudrunnerSave::archive_savegame(&mut job, MudArchiveEvent::GameDirLocated(Some("/g".to_string())));
    let a = MudrunnerSave::archive_savegame(&mut job, MudArchiveEvent::BackupDirLocated(BackupDir::NotCreated));
    assert!(matches!(a, MudArchiveAction::Finish(Err(AppError::FileWriteError(ref d))) if d == "Unable to create data directory for backups."));

    let mut job = MudArchiveJob::new("bob", "p");
    MudrunnerSave::archive_savegame(&mut job, MudArchiveEvent::MetadataRead(MudrunnerMetadata::Missing));
    MudrunnerSave::archive_savegame(&mut job, MudArchiveEvent::GameDirLocated(Some("/g".to_string())));
    MudrunnerSave::archive_savegame(&mut job, MudArchiveEvent::BackupDirLocated(BackupDir::Ready("/b".to_string())));
    let a = MudrunnerSave::archive_savegame(&mut job, MudArchiveEvent::SaveCopied { copied: false, modified: None });
    assert!(matches!(a, MudArchiveAction::Finish(Err(AppError::FileWriteError(ref d))) if d.starts_with("Couldn't write backup")));

    let mut job = MudArchiveJob::new("bob", "p");
    MudrunnerSave::archive_savegame(&mut job, MudArchiveEvent::MetadataRead(MudrunnerMetadata::Missing));
    MudrunnerSave::archive_savegame(&mut job, MudArchiveEvent::GameDirLocated(Some("/g".to_string())));
    MudrunnerSave::archive_savegame(&mut job, MudArchiveEvent::BackupDirLocated(BackupDir::Ready("/b".to_string())));
    MudrunnerSave::archive_savegame(&mut job, MudArchiveEvent::SaveCopied { copied: true, modified: None });
    let a = MudrunnerSave::archive_savegame(&mut job, MudArchiveEvent::MetadataWritten(Err("disk full".to_string())));
    assert!(matches!(a, MudArchiveAction::Finish(Err(AppError::FileWriteError(ref d))) if d == "disk full"));
}
