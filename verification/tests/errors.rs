use mud_saver::error::{StorageFailure, BAD_REQUEST, FORBIDDEN, INTERNAL_SERVER_ERROR};
use mud_saver::AppError;

fn s(text: &str) -> String {
    text.to_string()
}

#[test]
fn description_is_the_detail_of_every_variant() {
    let all = vec![
        AppError::SettingsNotFound(s("a")),
        AppError::HomeDirNotFound(s("b")),
        AppError::MudrunnerProfileDirMissing(s("c")),
        AppError::MudrunnerArchiveDirMissing(s("d")),
        AppError::SnowRunnerProfileDirMissing(s("e")),
        AppError::SnowRunnerNoProfile(s("f")),
        AppError::FileCreateError(s("g")),
        AppError::FileWriteError(s("h")),
        AppError::AppDataDirNotFound(s("i")),
        AppError::FileReadError(s("j")),
        AppError::Unimplemented(s("k")),
        AppError::MissingParameter(s("l")),
        AppError::SavegameNotFound(s("m")),
        AppError::ProfileRestoreFailed(s("n")),
    ];
    let expected = ["a", "b", "c", "d", "e", "f", "g", "h", "i", "j", "k", "l", "m", "n"];
    for (e, d) in all.iter().zip(expected.iter()) {
        assert_eq!(e.description(), *d);
    }
}

#[test]
fn status_codes_by_variant() {
    assert_eq!(AppError::SettingsNotFound(s("x")).status_code(), 500);
    assert_eq!(AppError::HomeDirNotFound(s("x")).status_code(), 500);
    assert_eq!(AppError::MudrunnerProfileDirMissing(s("x")).status_code(), 500);
    assert_eq!(AppError::MudrunnerArchiveDirMissing(s("x")).status_code(), 500);
    assert_eq!(AppError::SnowRunnerProfileDirMissing(s("x")).status_code(), 500);
    assert_eq!(AppError::SnowRunnerNoProfile(s("x")).status_code(), 400);
    assert_eq!(AppError::FileCreateError(s("x")).status_code(), 500);
    assert_eq!(AppError::FileWriteError(s("x")).status_code(), 500);
    assert_eq!(AppError::AppDataDirNotFound(s("x")).status_code(), 500);
    assert_eq!(AppError::FileReadError(s("x")).status_code(), 500);
    assert_eq!(AppError::Unimplemented(s("x")).status_code(), 403);
    assert_eq!(AppError::MissingParameter(s("x")).status_code(), 400);
    assert_eq!(AppError::SavegameNotFound(s("x")).status_code(), 400);
    assert_eq!(AppError::ProfileRestoreFailed(s("x")).status_code(), 500);
    assert_eq!(BAD_REQUEST, 400);
    assert_eq!(FORBIDDEN, 403);
    assert_eq!(INTERNAL_SERVER_ERROR, 500);
}

#[test]
fn messages_by_variant() {
    assert_eq!(AppError::SettingsNotFound(s("x")).message(), "Settings file not found: x");
    assert_eq!(AppError::HomeDirNotFound(s("x")).message(), "Home directory could not be found: x");
    assert_eq!(
        AppError::MudrunnerProfileDirMissing(s("x")).message(),
        "Directory of Mudrunner savegames missing or corrupted"
    );
    assert_eq!(
        AppError::MudrunnerArchiveDirMissing(s("x")).message(),
        "Directory of archived Mudrunner savegames missing or corrupted"
    );
    assert_eq!(
        AppError::SnowRunnerProfileDirMissing(s("x")).message(),
        "SnowRunner profile directory not found: x"
    );
    assert_eq!(AppError::SnowRunnerNoProfile(s("x")).message(), "SnowRunner profile not found: x");
    assert_eq!(AppError::FileCreateError(s("x")).message(), "Error creating file: x");
    assert_eq!(AppError::FileWriteError(s("x")).message(), "Error writing to file: x");
    assert_eq!(AppError::AppDataDirNotFound(s("x")).message(), "AppData directory could not be found!");
    assert_eq!(AppError::FileReadError(s("x")).message(), "Error reading savegames from disk!");
    assert_eq!(AppError::Unimplemented(s("x")).message(), "Method not implemented");
    assert_eq!(AppError::MissingParameter(s("id")).message(), "Missing parameter id!");
    assert_eq!(AppError::SavegameNotFound(s("x")).message(), "Savegame not found: x");
    assert_eq!(AppError::ProfileRestoreFailed(s("x")).message(), "Profile restore failed: x");
}

#[test]
fn storage_failures_are_reported_as_errors() {
    assert_eq!(StorageFailure::HomeDirUnknown.into_error(), AppError::HomeDirNotFound(s("")));
    assert_eq!(StorageFailure::AppDataDirUnknown.into_error(), AppError::AppDataDirNotFound(s("")));
    assert_eq!(
        StorageFailure::MudrunnerDataDirUnknown.into_error(),
        AppError::MudrunnerProfileDirMissing(s("Mudrunner profile directory missing"))
    );
    assert_eq!(
        StorageFailure::BackupDirNotCreated.into_error(),
        AppError::FileWriteError(s("Unable to create data directory for backups."))
    );
    assert_eq!(
        StorageFailure::BackupNotCopied.into_error(),
        AppError::FileWriteError(s("Couldn't write backup. Whats wrong with you (or us???)?"))
    );
    assert_eq!(StorageFailure::FileNotCreated(s("denied")).into_error(), AppError::FileCreateError(s("denied")));
    assert_eq!(StorageFailure::FileNotWritten(s("full")).into_error(), AppError::FileWriteError(s("full")));
    assert_eq!(StorageFailure::ProfileNotListed.into_error(), AppError::FileReadError(s("")));
    assert_eq!(
        StorageFailure::ArchiveNotWritten.into_error(),
        AppError::FileWriteError(s("Unable to archive savegame!"))
    );
    assert_eq!(
        StorageFailure::BackupUnreadable(s("/tmp/a.zip")).into_error(),
        AppError::FileReadError(s("/tmp/a.zip"))
    );
}
