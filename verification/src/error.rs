//! The errors the application reports, with the HTTP status and the text
//! that each one is answered with.

use vstd::prelude::*;

verus! {

/// Everything that can go wrong while managing savegames. Each variant
/// carries a detail text.
#[derive(Debug, PartialEq, Eq)]
pub enum AppError {
    SettingsNotFound(String),
    HomeDirNotFound(String),
    MudrunnerProfileDirMissing(String),
    MudrunnerArchiveDirMissing(String),
    SnowRunnerProfileDirMissing(String),
    SnowRunnerNoProfile(String),
    FileCreateError(String),
    FileWriteError(String),
    AppDataDirNotFound(String),
    FileReadError(String),
    Unimplemented(String),
    MissingParameter(String),
    SavegameNotFound(String),
    ProfileRestoreFailed(String),
}

impl Clone for AppError {
    fn clone(&self) -> (res: AppError)
        ensures
            res == *self,
    {
        match self {
            AppError::SettingsNotFound(w) => AppError::SettingsNotFound(w.clone()),
            AppError::HomeDirNotFound(w) => AppError::HomeDirNotFound(w.clone()),
            AppError::MudrunnerProfileDirMissing(w) => AppError::MudrunnerProfileDirMissing(w.clone()),
            AppError::MudrunnerArchiveDirMissing(w) => AppError::MudrunnerArchiveDirMissing(w.clone()),
            AppError::SnowRunnerProfileDirMissing(w) => AppError::SnowRunnerProfileDirMissing(w.clone()),
            AppError::SnowRunnerNoProfile(w) => AppError::SnowRunnerNoProfile(w.clone()),
            AppError::FileCreateError(w) => AppError::FileCreateError(w.clone()),
            AppError::FileWriteError(w) => AppError::FileWriteError(w.clone()),
            AppError::AppDataDirNotFound(w) => AppError::AppDataDirNotFound(w.clone()),
            AppError::FileReadError(w) => AppError::FileReadError(w.clone()),
            AppError::Unimplemented(w) => AppError::Unimplemented(w.clone()),
            AppError::MissingParameter(w) => AppError::MissingParameter(w.clone()),
            AppError::SavegameNotFound(w) => AppError::SavegameNotFound(w.clone()),
            AppError::ProfileRestoreFailed(w) => AppError::ProfileRestoreFailed(w.clone()),
        }
    }
}

/// HTTP status "Bad Request".
pub const BAD_REQUEST: u16 = 400;

/// HTTP status "Forbidden".
pub const FORBIDDEN: u16 = 403;

/// HTTP status "Internal Server Error".
pub const INTERNAL_SERVER_ERROR: u16 = 500;

impl AppError {
    /// The detail text the error carries.
    pub open spec fn detail(&self) -> String {
        match self {
            AppError::SettingsNotFound(what) => *what,
            AppError::HomeDirNotFound(what) => *what,
            AppError::MudrunnerProfileDirMissing(what) => *what,
            AppError::MudrunnerArchiveDirMissing(what) => *what,
            AppError::SnowRunnerProfileDirMissing(what) => *what,
            AppError::SnowRunnerNoProfile(what) => *what,
            AppError::FileCreateError(what) => *what,
            AppError::FileWriteError(what) => *what,
            AppError::AppDataDirNotFound(what) => *what,
            AppError::FileReadError(what) => *what,
            AppError::Unimplemented(what) => *what,
            AppError::MissingParameter(what) => *what,
            AppError::SavegameNotFound(what) => *what,
            AppError::ProfileRestoreFailed(what) => *what,
        }
    }

    /// The HTTP status an error is answered with.
    pub open spec fn spec_status_code(&self) -> u16 {
        match self {
            AppError::SettingsNotFound(_) => INTERNAL_SERVER_ERROR,
            AppError::HomeDirNotFound(_) => INTERNAL_SERVER_ERROR,
            AppError::MudrunnerProfileDirMissing(_) => INTERNAL_SERVER_ERROR,
            AppError::MudrunnerArchiveDirMissing(_) => INTERNAL_SERVER_ERROR,
            AppError::SnowRunnerProfileDirMissing(_) => INTERNAL_SERVER_ERROR,
            AppError::SnowRunnerNoProfile(_) => BAD_REQUEST,
            AppError::FileCreateError(_) => INTERNAL_SERVER_ERROR,
            AppError::FileWriteError(_) => INTERNAL_SERVER_ERROR,
            AppError::AppDataDirNotFound(_) => INTERNAL_SERVER_ERROR,
            AppError::FileReadError(_) => INTERNAL_SERVER_ERROR,
            AppError::Unimplemented(_) => FORBIDDEN,
            AppError::MissingParameter(_) => BAD_REQUEST,
            AppError::SavegameNotFound(_) => BAD_REQUEST,
            AppError::ProfileRestoreFailed(_) => INTERNAL_SERVER_ERROR,
        }
    }

    /// The text shown to the user for an error.
    pub open spec fn spec_message(&self) -> Seq<char> {
        match self {
            AppError::SettingsNotFound(what) => "Settings file not found: "@ + what@,
            AppError::HomeDirNotFound(what) => "Home directory could not be found: "@ + what@,
            AppError::MudrunnerProfileDirMissing(_) => "Directory of Mudrunner savegames missing or corrupted"@,
            AppError::MudrunnerArchiveDirMissing(_) => "Directory of archived Mudrunner savegames missing or corrupted"@,
            AppError::SnowRunnerProfileDirMissing(what) => "SnowRunner profile directory not found: "@ + what@,
            AppError::SnowRunnerNoProfile(what) => "SnowRunner profile not found: "@ + what@,
            AppError::FileCreateError(what) => "Error creating file: "@ + what@,
            AppError::FileWriteError(what) => "Error writing to file: "@ + what@,
            AppError::AppDataDirNotFound(_) => "AppData directory could not be found!"@,
            AppError::FileReadError(_) => "Error reading savegames from disk!"@,
            AppError::Unimplemented(_) => "Method not implemented"@,
            AppError::MissingParameter(what) => "Missing parameter "@ + what@ + "!"@,
            AppError::SavegameNotFound(what) => "Savegame not found: "@ + what@,
            AppError::ProfileRestoreFailed(what) => "Profile restore failed: "@ + what@,
        }
    }

    /// The detail text of the error.
    pub fn description(&self) -> (res: &str)
        ensures
            res@ == self.detail()@,
    {
        match self {
            AppError::SettingsNotFound(what) => what.as_str(),
            AppError::HomeDirNotFound(what) => what.as_str(),
            AppError::MudrunnerProfileDirMissing(what) => what.as_str(),
            AppError::MudrunnerArchiveDirMissing(what) => what.as_str(),
            AppError::SnowRunnerProfileDirMissing(what) => what.as_str(),
            AppError::SnowRunnerNoProfile(what) => what.as_str(),
            AppError::FileCreateError(what) => what.as_str(),
            AppError::FileWriteError(what) => what.as_str(),
            AppError::AppDataDirNotFound(what) => what.as_str(),
            AppError::FileReadError(what) => what.as_str(),
            AppError::Unimplemented(what) => what.as_str(),
            AppError::MissingParameter(what) => what.as_str(),
            AppError::SavegameNotFound(what) => what.as_str(),
            AppError::ProfileRestoreFailed(what) => what.as_str(),
        }
    }

    /// The HTTP status of the response that reports the error: a client
    /// error for a missing profile, savegame or parameter, "forbidden" for
    /// what is not implemented, and a server error for everything else.
    pub fn status_code(&self) -> (res: u16)
        ensures
            res == self.spec_status_code(),
    {
        match self {
            AppError::SettingsNotFound(_) => INTERNAL_SERVER_ERROR,
            AppError::HomeDirNotFound(_) => INTERNAL_SERVER_ERROR,
            AppError::MudrunnerProfileDirMissing(_) => INTERNAL_SERVER_ERROR,
            AppError::MudrunnerArchiveDirMissing(_) => INTERNAL_SERVER_ERROR,
            AppError::SnowRunnerProfileDirMissing(_) => INTERNAL_SERVER_ERROR,
            AppError::SnowRunnerNoProfile(_) => BAD_REQUEST,
            AppError::FileCreateError(_) => INTERNAL_SERVER_ERROR,
            AppError::FileWriteError(_) => INTERNAL_SERVER_ERROR,
            AppError::AppDataDirNotFound(_) => INTERNAL_SERVER_ERROR,
            AppError::FileReadError(_) => INTERNAL_SERVER_ERROR,
            AppError::Unimplemented(_) => FORBIDDEN,
            AppError::MissingParameter(_) => BAD_REQUEST,
            AppError::SavegameNotFound(_) => BAD_REQUEST,
            AppError::ProfileRestoreFailed(_) => INTERNAL_SERVER_ERROR,
        }
    }

    /// The text shown to the user for the error; it also forms the body of
    /// the HTTP response that reports it.
    pub fn message(&self) -> (res: String)
        ensures
            res@ == self.spec_message(),
    {
        match self {
            AppError::SettingsNotFound(what) => String::from_str("Settings file not found: ").concat(what.as_str()),
            AppError::HomeDirNotFound(what) => String::from_str("Home directory could not be found: ").concat(what.as_str()),
            AppError::MudrunnerProfileDirMissing(_) => String::from_str("Directory of Mudrunner savegames missing or corrupted"),
            AppError::MudrunnerArchiveDirMissing(_) => String::from_str("Directory of archived Mudrunner savegames missing or corrupted"),
            AppError::SnowRunnerProfileDirMissing(what) => String::from_str("SnowRunner profile directory not found: ").concat(what.as_str()),
            AppError::SnowRunnerNoProfile(what) => String::from_str("SnowRunner profile not found: ").concat(what.as_str()),
            AppError::FileCreateError(what) => String::from_str("Error creating file: ").concat(what.as_str()),
            AppError::FileWriteError(what) => String::from_str("Error writing to file: ").concat(what.as_str()),
            AppError::AppDataDirNotFound(_) => String::from_str("AppData directory could not be found!"),
            AppError::FileReadError(_) => String::from_str("Error reading savegames from disk!"),
            AppError::Unimplemented(_) => String::from_str("Method not implemented"),
            AppError::MissingParameter(what) => String::from_str("Missing parameter ").concat(what.as_str()).concat("!"),
            AppError::SavegameNotFound(what) => String::from_str("Savegame not found: ").concat(what.as_str()),
            AppError::ProfileRestoreFailed(what) => String::from_str("Profile restore failed: ").concat(what.as_str()),
        }
    }
}

/// Every error is answered with one of three statuses: "bad request" for
/// an unknown profile, an unknown savegame or a missing parameter,
/// "forbidden" for what is not implemented, and "internal server error"
/// for all the rest.
pub proof fn lemma_status_classes(e: AppError)
    ensures
        e.spec_status_code() == BAD_REQUEST <==> (e is SnowRunnerNoProfile || e is SavegameNotFound
            || e is MissingParameter),
        e.spec_status_code() == FORBIDDEN <==> e is Unimplemented,
        e.spec_status_code() == INTERNAL_SERVER_ERROR <==> !(e is SnowRunnerNoProfile
            || e is SavegameNotFound || e is MissingParameter || e is Unimplemented),
{
}

/// A failure of the work on the file system, as the operations that meet it
/// report it.
#[derive(Debug, PartialEq, Eq)]
pub enum StorageFailure {
    /// The user's home, configuration or documents directory is unknown.
    HomeDirUnknown,
    /// The application's data directory is unknown or cannot be created.
    AppDataDirUnknown,
    /// The game's MudRunner savegame directory cannot be found.
    MudrunnerDataDirUnknown,
    /// The directory for MudRunner backups cannot be created.
    BackupDirNotCreated,
    /// A MudRunner savegame cannot be copied to the backups.
    BackupNotCopied,
    /// A file cannot be created; the system's message.
    FileNotCreated(String),
    /// A file cannot be written; the system's message.
    FileNotWritten(String),
    /// A SnowRunner profile's directory cannot be listed.
    ProfileNotListed,
    /// The archive of a SnowRunner profile cannot be written.
    ArchiveNotWritten,
    /// The archive file of a backup, at the given path, cannot be read.
    BackupUnreadable(String),
}

impl StorageFailure {
    /// Whether `e` is the error the failure is reported as.
    pub open spec fn reports(self, e: AppError) -> bool {
        match self {
        StorageFailure::HomeDirUnknown => e matches AppError::HomeDirNotFound(d) && d@
            == Seq::<char>::empty(),
        StorageFailure::AppDataDirUnknown => e matches AppError::AppDataDirNotFound(d)
            && d@ == Seq::<char>::empty(),
        StorageFailure::MudrunnerDataDirUnknown => e matches AppError::MudrunnerProfileDirMissing(
            d,
        ) && d@ == "Mudrunner profile directory missing"@,
        StorageFailure::BackupDirNotCreated => e matches AppError::FileWriteError(d) && d@
            == "Unable to create data directory for backups."@,
        StorageFailure::BackupNotCopied => e matches AppError::FileWriteError(d) && d@
            == "Couldn't write backup. Whats wrong with you (or us???)?"@,
        StorageFailure::FileNotCreated(m) => e matches AppError::FileCreateError(d) && d
            == m,
        StorageFailure::FileNotWritten(m) => e matches AppError::FileWriteError(d) && d
            == m,
        StorageFailure::ProfileNotListed => e matches AppError::FileReadError(d) && d@
            == Seq::<char>::empty(),
        StorageFailure::ArchiveNotWritten => e matches AppError::FileWriteError(d) && d@
            == "Unable to archive savegame!"@,
        StorageFailure::BackupUnreadable(path) => e matches AppError::FileReadError(d)
            && d == path,
    }
    }

    /// The error a failure is reported as.
    pub fn into_error(self) -> (res: AppError)
        ensures
            self.reports(res),
    {
        match self {
            StorageFailure::HomeDirUnknown => AppError::HomeDirNotFound(String::new()),
            StorageFailure::AppDataDirUnknown => AppError::AppDataDirNotFound(String::new()),
            StorageFailure::MudrunnerDataDirUnknown => AppError::MudrunnerProfileDirMissing(
                String::from_str("Mudrunner profile directory missing"),
            ),
            StorageFailure::BackupDirNotCreated => AppError::FileWriteError(
                String::from_str("Unable to create data directory for backups."),
            ),
            StorageFailure::BackupNotCopied => AppError::FileWriteError(
                String::from_str("Couldn't write backup. Whats wrong with you (or us???)?"),
            ),
            StorageFailure::FileNotCreated(m) => AppError::FileCreateError(m),
            StorageFailure::FileNotWritten(m) => AppError::FileWriteError(m),
            StorageFailure::ProfileNotListed => AppError::FileReadError(String::new()),
            StorageFailure::ArchiveNotWritten => AppError::FileWriteError(
                String::from_str("Unable to archive savegame!"),
            ),
            StorageFailure::BackupUnreadable(path) => AppError::FileReadError(path),
        }
    }
}

} // verus!
