//! Archiving a MudRunner savegame, step by step: the decisions are taken
//! here, the work on the file system is asked for through actions and its
//! results come back as events.

use vstd::prelude::*;

use crate::error::AppError;
use crate::ids::{hyphenated_uuid_text, is_hex_char, lemma_hyphenated_uuid_text, new_backup_name};
use crate::mud_runner_saves::{
    corrupt_metadata_detail, missing_profile_dir_detail, other_user, same_user, MudrunnerMetadata,
    MudrunnerSave,
};
use crate::search::{first_index, lemma_filter_positions, lemma_first_index};
use crate::paths::{is_plain_file_name, is_verbatim, join_path, joined};
use crate::snowrunner_archive::copy_outcome;
use crate::timestamp::Timestamp;

verus! {

/// What became of the directory of the MudRunner backups.
#[derive(Debug)]
pub enum BackupDir {
    /// It is unknown.
    Unknown,
    /// It did not exist and could not be created.
    NotCreated,
    /// It exists, at this path.
    Ready(String),
}

/// Where an archive of a MudRunner savegame stands.
pub enum MudArchiveStage {
    /// Waiting for the archive metadata file to be read.
    Reading,
    /// Waiting for the backup file of the savegame archived before under
    /// the same user name to be deleted; `saves` are the others.
    Removing { saves: Vec<MudrunnerSave>, stale: String },
    /// Waiting for the game's savegame directory.
    LocatingGame { saves: Vec<MudrunnerSave> },
    /// Waiting for the directory of the backups; `from` is the savegame.
    LocatingBackups { saves: Vec<MudrunnerSave>, from: String },
    /// Waiting for the savegame to be copied from `from` to `to`.
    Copying { saves: Vec<MudrunnerSave>, from: String, to: String },
    /// Waiting for `saves` to be written to the metadata file.
    Writing { saves: Vec<MudrunnerSave> },
    /// Done, with this outcome.
    Finished(Result<(), AppError>),
}

/// What the archive asks of the file system next.
#[derive(Debug)]
pub enum MudArchiveAction {
    /// Read the archive metadata file.
    ReadMetadata,
    /// Delete the file at this path; whether that succeeds does not matter.
    RemoveFile(String),
    /// Find the game's savegame directory.
    LocateGameDir,
    /// Find the directory of the backups, creating it where it is missing.
    LocateBackupDir,
    /// Copy the savegame at `from` to `to`, and tell when `from` was last
    /// modified.
    CopySave { from: String, to: String },
    /// Write the savegames held by the job to the metadata file.
    WriteMetadata,
    /// The archive is done, with this outcome.
    Finish(Result<(), AppError>),
}

/// What the file system answered.
pub enum MudArchiveEvent {
    /// What reading the metadata file gave.
    MetadataRead(MudrunnerMetadata),
    /// The file was deleted, or not.
    FileRemoved,
    /// The game's savegame directory, as text (`None` where unknown).
    GameDirLocated(Option<String>),
    /// The directory of the backups.
    BackupDirLocated(BackupDir),
    /// Whether the savegame was copied, and when it was last modified
    /// (where the file system could tell).
    SaveCopied { copied: bool, modified: Option<Timestamp> },
    /// Whether the metadata file was written (`Err` with the system's message).
    MetadataWritten(Result<(), String>),
}

/// An archive of the game's savegame `original_name` under the name `user_name`.
pub struct MudArchiveJob {
    user_name: String,
    original_name: String,
    stage: MudArchiveStage,
}

/// Whether `action` is the one that a stage waits on.
pub open spec fn mud_archive_awaits(stage: MudArchiveStage, action: MudArchiveAction) -> bool {
    match stage {
        MudArchiveStage::Reading => action is ReadMetadata,
        MudArchiveStage::Removing { stale, .. } => action == MudArchiveAction::RemoveFile(stale),
        MudArchiveStage::LocatingGame { .. } => action is LocateGameDir,
        MudArchiveStage::LocatingBackups { .. } => action is LocateBackupDir,
        MudArchiveStage::Copying { from, to, .. } => action == MudArchiveAction::CopySave { from, to },
        MudArchiveStage::Writing { .. } => action is WriteMetadata,
        MudArchiveStage::Finished(r) => action == MudArchiveAction::Finish(r),
    }
}

/// Whether `event` answers what the stage waits on.
pub open spec fn mud_archive_answers(stage: MudArchiveStage, event: MudArchiveEvent) -> bool {
    ||| stage is Reading && event is MetadataRead
    ||| stage is Removing && event is FileRemoved
    ||| stage is LocatingGame && event is GameDirLocated
    ||| stage is LocatingBackups && event is BackupDirLocated
    ||| stage is Copying && event is SaveCopied
    ||| stage is Writing && event is MetadataWritten
}

/// The stage that goes on, with `saves`, once the savegame archived before
/// under the same user name (if any) is dealt with: its backup file, if it
/// has one, is deleted first.
pub open spec fn after_reading(
    saves: Seq<MudrunnerSave>,
    stale: Option<Seq<char>>,
    next: MudArchiveStage,
    action: MudArchiveAction,
) -> bool {
    match stale {
        Some(f) => next matches MudArchiveStage::Removing { saves: s, stale: p } && s@ == saves && p@
            == f && action == MudArchiveAction::RemoveFile(p),
        None => next matches MudArchiveStage::LocatingGame { saves: s } && s@ == saves
            && action is LocateGameDir,
    }
}

/// Whether the stage `next` and the action are what answering `event` in
/// `stage` gives, for the archive of `original_name` under `user_name`.
pub open spec fn mud_archive_step(
    user_name: Seq<char>,
    original_name: Seq<char>,
    stage: MudArchiveStage,
    event: MudArchiveEvent,
    next: MudArchiveStage,
    action: MudArchiveAction,
) -> bool {
    match stage {
        MudArchiveStage::Reading => match event {
            MudArchiveEvent::MetadataRead(MudrunnerMetadata::Corrupt) => action matches MudArchiveAction::Finish(
                r,
            ) && next == MudArchiveStage::Finished(r) && (r matches Err(AppError::FileReadError(d))
                && d@ == corrupt_metadata_detail()),
            MudArchiveEvent::MetadataRead(MudrunnerMetadata::Missing) => after_reading(
                Seq::empty(),
                None,
                next,
                action,
            ),
            MudArchiveEvent::MetadataRead(MudrunnerMetadata::Loaded(existing)) => after_reading(
                existing@.filter(other_user(user_name)),
                match first_index(existing@, same_user(user_name)) {
                    Some(i) => existing@[i].spec_internal_filename(),
                    None => None,
                },
                next,
                action,
            ),
            _ => false,
        },
        MudArchiveStage::Removing { saves, .. } => action is LocateGameDir && next
            == MudArchiveStage::LocatingGame { saves },
        MudArchiveStage::LocatingGame { saves } => match event {
            MudArchiveEvent::GameDirLocated(None) => action matches MudArchiveAction::Finish(r) && next
                == MudArchiveStage::Finished(r) && (r matches Err(
                AppError::MudrunnerProfileDirMissing(d),
            ) && d@ == missing_profile_dir_detail()),
            MudArchiveEvent::GameDirLocated(Some(dir)) => next matches MudArchiveStage::LocatingBackups {
                saves: s,
                from,
            } && s == saves && action is LocateBackupDir && (is_plain_file_name(original_name)
                && !is_verbatim(dir@) ==> joined(from@, dir@, original_name)),
            _ => false,
        },
        MudArchiveStage::LocatingBackups { saves, from } => match event {
            MudArchiveEvent::BackupDirLocated(BackupDir::Unknown) => action matches MudArchiveAction::Finish(
                r,
            ) && next == MudArchiveStage::Finished(r) && (r matches Err(
                AppError::MudrunnerProfileDirMissing(d),
            ) && d@ == missing_profile_dir_detail()),
            MudArchiveEvent::BackupDirLocated(BackupDir::NotCreated) => action matches MudArchiveAction::Finish(
                r,
            ) && next == MudArchiveStage::Finished(r) && (r matches Err(AppError::FileWriteError(d))
                && d@ == "Unable to create data directory for backups."@),
            MudArchiveEvent::BackupDirLocated(BackupDir::Ready(dir)) => action matches MudArchiveAction::CopySave {
                from: f,
                to,
            } && f == from && next == (MudArchiveStage::Copying { saves, from, to }) && (!is_verbatim(
                dir@,
            ) ==> exists|bytes: Seq<u8>|
                bytes.len() == 16 && #[trigger] joined(to@, dir@, hyphenated_uuid_text(bytes))),
            _ => false,
        },
        MudArchiveStage::Copying { saves, from, to } => match event {
            MudArchiveEvent::SaveCopied { copied: false, .. } => action matches MudArchiveAction::Finish(
                r,
            ) && next == MudArchiveStage::Finished(r) && (r matches Err(AppError::FileWriteError(d))
                && d@ == "Couldn't write backup. Whats wrong with you (or us???)?"@),
            MudArchiveEvent::SaveCopied { copied: true, modified } => next matches MudArchiveStage::Writing {
                saves: after,
            } && action is WriteMetadata && after@.drop_last() == saves@ && after@.len() == saves@.len()
                + 1 && {
                let new_save = after@.last();
                &&& new_save.spec_user_name() == user_name
                &&& new_save.spec_original_name() == original_name
                &&& new_save.spec_internal_filename() == Some(to@)
                &&& modified matches Some(t) ==> new_save.spec_timestamp() == t
                &&& modified is None ==> new_save.spec_timestamp().well_formed()
            },
            _ => false,
        },
        MudArchiveStage::Writing { .. } => match event {
            MudArchiveEvent::MetadataWritten(Err(m)) => action matches MudArchiveAction::Finish(r)
                && next == MudArchiveStage::Finished(r) && (r matches Err(AppError::FileWriteError(d))
                && d == m),
            _ => action == MudArchiveAction::Finish(Ok(())) && next == MudArchiveStage::Finished(
                Ok(()),
            ),
        },
        MudArchiveStage::Finished(_) => false,
    }
}

/// The savegames that a stage carries on towards the metadata file.
pub open spec fn carried_saves(stage: MudArchiveStage) -> Seq<MudrunnerSave> {
    match stage {
        MudArchiveStage::Removing { saves, .. } => saves@,
        MudArchiveStage::LocatingGame { saves } => saves@,
        MudArchiveStage::LocatingBackups { saves, .. } => saves@,
        MudArchiveStage::Copying { saves, .. } => saves@,
        MudArchiveStage::Writing { saves } => saves@,
        _ => Seq::empty(),
    }
}

/// Once the metadata file is read, an archive under a user name carries on
/// every savegame archived before under another user name, whatever game
/// savegame it holds, and only those, in their order: each savegame carried
/// on has another user name; the earlier savegame at `i`, where its user
/// name differs, is carried on right after the savegames of other user
/// names before it; and as many are carried on as have another user name.
/// The backup file deleted first, if any, is that of the first earlier
/// savegame under the same user name.
pub proof fn lemma_archive_keeps_other_users(
    user_name: Seq<char>,
    original_name: Seq<char>,
    existing: Vec<MudrunnerSave>,
    next: MudArchiveStage,
    action: MudArchiveAction,
)
    requires
        mud_archive_step(
            user_name,
            original_name,
            MudArchiveStage::Reading,
            MudArchiveEvent::MetadataRead(MudrunnerMetadata::Loaded(existing)),
            next,
            action,
        ),
    ensures
        forall|s: MudrunnerSave| #[trigger] other_user(user_name)(s) <==> s.spec_user_name() != user_name,
        carried_saves(next).len() == existing@.filter(other_user(user_name)).len(),
        forall|k: int|
            0 <= k < carried_saves(next).len() ==> (#[trigger] carried_saves(next)[k]).spec_user_name()
                != user_name,
        forall|i: int|
            0 <= i < existing@.len() && (#[trigger] existing@[i]).spec_user_name() != user_name ==> {
                let before = existing@.take(i).filter(other_user(user_name));
                before.len() < carried_saves(next).len() && carried_saves(next)[before.len() as int]
                    == existing@[i]
            },
        forall|i: int|
            0 <= i < existing@.len() && (#[trigger] existing@[i]).spec_user_name() == user_name && (
            forall|j: int| 0 <= j < i ==> (#[trigger] existing@[j]).spec_user_name() != user_name) ==> {
                &&& existing@[i].spec_internal_filename() is Some ==> (action matches MudArchiveAction::RemoveFile(
                    p,
                ) && Some(p@) == existing@[i].spec_internal_filename())
                &&& existing@[i].spec_internal_filename() is None ==> action is LocateGameDir
            },
        (forall|i: int| 0 <= i < existing@.len() ==> (#[trigger] existing@[i]).spec_user_name() != user_name)
            ==> action is LocateGameDir,
{
    let all = existing@;
    lemma_filter_positions(all, other_user(user_name));
    lemma_first_index(all, same_user(user_name));
    assert forall|k: int| 0 <= k < carried_saves(next).len() implies (#[trigger] carried_saves(
        next,
    )[k]).spec_user_name() != user_name by {
        assert(other_user(user_name)(all.filter(other_user(user_name))[k]));
    }
    assert forall|i: int|
        0 <= i < all.len() && (#[trigger] all[i]).spec_user_name() != user_name implies {
        let before = all.take(i).filter(other_user(user_name));
        before.len() < carried_saves(next).len() && carried_saves(next)[before.len() as int] == all[i]
    } by {
        assert(other_user(user_name)(all[i]));
    }
    assert forall|i: int|
        0 <= i < all.len() && (#[trigger] all[i]).spec_user_name() == user_name && (forall|j: int|
            0 <= j < i ==> (#[trigger] all[j]).spec_user_name() != user_name) implies {
        &&& all[i].spec_internal_filename() is Some ==> (action matches MudArchiveAction::RemoveFile(p)
            && Some(p@) == all[i].spec_internal_filename())
        &&& all[i].spec_internal_filename() is None ==> action is LocateGameDir
    } by {
        match first_index(all, same_user(user_name)) {
            Some(f) => {
                if f < i {
                    assert(all[f].spec_user_name() != user_name);
                } else if f > i {
                    assert(same_user(user_name)(all[i]));
                }
            },
            None => {
                assert(same_user(user_name)(all[i]));
            },
        }
    }
    if forall|i: int| 0 <= i < all.len() ==> (#[trigger] all[i]).spec_user_name() != user_name {
        match first_index(all, same_user(user_name)) {
            Some(f) => {
                assert(same_user(user_name)(all[f]));
            },
            None => {},
        }
    }
}

/// The hyphenated text of a UUID is a bare file name.
proof fn lemma_hyphenated_is_plain(bytes: Seq<u8>)
    requires
        bytes.len() == 16,
    ensures
        is_plain_file_name(hyphenated_uuid_text(bytes)),
{
    lemma_hyphenated_uuid_text(bytes);
    reveal_strlit(".");
    reveal_strlit("..");
    let t = hyphenated_uuid_text(bytes);
    assert forall|i: int| 0 <= i < t.len() implies #[trigger] t[i] != '/' && t[i] != '\\' && t[i]
        != ':' by {
        assert(is_hex_char(t[i]) || t[i] == '-');
    }
}

impl MudArchiveJob {
    /// The user name to archive under.
    pub closed spec fn spec_user_name(&self) -> Seq<char> {
        self.user_name@
    }

    /// The game's file name of the savegame to archive.
    pub closed spec fn spec_original_name(&self) -> Seq<char> {
        self.original_name@
    }

    /// Where the archive stands.
    pub closed spec fn spec_stage(&self) -> MudArchiveStage {
        self.stage
    }

    /// An archive of the game's savegame `original_name` under the name
    /// `user_name`, about to read the metadata file.
    pub fn new(user_name: &str, original_name: &str) -> (res: MudArchiveJob)
        ensures
            res.spec_user_name() == user_name@,
            res.spec_original_name() == original_name@,
            res.spec_stage() is Reading,
    {
        MudArchiveJob {
            user_name: String::from_str(user_name),
            original_name: String::from_str(original_name),
            stage: MudArchiveStage::Reading,
        }
    }

    /// The savegames to write to the metadata file, while the archive waits
    /// for that.
    pub fn saves_to_write(&self) -> (res: Option<&Vec<MudrunnerSave>>)
        ensures
            match self.spec_stage() {
                MudArchiveStage::Writing { saves } => res matches Some(v) && v@ == saves@,
                _ => res is None,
            },
    {
        match &self.stage {
            MudArchiveStage::Writing { saves } => Some(saves),
            _ => None,
        }
    }
}

fn mud_finished(r: Result<(), AppError>) -> (res: (MudArchiveStage, MudArchiveAction))
    ensures
        res.0 == MudArchiveStage::Finished(r),
        res.1 == MudArchiveAction::Finish(r),
{
    let copy = copy_outcome(&r);
    (MudArchiveStage::Finished(r), MudArchiveAction::Finish(copy))
}

impl MudrunnerSave {
    /// Archives the game's savegame under the job's user name, one step at
    /// a time: each call answers the action asked for before with `event`,
    /// and returns the next action. A corrupt metadata file is reported;
    /// otherwise the savegames archived under the same user name are
    /// dropped from the list (the backup file of the first of them, if any,
    /// is deleted), the savegame is copied from the game's directory to a
    /// fresh file in the backup directory, recorded at the end of the list,
    /// and the list is written to the metadata file. An event that does not
    /// answer the pending action changes nothing, and that action is asked
    /// for again.
    pub fn archive_savegame(job: &mut MudArchiveJob, event: MudArchiveEvent) -> (action:
        MudArchiveAction)
        ensures
            final(job).spec_user_name() == old(job).spec_user_name(),
            final(job).spec_original_name() == old(job).spec_original_name(),
            !mud_archive_answers(old(job).spec_stage(), event) ==> {
                &&& mud_archive_awaits(old(job).spec_stage(), action)
                &&& final(job).spec_stage() == old(job).spec_stage()
            },
            mud_archive_answers(old(job).spec_stage(), event) ==> mud_archive_step(
                old(job).spec_user_name(),
                old(job).spec_original_name(),
                old(job).spec_stage(),
                event,
                final(job).spec_stage(),
                action,
            ),
    {
        let answers = match (&job.stage, &event) {
            (MudArchiveStage::Reading, MudArchiveEvent::MetadataRead(_)) => true,
            (MudArchiveStage::Removing { .. }, MudArchiveEvent::FileRemoved) => true,
            (MudArchiveStage::LocatingGame { .. }, MudArchiveEvent::GameDirLocated(_)) => true,
            (MudArchiveStage::LocatingBackups { .. }, MudArchiveEvent::BackupDirLocated(_)) => true,
            (MudArchiveStage::Copying { .. }, MudArchiveEvent::SaveCopied { .. }) => true,
            (MudArchiveStage::Writing { .. }, MudArchiveEvent::MetadataWritten(_)) => true,
            _ => false,
        };
        if !answers {
            return match &job.stage {
                MudArchiveStage::Reading => MudArchiveAction::ReadMetadata,
                MudArchiveStage::Removing { stale, .. } => MudArchiveAction::RemoveFile(stale.clone()),
                MudArchiveStage::LocatingGame { .. } => MudArchiveAction::LocateGameDir,
                MudArchiveStage::LocatingBackups { .. } => MudArchiveAction::LocateBackupDir,
                MudArchiveStage::Copying { from, to, .. } => MudArchiveAction::CopySave {
                    from: from.clone(),
                    to: to.clone(),
                },
                MudArchiveStage::Writing { .. } => MudArchiveAction::WriteMetadata,
                MudArchiveStage::Finished(r) => MudArchiveAction::Finish(copy_outcome(r)),
            };
        }
        let mut stage = MudArchiveStage::Reading;
        std::mem::swap(&mut stage, &mut job.stage);
        let (next, action) = match stage {
            MudArchiveStage::Reading => match event {
                MudArchiveEvent::MetadataRead(MudrunnerMetadata::Corrupt) => mud_finished(
                    Err(AppError::FileReadError(String::from_str("Error reading \"MudrunnerMetadata.json\""))),
                ),
                MudArchiveEvent::MetadataRead(MudrunnerMetadata::Missing) => {
                    let saves: Vec<MudrunnerSave> = Vec::new();
                    (MudArchiveStage::LocatingGame { saves }, MudArchiveAction::LocateGameDir)
                },
                MudArchiveEvent::MetadataRead(MudrunnerMetadata::Loaded(existing)) => {
                    let (saves, stale) = MudrunnerSave::remove_user_saves(
                        existing,
                        job.user_name.as_str(),
                    );
                    match stale {
                        Some(f) => {
                            let action = MudArchiveAction::RemoveFile(f.clone());
                            (MudArchiveStage::Removing { saves, stale: f }, action)
                        },
                        None => (MudArchiveStage::LocatingGame { saves }, MudArchiveAction::LocateGameDir),
                    }
                },
                _ => {
                    proof {
                        assert(false);
                    }
                    mud_finished(Ok(()))
                },
            },
            MudArchiveStage::Removing { saves, .. } => (
                MudArchiveStage::LocatingGame { saves },
                MudArchiveAction::LocateGameDir,
            ),
            MudArchiveStage::LocatingGame { saves } => match event {
                MudArchiveEvent::GameDirLocated(None) => mud_finished(
                    Err(AppError::MudrunnerProfileDirMissing(String::from_str("Mudrunner profile directory missing"))),
                ),
                MudArchiveEvent::GameDirLocated(Some(dir)) => {
                    let from = join_path(dir.as_str(), job.original_name.as_str());
                    (MudArchiveStage::LocatingBackups { saves, from }, MudArchiveAction::LocateBackupDir)
                },
                _ => {
                    proof {
                        assert(false);
                    }
                    mud_finished(Ok(()))
                },
            },
            MudArchiveStage::LocatingBackups { saves, from } => match event {
                MudArchiveEvent::BackupDirLocated(BackupDir::Unknown) => mud_finished(
                    Err(AppError::MudrunnerProfileDirMissing(String::from_str("Mudrunner profile directory missing"))),
                ),
                MudArchiveEvent::BackupDirLocated(BackupDir::NotCreated) => mud_finished(
                    Err(AppError::FileWriteError(String::from_str("Unable to create data directory for backups."))),
                ),
                MudArchiveEvent::BackupDirLocated(BackupDir::Ready(dir)) => {
                    let name = new_backup_name();
                    proof {
                        let b = choose|b: Seq<u8>| b.len() == 16 && name@ == hyphenated_uuid_text(b);
                        lemma_hyphenated_is_plain(b);
                    }
                    let to = join_path(dir.as_str(), name.as_str());
                    proof {
                        let b = choose|b: Seq<u8>| b.len() == 16 && name@ == hyphenated_uuid_text(b);
                        assert(!is_verbatim(dir@) ==> joined(to@, dir@, hyphenated_uuid_text(b)));
                    }
                    let action = MudArchiveAction::CopySave { from: from.clone(), to: to.clone() };
                    (MudArchiveStage::Copying { saves, from, to }, action)
                },
                _ => {
                    proof {
                        assert(false);
                    }
                    mud_finished(Ok(()))
                },
            },
            MudArchiveStage::Copying { mut saves, from: _, to } => match event {
                MudArchiveEvent::SaveCopied { copied: false, .. } => mud_finished(
                    Err(AppError::FileWriteError(String::from_str("Couldn't write backup. Whats wrong with you (or us???)?"))),
                ),
                MudArchiveEvent::SaveCopied { copied: true, modified } => {
                    let ghost before = saves@;
                    let new_save = MudrunnerSave::archived(
                        job.user_name.as_str(),
                        job.original_name.as_str(),
                        to,
                        modified,
                    );
                    saves.push(new_save);
                    proof {
                        assert(saves@.drop_last() =~= before);
                    }
                    (MudArchiveStage::Writing { saves }, MudArchiveAction::WriteMetadata)
                },
                _ => {
                    proof {
                        assert(false);
                    }
                    mud_finished(Ok(()))
                },
            },
            MudArchiveStage::Writing { .. } => match event {
                MudArchiveEvent::MetadataWritten(Err(m)) => mud_finished(Err(AppError::FileWriteError(m))),
                _ => mud_finished(Ok(())),
            },
            MudArchiveStage::Finished(_) => {
                proof {
                    assert(false);
                }
                mud_finished(Ok(()))
            },
        };
        job.stage = next;
        action
    }
}

} // verus!
