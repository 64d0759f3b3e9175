//! Deleting and restoring a backup of a SnowRunner profile, step by step:
//! the decisions are taken here, the work on the file system is asked for
//! through actions and its results come back as events.

use vstd::prelude::*;

use crate::error::{AppError, StorageFailure};
use crate::search::{first_index, lemma_filter_positions};
use crate::ids::ArchiveId;
use crate::snowrunner::{lemma_archived_save_found, other_save, same_save, SavedProfile, SnowRunnerProfile};
use crate::snowrunner_archive::{archive_step, copy_outcome, ArchiveAction, ArchiveEvent, ArchiveStage};

verus! {

/// Where the deletion of a backup stands.
pub enum DeleteStage {
    /// Waiting to start: the backup is yet to be looked up.
    Looking,
    /// Waiting for the archive file of the backup found to be deleted.
    Removing(SavedProfile),
    /// The backup is forgotten; waiting for the metadata to be stored.
    Storing,
    /// Done, with this outcome.
    Finished(Result<(), AppError>),
}

/// What the deletion asks for next.
#[derive(Debug)]
pub enum DeleteAction {
    /// Answer with `DeleteEvent::Started`.
    Start,
    /// Delete the archive file at this path.
    RemoveFile(String),
    /// Store the profile's metadata.
    StoreMetadata,
    /// The deletion is done, with this outcome.
    Finish(Result<(), AppError>),
}

/// What the file system answered.
pub enum DeleteEvent {
    /// The deletion starts.
    Started,
    /// Whether the archive file was deleted.
    FileRemoved(bool),
    /// Whether the metadata was stored.
    MetadataStored(Result<(), StorageFailure>),
}

/// The deletion of the backup with the identifier `save_uuid`.
pub struct DeleteJob {
    save_uuid: String,
    stage: DeleteStage,
}

/// Whether `action` is the one that a stage waits on.
pub open spec fn delete_awaits(stage: DeleteStage, action: DeleteAction) -> bool {
    match stage {
        DeleteStage::Looking => action is Start,
        DeleteStage::Removing(save) => action == DeleteAction::RemoveFile(save.file_path),
        DeleteStage::Storing => action is StoreMetadata,
        DeleteStage::Finished(r) => action == DeleteAction::Finish(r),
    }
}

/// Whether `event` answers what the stage waits on.
pub open spec fn delete_answers(stage: DeleteStage, event: DeleteEvent) -> bool {
    ||| stage is Looking && event is Started
    ||| stage is Removing && event is FileRemoved
    ||| stage is Storing && event is MetadataStored
}

impl DeleteJob {
    /// The identifier of the backup to delete.
    pub closed spec fn spec_save_uuid(&self) -> Seq<char> {
        self.save_uuid@
    }

    /// Where the deletion stands.
    pub closed spec fn spec_stage(&self) -> DeleteStage {
        self.stage
    }

    /// The deletion of the backup `save_uuid`, about to start.
    pub fn new(save_uuid: &str) -> (res: DeleteJob)
        ensures
            res.spec_save_uuid() == save_uuid@,
            res.spec_stage() is Looking,
    {
        DeleteJob { save_uuid: String::from_str(save_uuid), stage: DeleteStage::Looking }
    }
}

/// Whether the stage `next`, the action, and the profile `after` are what
/// answering `event` in `stage` gives, for the deletion of the backup
/// `save_uuid` of the profile `before`.
pub open spec fn delete_step(
    before: SnowRunnerProfile,
    after: SnowRunnerProfile,
    save_uuid: Seq<char>,
    stage: DeleteStage,
    event: DeleteEvent,
    next: DeleteStage,
    action: DeleteAction,
) -> bool {
    match stage {
        DeleteStage::Looking => {
            &&& match first_index(before.meta_data.stored_profiles@, same_save(save_uuid)) {
                None => action matches DeleteAction::Finish(r) && next == DeleteStage::Finished(r)
                    && (r matches Err(AppError::SavegameNotFound(d)) && d@ == save_uuid),
                Some(i) => action == DeleteAction::RemoveFile(
                    before.meta_data.stored_profiles@[i].file_path,
                ) && next == DeleteStage::Removing(before.meta_data.stored_profiles@[i]),
            }
            &&& after == before
        },
        DeleteStage::Removing(_) => match event {
            DeleteEvent::FileRemoved(false) => {
                &&& action matches DeleteAction::Finish(r) && next == DeleteStage::Finished(r)
                    && (r matches Err(AppError::FileWriteError(d)) && d@ == "Delete failed"@)
                &&& after == before
            },
            _ => {
                &&& action is StoreMetadata
                &&& next is Storing
                &&& after.meta_data.stored_profiles@ == before.meta_data.stored_profiles@.filter(
                    other_save(save_uuid),
                )
                &&& after.meta_data.alias == before.meta_data.alias
                &&& after.uuid == before.uuid
                &&& after.modified == before.modified
            },
        },
        DeleteStage::Storing => {
            &&& match event {
                DeleteEvent::MetadataStored(Err(f)) => action matches DeleteAction::Finish(r)
                    && next == DeleteStage::Finished(r) && (r matches Err(e) && f.reports(e)),
                _ => action == DeleteAction::Finish(Ok(())) && next == DeleteStage::Finished(Ok(())),
            }
            &&& after == before
        },
        DeleteStage::Finished(_) => false,
    }
}

/// Where the restoring of a backup stands.
pub enum RestoreStage {
    /// Waiting to start: the backup is yet to be looked up.
    Looking,
    /// Waiting for the profile's directory to be found.
    Locating(SavedProfile),
    /// Waiting for the backup's archive to be opened.
    Opening(SavedProfile),
    /// Waiting for the profile's files to be replaced by those of the archive.
    Replacing(SavedProfile),
    /// Done, with this outcome.
    Finished(Result<(), AppError>),
}

/// What the restoring asks for next.
#[derive(Debug)]
pub enum RestoreAction {
    /// Answer with `RestoreEvent::Started`.
    Start,
    /// Find the profile's directory.
    LocateProfileDir,
    /// Open the archive file at this path as a zip archive.
    OpenArchive(String),
    /// Delete the files of the profile's directory and write back each file
    /// of the archive.
    ReplaceFiles,
    /// The restoring is done, with this outcome.
    Finish(Result<(), AppError>),
}

/// What the file system answered.
pub enum RestoreEvent {
    /// The restoring starts.
    Started,
    /// Whether the profile's directory is known.
    ProfileDirLocated(bool),
    /// Whether the archive could be opened as a zip archive.
    ArchiveOpened(bool),
    /// How many of the archive's `total` files were written back.
    FilesReplaced { restored: usize, total: usize },
}

/// The restoring of the backup with the identifier `save_uuid`.
pub struct RestoreJob {
    save_uuid: String,
    stage: RestoreStage,
}

/// Whether `action` is the one that a stage waits on.
pub open spec fn restore_awaits(stage: RestoreStage, action: RestoreAction) -> bool {
    match stage {
        RestoreStage::Looking => action is Start,
        RestoreStage::Locating(_) => action is LocateProfileDir,
        RestoreStage::Opening(save) => action == RestoreAction::OpenArchive(save.file_path),
        RestoreStage::Replacing(_) => action is ReplaceFiles,
        RestoreStage::Finished(r) => action == RestoreAction::Finish(r),
    }
}

/// Whether `event` answers what the stage waits on.
pub open spec fn restore_answers(stage: RestoreStage, event: RestoreEvent) -> bool {
    ||| stage is Looking && event is Started
    ||| stage is Locating && event is ProfileDirLocated
    ||| stage is Opening && event is ArchiveOpened
    ||| stage is Replacing && event is FilesReplaced
}

impl RestoreJob {
    /// The identifier of the backup to restore.
    pub closed spec fn spec_save_uuid(&self) -> Seq<char> {
        self.save_uuid@
    }

    /// Where the restoring stands.
    pub closed spec fn spec_stage(&self) -> RestoreStage {
        self.stage
    }

    /// The restoring of the backup `save_uuid`, about to start.
    pub fn new(save_uuid: &str) -> (res: RestoreJob)
        ensures
            res.spec_save_uuid() == save_uuid@,
            res.spec_stage() is Looking,
    {
        RestoreJob { save_uuid: String::from_str(save_uuid), stage: RestoreStage::Looking }
    }
}

/// Whether the stage `next`, the action, and the profile `after` are what
/// answering `event` in `stage` gives, for the restoring of the backup
/// `save_uuid` of the profile `before`.
pub open spec fn restore_step(
    before: SnowRunnerProfile,
    after: SnowRunnerProfile,
    save_uuid: Seq<char>,
    stage: RestoreStage,
    event: RestoreEvent,
    next: RestoreStage,
    action: RestoreAction,
) -> bool {
    match stage {
        RestoreStage::Looking => {
            &&& match first_index(before.meta_data.stored_profiles@, same_save(save_uuid)) {
                None => action matches RestoreAction::Finish(r) && next == RestoreStage::Finished(r)
                    && (r matches Err(AppError::SavegameNotFound(d)) && d@ == save_uuid),
                Some(i) => action is LocateProfileDir && next == RestoreStage::Locating(
                    before.meta_data.stored_profiles@[i],
                ),
            }
            &&& after == before
        },
        RestoreStage::Locating(save) => {
            &&& match event {
                RestoreEvent::ProfileDirLocated(false) => action matches RestoreAction::Finish(r)
                    && next == RestoreStage::Finished(r) && (r matches Err(
                    AppError::HomeDirNotFound(d),
                ) && d@ == Seq::<char>::empty()),
                _ => action == RestoreAction::OpenArchive(save.file_path) && next
                    == RestoreStage::Opening(save),
            }
            &&& after == before
        },
        RestoreStage::Opening(save) => {
            &&& match event {
                RestoreEvent::ArchiveOpened(false) => action matches RestoreAction::Finish(r)
                    && next == RestoreStage::Finished(r) && (r matches Err(AppError::FileReadError(d))
                    && d == save.file_path),
                _ => action is ReplaceFiles && next == RestoreStage::Replacing(save),
            }
            &&& after == before
        },
        RestoreStage::Replacing(save) => match event {
            RestoreEvent::FilesReplaced { restored, total } => if restored == total {
                &&& action == RestoreAction::Finish(Ok(()))
                &&& next == RestoreStage::Finished(Ok(()))
                &&& after.modified == save.saved_on
                &&& after.uuid == before.uuid
                &&& after.meta_data == before.meta_data
            } else {
                &&& action matches RestoreAction::Finish(r) && next == RestoreStage::Finished(r)
                    && (r matches Err(AppError::ProfileRestoreFailed(d)) && d@
                    == "Not all saved files could be restored"@)
                &&& after == before
            },
            _ => false,
        },
        RestoreStage::Finished(_) => false,
    }
}

fn delete_finished(r: Result<(), AppError>) -> (res: (DeleteStage, DeleteAction))
    ensures
        res.0 == DeleteStage::Finished(r),
        res.1 == DeleteAction::Finish(r),
{
    let copy = copy_outcome(&r);
    (DeleteStage::Finished(r), DeleteAction::Finish(copy))
}

fn restore_finished(r: Result<(), AppError>) -> (res: (RestoreStage, RestoreAction))
    ensures
        res.0 == RestoreStage::Finished(r),
        res.1 == RestoreAction::Finish(r),
{
    let copy = copy_outcome(&r);
    (RestoreStage::Finished(r), RestoreAction::Finish(copy))
}

/// The backups without those with the identifier `save_uuid`, in their order.
fn forget_save(stored: Vec<SavedProfile>, save_uuid: &str) -> (res: Vec<SavedProfile>)
    ensures
        res@ == stored@.filter(other_save(save_uuid@)),
{
    let ghost all = stored@;
    let ghost keep = other_save(save_uuid@);
    let key = String::from_str(save_uuid);
    let mut kept: Vec<SavedProfile> = Vec::new();
    for p in it: stored.into_iter()
        invariant
            it.seq() == all,
            key@ == save_uuid@,
            keep == other_save(save_uuid@),
            kept@ == all.take(it.index() as int).filter(keep),
    {
        let ghost k = it.index() as int;
        proof {
            assert(all.take(k + 1) =~= all.take(k).push(p));
            all.take(k).lemma_filter_push(p, keep);
        }
        if p.uuid != key {
            kept.push(p);
        }
    }
    proof {
        assert(all.take(all.len() as int) =~= all);
    }
    kept
}

impl SnowRunnerProfile {
    /// Deletes the backup with the job's identifier, one step at a time:
    /// each call answers the action asked for before with `event`, and
    /// returns the next action. An unknown backup is reported; otherwise
    /// the archive file of the first backup with that identifier is
    /// deleted, the backups with that identifier are forgotten, and the
    /// metadata is stored. Where the file cannot be deleted, the profile
    /// is left as it was. An event that does not answer the pending action
    /// changes nothing, and that action is asked for again.
    pub fn delete_archived_savegame(&mut self, job: &mut DeleteJob, event: DeleteEvent) -> (action:
        DeleteAction)
        ensures
            final(job).spec_save_uuid() == old(job).spec_save_uuid(),
            !delete_answers(old(job).spec_stage(), event) ==> {
                &&& delete_awaits(old(job).spec_stage(), action)
                &&& final(job).spec_stage() == old(job).spec_stage()
                &&& *final(self) == *old(self)
            },
            delete_answers(old(job).spec_stage(), event) ==> delete_step(
                *old(self),
                *final(self),
                old(job).spec_save_uuid(),
                old(job).spec_stage(),
                event,
                final(job).spec_stage(),
                action,
            ),
    {
        let answers = match (&job.stage, &event) {
            (DeleteStage::Looking, DeleteEvent::Started) => true,
            (DeleteStage::Removing(_), DeleteEvent::FileRemoved(_)) => true,
            (DeleteStage::Storing, DeleteEvent::MetadataStored(_)) => true,
            _ => false,
        };
        if !answers {
            return match &job.stage {
                DeleteStage::Looking => DeleteAction::Start,
                DeleteStage::Removing(save) => DeleteAction::RemoveFile(save.file_path.clone()),
                DeleteStage::Storing => DeleteAction::StoreMetadata,
                DeleteStage::Finished(r) => DeleteAction::Finish(copy_outcome(r)),
            };
        }
        let mut stage = DeleteStage::Storing;
        std::mem::swap(&mut stage, &mut job.stage);
        let (next, action) = match stage {
            DeleteStage::Looking => match self.get_save(job.save_uuid.as_str()) {
                Err(e) => delete_finished(Err(e)),
                Ok(save) => {
                    let path = save.file_path.clone();
                    (DeleteStage::Removing(save), DeleteAction::RemoveFile(path))
                },
            },
            DeleteStage::Removing(_) => match event {
                DeleteEvent::FileRemoved(false) => delete_finished(
                    Err(AppError::FileWriteError(String::from_str("Delete failed"))),
                ),
                _ => {
                    let mut stored: Vec<SavedProfile> = Vec::new();
                    std::mem::swap(&mut stored, &mut self.meta_data.stored_profiles);
                    self.meta_data.stored_profiles = forget_save(stored, job.save_uuid.as_str());
                    (DeleteStage::Storing, DeleteAction::StoreMetadata)
                },
            },
            DeleteStage::Storing => match event {
                DeleteEvent::MetadataStored(Err(f)) => delete_finished(Err(f.into_error())),
                _ => delete_finished(Ok(())),
            },
            DeleteStage::Finished(_) => {
                proof {
                    assert(false);
                }
                delete_finished(Ok(()))
            },
        };
        job.stage = next;
        action
    }

    /// Restores the backup with the job's identifier, one step at a time:
    /// each call answers the action asked for before with `event`, and
    /// returns the next action. An unknown backup is reported; otherwise
    /// the first backup with that identifier is restored: the profile's
    /// directory is found, the backup's archive opened (an unreadable one is
    /// reported with its path), the profile's files are replaced by those of
    /// the archive, and where every one of them was written back the profile
    /// dates from the backup. An event that does not answer the pending
    /// action changes nothing, and that action is asked for again.
    pub fn restore_backup(&mut self, job: &mut RestoreJob, event: RestoreEvent) -> (action:
        RestoreAction)
        ensures
            final(job).spec_save_uuid() == old(job).spec_save_uuid(),
            !restore_answers(old(job).spec_stage(), event) ==> {
                &&& restore_awaits(old(job).spec_stage(), action)
                &&& final(job).spec_stage() == old(job).spec_stage()
                &&& *final(self) == *old(self)
            },
            restore_answers(old(job).spec_stage(), event) ==> restore_step(
                *old(self),
                *final(self),
                old(job).spec_save_uuid(),
                old(job).spec_stage(),
                event,
                final(job).spec_stage(),
                action,
            ),
    {
        let answers = match (&job.stage, &event) {
            (RestoreStage::Looking, RestoreEvent::Started) => true,
            (RestoreStage::Locating(_), RestoreEvent::ProfileDirLocated(_)) => true,
            (RestoreStage::Opening(_), RestoreEvent::ArchiveOpened(_)) => true,
            (RestoreStage::Replacing(_), RestoreEvent::FilesReplaced { .. }) => true,
            _ => false,
        };
        if !answers {
            return match &job.stage {
                RestoreStage::Looking => RestoreAction::Start,
                RestoreStage::Locating(_) => RestoreAction::LocateProfileDir,
                RestoreStage::Opening(save) => RestoreAction::OpenArchive(save.file_path.clone()),
                RestoreStage::Replacing(_) => RestoreAction::ReplaceFiles,
                RestoreStage::Finished(r) => RestoreAction::Finish(copy_outcome(r)),
            };
        }
        let mut stage = RestoreStage::Looking;
        std::mem::swap(&mut stage, &mut job.stage);
        let (next, action) = match stage {
            RestoreStage::Looking => match self.get_save(job.save_uuid.as_str()) {
                Err(e) => restore_finished(Err(e)),
                Ok(save) => (RestoreStage::Locating(save), RestoreAction::LocateProfileDir),
            },
            RestoreStage::Locating(save) => match event {
                RestoreEvent::ProfileDirLocated(false) => restore_finished(
                    Err(AppError::HomeDirNotFound(String::new())),
                ),
                _ => {
                    let path = save.file_path.clone();
                    (RestoreStage::Opening(save), RestoreAction::OpenArchive(path))
                },
            },
            RestoreStage::Opening(save) => match event {
                RestoreEvent::ArchiveOpened(false) => restore_finished(
                    Err(AppError::FileReadError(save.file_path)),
                ),
                _ => (RestoreStage::Replacing(save), RestoreAction::ReplaceFiles),
            },
            RestoreStage::Replacing(save) => match event {
                RestoreEvent::FilesReplaced { restored, total } => {
                    if restored == total {
                        self.modified = save.saved_on;
                        restore_finished(Ok(()))
                    } else {
                        restore_finished(
                            Err(
                                AppError::ProfileRestoreFailed(
                                    String::from_str("Not all saved files could be restored"),
                                ),
                            ),
                        )
                    }
                },
                _ => {
                    proof {
                        assert(false);
                    }
                    restore_finished(Ok(()))
                },
            },
            RestoreStage::Finished(_) => {
                proof {
                    assert(false);
                }
                restore_finished(Ok(()))
            },
        };
        job.stage = next;
        action
    }
}

/// Restoring right after archiving. Once an archive has written its zip,
/// recorded the backup under an identifier that no earlier backup of the
/// profile has, and stored the metadata, the archive succeeds; restoring
/// that identifier then finds the new backup, opens the very archive file
/// that was written, and, where every file of it is written back, succeeds,
/// keeps the profile's backups, and dates the profile from the backup.
pub proof fn lemma_restore_after_archive(
    before: SnowRunnerProfile,
    archived: SnowRunnerProfile,
    stored: SnowRunnerProfile,
    name: Seq<char>,
    id: ArchiveId,
    files: Vec<String>,
    dir: String,
    target: String,
    storing: ArchiveStage,
    store_action: ArchiveAction,
    done: ArchiveStage,
    done_action: ArchiveAction,
    p1: SnowRunnerProfile,
    s1: RestoreStage,
    a1: RestoreAction,
    p2: SnowRunnerProfile,
    s2: RestoreStage,
    a2: RestoreAction,
    p3: SnowRunnerProfile,
    s3: RestoreStage,
    a3: RestoreAction,
    p4: SnowRunnerProfile,
    s4: RestoreStage,
    a4: RestoreAction,
    written: usize,
)
    requires
        first_index(before.meta_data.stored_profiles@, same_save(id.spec_simple())) is None,
        archive_step(
            before,
            archived,
            name,
            ArchiveStage::Writing { id, files, dir, target },
            ArchiveEvent::ZipWritten(true),
            storing,
            store_action,
        ),
        archive_step(
            archived,
            stored,
            name,
            storing,
            ArchiveEvent::MetadataStored(Ok(())),
            done,
            done_action,
        ),
        restore_step(stored, p1, id.spec_simple(), RestoreStage::Looking, RestoreEvent::Started, s1, a1),
        restore_step(p1, p2, id.spec_simple(), s1, RestoreEvent::ProfileDirLocated(true), s2, a2),
        restore_step(p2, p3, id.spec_simple(), s2, RestoreEvent::ArchiveOpened(true), s3, a3),
        restore_step(
            p3,
            p4,
            id.spec_simple(),
            s3,
            RestoreEvent::FilesReplaced { restored: written, total: written },
            s4,
            a4,
        ),
    ensures
        done_action == ArchiveAction::Finish(Ok(())),
        stored.meta_data.stored_profiles@.last().name@ == name,
        stored.meta_data.stored_profiles@.last().file_path == target,
        a2 == RestoreAction::OpenArchive(target),
        a4 == RestoreAction::Finish(Ok(())),
        p4.uuid == before.uuid,
        p4.meta_data == stored.meta_data,
        p4.modified == stored.meta_data.stored_profiles@.last().saved_on,
{
    let old_saves = before.meta_data.stored_profiles@;
    let saves = archived.meta_data.stored_profiles@;
    let saved = saves.last();
    assert(saves =~= old_saves.push(saved));
    lemma_archived_save_found(old_saves, saved);
    assert(stored == archived);
    assert(s1 == RestoreStage::Locating(saved));
}

/// Once its archive file is deleted, deleting a backup forgets the backups
/// with its identifier and only those: each backup kept has another
/// identifier; the backup at `i` of the profile, where its identifier
/// differs, is kept, whatever its name, right after the kept backups
/// before it; and as many are kept as have another identifier. The
/// profile's identifier, date and alias stay.
pub proof fn lemma_delete_forgets_only_that_backup(
    before: SnowRunnerProfile,
    after: SnowRunnerProfile,
    save_uuid: Seq<char>,
    save: SavedProfile,
    next: DeleteStage,
    action: DeleteAction,
)
    requires
        delete_step(
            before,
            after,
            save_uuid,
            DeleteStage::Removing(save),
            DeleteEvent::FileRemoved(true),
            next,
            action,
        ),
    ensures
        forall|p: SavedProfile| #[trigger] other_save(save_uuid)(p) <==> p.uuid@ != save_uuid,
        after.meta_data.stored_profiles@.len() == before.meta_data.stored_profiles@.filter(
            other_save(save_uuid),
        ).len(),
        forall|k: int|
            0 <= k < after.meta_data.stored_profiles@.len() ==> (
            #[trigger] after.meta_data.stored_profiles@[k]).uuid@ != save_uuid,
        forall|i: int|
            0 <= i < before.meta_data.stored_profiles@.len() && (
            #[trigger] before.meta_data.stored_profiles@[i]).uuid@ != save_uuid ==> {
                let kept = after.meta_data.stored_profiles@;
                let earlier = before.meta_data.stored_profiles@.take(i).filter(other_save(save_uuid));
                earlier.len() < kept.len() && kept[earlier.len() as int]
                    == before.meta_data.stored_profiles@[i]
            },
        after.uuid == before.uuid,
        after.modified == before.modified,
        after.meta_data.alias == before.meta_data.alias,
{
    let all = before.meta_data.stored_profiles@;
    lemma_filter_positions(all, other_save(save_uuid));
    assert forall|k: int| 0 <= k < after.meta_data.stored_profiles@.len() implies (
    #[trigger] after.meta_data.stored_profiles@[k]).uuid@ != save_uuid by {
        assert(other_save(save_uuid)(all.filter(other_save(save_uuid))[k]));
    }
    assert forall|i: int|
        0 <= i < all.len() && (#[trigger] all[i]).uuid@ != save_uuid implies {
        let kept = after.meta_data.stored_profiles@;
        let earlier = all.take(i).filter(other_save(save_uuid));
        earlier.len() < kept.len() && kept[earlier.len() as int] == all[i]
    } by {
        assert(other_save(save_uuid)(all[i]));
    }
}

} // verus!
