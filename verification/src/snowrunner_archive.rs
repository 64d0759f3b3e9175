//! Archiving a SnowRunner profile, step by step: the decisions are taken
//! here, the work on the file system is asked for through actions and its
//! results come back as events.

use vstd::prelude::*;

use crate::error::{AppError, StorageFailure};
use crate::ids::{is_hex_char, lemma_hyphenated_uuid_text, new_archive_id, ArchiveId};
use crate::paths::{is_plain_file_name, is_verbatim, join_path, joined};
use crate::snowrunner::{file_names, files_to_archive, unnamed_file, ProfileFileEntry, SavedProfile, SnowRunnerProfile};
use crate::timestamp::modified_or_now;

verus! {

/// The name of the archive file of the backup `id`.
pub open spec fn archive_file_text(id: ArchiveId) -> Seq<char> {
    id.spec_hyphenated() + ".zip"@
}

/// The archive file name of a backup is a bare file name.
pub proof fn lemma_archive_file_name_is_plain(id: ArchiveId)
    requires
        id.well_formed(),
    ensures
        is_plain_file_name(archive_file_text(id)),
{
    lemma_hyphenated_uuid_text(id.spec_bytes());
    reveal_strlit(".zip");
    reveal_strlit(".");
    reveal_strlit("..");
    let h = id.spec_hyphenated();
    let t = archive_file_text(id);
    assert forall|i: int| 0 <= i < t.len() implies #[trigger] t[i] != '/' && t[i] != '\\' && t[i]
        != ':' by {
        if i < h.len() {
            assert(t[i] == h[i]);
            assert(is_hex_char(h[i]) || h[i] == '-');
        } else {
            assert(t[i] == ".zip"@[i - h.len()]);
        }
    }
}

/// Where an archive of a SnowRunner profile stands.
pub enum ArchiveStage {
    /// Waiting for the listing of the profile's directory.
    Listing,
    /// Waiting for the application's data directory; the backup's
    /// identifier is drawn and the files to archive are known (`None` where
    /// one of them has a name that is not valid UTF-8).
    Locating { id: ArchiveId, files: Option<Vec<String>> },
    /// Waiting for the archive file to be created at `target`, in the data
    /// directory `dir`.
    Creating { id: ArchiveId, files: Option<Vec<String>>, dir: String, target: String },
    /// Waiting for the zip of `files` to be written into `target`.
    Writing { id: ArchiveId, files: Vec<String>, dir: String, target: String },
    /// The archive could not be written; waiting for the partly written
    /// file at `target` to be deleted.
    Discarding { target: String },
    /// The backup is recorded; waiting for the metadata to be stored.
    Storing,
    /// Done, with this outcome.
    Finished(Result<(), AppError>),
}

/// What the archive asks of the file system next.
#[derive(Debug)]
pub enum ArchiveAction {
    /// List the profile's directory.
    ListProfile,
    /// Find the application's data directory.
    LocateDataDir,
    /// Create the archive file at this path.
    CreateFile(String),
    /// Write into the archive file a zip of these files of the profile's
    /// directory, and finish it.
    WriteZip(Vec<String>),
    /// Delete the archive file at this path; whether that succeeds does not
    /// matter.
    RemoveArchive(String),
    /// Store the profile's metadata.
    StoreMetadata,
    /// The archive is done, with this outcome.
    Finish(Result<(), AppError>),
}

/// What the file system answered.
pub enum ArchiveEvent {
    /// The entries of the profile's directory (`None` where it cannot be
    /// listed; an entry is `None` where it cannot be read).
    ProfileListed(Option<Vec<Option<ProfileFileEntry>>>),
    /// The application's data directory, as text (`None` where unknown).
    DataDirLocated(Option<String>),
    /// Whether the archive file was created (`Err` with the system's message).
    FileCreated(Result<(), String>),
    /// Whether the zip was written and finished.
    ZipWritten(bool),
    /// The archive file was deleted, or not.
    ArchiveRemoved,
    /// Whether the metadata was stored.
    MetadataStored(Result<(), StorageFailure>),
}

/// Whether `action` is the one that a stage waits on.
pub open spec fn archive_awaits(stage: ArchiveStage, action: ArchiveAction) -> bool {
    match stage {
        ArchiveStage::Listing => action is ListProfile,
        ArchiveStage::Locating { .. } => action is LocateDataDir,
        ArchiveStage::Creating { target, .. } => action == ArchiveAction::CreateFile(target),
        ArchiveStage::Writing { files, .. } => action matches ArchiveAction::WriteZip(f) && f@
            == files@,
        ArchiveStage::Discarding { target } => action == ArchiveAction::RemoveArchive(target),
        ArchiveStage::Storing => action is StoreMetadata,
        ArchiveStage::Finished(r) => action == ArchiveAction::Finish(r),
    }
}

/// Whether `event` answers what the stage waits on.
pub open spec fn archive_answers(stage: ArchiveStage, event: ArchiveEvent) -> bool {
    ||| stage is Listing && event is ProfileListed
    ||| stage is Locating && event is DataDirLocated
    ||| stage is Creating && event is FileCreated
    ||| stage is Writing && event is ZipWritten
    ||| stage is Discarding && event is ArchiveRemoved
    ||| stage is Storing && event is MetadataStored
}

/// An archive of a SnowRunner profile under way, under the name the user
/// chose.
pub struct ArchiveJob {
    name: String,
    stage: ArchiveStage,
}

impl ArchiveJob {
    #[verifier::type_invariant]
    spec fn stage_consistent(self) -> bool {
        match self.stage {
            ArchiveStage::Locating { id, .. } => id.well_formed(),
            ArchiveStage::Creating { id, dir, target, .. } => id.well_formed() && (!is_verbatim(
                dir@,
            ) ==> joined(target@, dir@, archive_file_text(id))),
            ArchiveStage::Writing { id, dir, target, .. } => id.well_formed() && (!is_verbatim(dir@)
                ==> joined(target@, dir@, archive_file_text(id))),
            _ => true,
        }
    }

    /// The name of the backup.
    pub closed spec fn spec_name(&self) -> Seq<char> {
        self.name@
    }

    /// Where the archive stands.
    pub closed spec fn spec_stage(&self) -> ArchiveStage {
        self.stage
    }

    /// An archive under the name `name`, about to list the profile's directory.
    pub fn new(name: &str) -> (res: ArchiveJob)
        ensures
            res.spec_name() == name@,
            res.spec_stage() is Listing,
    {
        ArchiveJob { name: String::from_str(name), stage: ArchiveStage::Listing }
    }

    /// The action the archive waits on.
    pub fn awaited(&self) -> (res: ArchiveAction)
        ensures
            archive_awaits(self.spec_stage(), res),
    {
        match &self.stage {
            ArchiveStage::Listing => ArchiveAction::ListProfile,
            ArchiveStage::Locating { .. } => ArchiveAction::LocateDataDir,
            ArchiveStage::Creating { target, .. } => ArchiveAction::CreateFile(target.clone()),
            ArchiveStage::Writing { files, .. } => ArchiveAction::WriteZip(clone_strings(files)),
            ArchiveStage::Discarding { target } => ArchiveAction::RemoveArchive(target.clone()),
            ArchiveStage::Storing => ArchiveAction::StoreMetadata,
            ArchiveStage::Finished(r) => {
                ArchiveAction::Finish(copy_outcome(r))
            },
        }
    }
}

/// A copy of a list of strings.
pub fn clone_strings(v: &Vec<String>) -> (res: Vec<String>)
    ensures
        res@ == v@,
{
    let mut res: Vec<String> = Vec::new();
    let n = v.len();
    for i in 0..n
        invariant
            n == v@.len(),
            res@ == v@.take(i as int),
    {
        res.push(v[i].clone());
        proof {
            assert(v@.take(i + 1) =~= v@.take(i as int).push(v@[i as int]));
        }
    }
    proof {
        assert(v@.take(n as int) =~= v@);
    }
    res
}

/// A copy of an outcome.
pub fn copy_outcome(r: &Result<(), AppError>) -> (res: Result<(), AppError>)
    ensures
        res == *r,
{
    match r {
        Ok(u) => Ok(*u),
        Err(e) => Err(e.clone()),
    }
}

fn archive_answers_exec(stage: &ArchiveStage, event: &ArchiveEvent) -> (res: bool)
    ensures
        res == archive_answers(*stage, *event),
{
    match stage {
        ArchiveStage::Listing => matches!(event, ArchiveEvent::ProfileListed(_)),
        ArchiveStage::Locating { .. } => matches!(event, ArchiveEvent::DataDirLocated(_)),
        ArchiveStage::Creating { .. } => matches!(event, ArchiveEvent::FileCreated(_)),
        ArchiveStage::Writing { .. } => matches!(event, ArchiveEvent::ZipWritten(_)),
        ArchiveStage::Discarding { .. } => matches!(event, ArchiveEvent::ArchiveRemoved),
        ArchiveStage::Storing => matches!(event, ArchiveEvent::MetadataStored(_)),
        ArchiveStage::Finished(_) => false,
    }
}

/// The finished stage with outcome `r`, and the action that reports it.
fn finished(r: Result<(), AppError>) -> (res: (ArchiveStage, ArchiveAction))
    ensures
        res.0 == ArchiveStage::Finished(r),
        res.1 == ArchiveAction::Finish(r),
{
    let copy = copy_outcome(&r);
    (ArchiveStage::Finished(r), ArchiveAction::Finish(copy))
}

/// Whether the stage `next`, the action, and the profile `after` are what
/// answering `event` in `stage` gives, for the backup named `name` of the
/// profile `before`.
pub open spec fn archive_step(
    before: SnowRunnerProfile,
    after: SnowRunnerProfile,
    name: Seq<char>,
    stage: ArchiveStage,
    event: ArchiveEvent,
    next: ArchiveStage,
    action: ArchiveAction,
) -> bool {
    match stage {
        ArchiveStage::Listing => match event {
            ArchiveEvent::ProfileListed(None) => {
                &&& action matches ArchiveAction::Finish(r) && next == ArchiveStage::Finished(r)
                    && (r matches Err(AppError::FileReadError(d)) && d@ == Seq::<char>::empty())
                &&& after == before
            },
            ArchiveEvent::ProfileListed(Some(entries)) => if entries@.len() == 0 {
                &&& action matches ArchiveAction::Finish(r) && next == ArchiveStage::Finished(r)
                    && (r matches Err(AppError::SnowRunnerNoProfile(d)) && d@ == "No save data found"@)
                &&& after == before
            } else {
                &&& action is LocateDataDir
                &&& next matches ArchiveStage::Locating { id, files } && {
                    &&& id.well_formed()
                    &&& files is None <==> exists|i: int|
                        0 <= i < entries@.len() && unnamed_file(#[trigger] entries@[i])
                    &&& files matches Some(f) ==> f@ == file_names(entries@)
                }
                &&& after == before
            },
            _ => false,
        },
        ArchiveStage::Locating { id, files } => match event {
            ArchiveEvent::DataDirLocated(None) => {
                &&& action matches ArchiveAction::Finish(r) && next == ArchiveStage::Finished(r)
                    && (r matches Err(AppError::AppDataDirNotFound(d)) && d@ == Seq::<char>::empty())
                &&& after == before
            },
            ArchiveEvent::DataDirLocated(Some(dir)) => {
                &&& action matches ArchiveAction::CreateFile(t) && {
                    &&& next == ArchiveStage::Creating { id, files, dir, target: t }
                    &&& !is_verbatim(dir@) ==> joined(t@, dir@, archive_file_text(id))
                }
                &&& after == before
            },
            _ => false,
        },
        ArchiveStage::Creating { id, files, dir, target } => match event {
            ArchiveEvent::FileCreated(Err(m)) => {
                &&& action matches ArchiveAction::Finish(r) && next == ArchiveStage::Finished(r)
                    && (r matches Err(AppError::FileCreateError(d)) && d == m)
                &&& after == before
            },
            ArchiveEvent::FileCreated(Ok(_)) => {
                &&& match files {
                    None => action == ArchiveAction::RemoveArchive(target) && next
                        == ArchiveStage::Discarding { target },
                    Some(f) => action matches ArchiveAction::WriteZip(w) && w@ == f@ && next
                        == ArchiveStage::Writing { id, files: f, dir, target },
                }
                &&& after == before
            },
            _ => false,
        },
        ArchiveStage::Writing { id, files, dir, target } => match event {
            ArchiveEvent::ZipWritten(false) => {
                &&& action == ArchiveAction::RemoveArchive(target)
                &&& next == ArchiveStage::Discarding { target }
                &&& after == before
            },
            ArchiveEvent::ZipWritten(true) => {
                &&& action is StoreMetadata
                &&& next is Storing
                &&& after.uuid == before.uuid
                &&& after.modified == before.modified
                &&& after.meta_data.alias == before.meta_data.alias
                &&& after.meta_data.stored_profiles@.len() == before.meta_data.stored_profiles@.len() + 1
                &&& after.meta_data.stored_profiles@.drop_last() == before.meta_data.stored_profiles@
                &&& {
                    let saved = after.meta_data.stored_profiles@.last();
                    &&& saved.name@ == name
                    &&& saved.file_path == target
                    &&& saved.uuid@ == id.spec_simple()
                    &&& saved.saved_on.well_formed()
                }
                &&& id.well_formed()
                &&& !is_verbatim(dir@) ==> joined(target@, dir@, archive_file_text(id))
            },
            _ => false,
        },
        ArchiveStage::Discarding { .. } => {
            &&& action matches ArchiveAction::Finish(r) && next == ArchiveStage::Finished(r) && (r matches Err(
                AppError::FileWriteError(d),
            ) && d@ == "Unable to archive savegame!"@)
            &&& after == before
        },
        ArchiveStage::Storing => match event {
            ArchiveEvent::MetadataStored(Ok(_)) => {
                &&& action == ArchiveAction::Finish(Ok(()))
                &&& next == ArchiveStage::Finished(Ok(()))
                &&& after == before
            },
            ArchiveEvent::MetadataStored(Err(f)) => {
                &&& action matches ArchiveAction::Finish(r) && next == ArchiveStage::Finished(r)
                    && (r matches Err(e) && f.reports(e))
                &&& after == before
            },
            _ => false,
        },
        ArchiveStage::Finished(_) => false,
    }
}

impl SnowRunnerProfile {
    /// Archives the profile under the job's name, one step at a time: each
    /// call answers the action asked for before with `event`, and returns
    /// the next action. A job starts by asking for the listing of the
    /// profile's directory. A directory that cannot be listed, or that is
    /// empty, is refused; otherwise a fresh identifier is drawn, the archive
    /// file named by it is created in the data directory and filled with
    /// the profile's files, the backup is recorded under the simple text of
    /// the same identifier, and the metadata is stored. An archive file that
    /// could not be filled is deleted before the job fails. An event that does
    /// not answer the pending action changes nothing, and that action is
    /// asked for again.
    pub fn archive_savegame(&mut self, job: &mut ArchiveJob, event: ArchiveEvent) -> (action:
        ArchiveAction)
        ensures
            final(job).spec_name() == old(job).spec_name(),
            !archive_answers(old(job).spec_stage(), event) ==> {
                &&& archive_awaits(old(job).spec_stage(), action)
                &&& final(job).spec_stage() == old(job).spec_stage()
                &&& *final(self) == *old(self)
            },
            archive_answers(old(job).spec_stage(), event) ==> archive_step(
                *old(self),
                *final(self),
                old(job).spec_name(),
                old(job).spec_stage(),
                event,
                final(job).spec_stage(),
                action,
            ),
    {
        proof {
            use_type_invariant(&*job);
        }
        if !archive_answers_exec(&job.stage, &event) {
            return job.awaited();
        }
        let mut stage = ArchiveStage::Storing;
        std::mem::swap(&mut stage, &mut job.stage);
        let (next, action) = match stage {
            ArchiveStage::Listing => match event {
                ArchiveEvent::ProfileListed(None) => finished(
                    Err(AppError::FileReadError(String::new())),
                ),
                ArchiveEvent::ProfileListed(Some(entries)) => {
                    if entries.len() == 0 {
                        finished(
                            Err(AppError::SnowRunnerNoProfile(String::from_str("No save data found"))),
                        )
                    } else {
                        let files = files_to_archive(entries);
                        let id = new_archive_id();
                        (ArchiveStage::Locating { id, files }, ArchiveAction::LocateDataDir)
                    }
                },
                _ => {
                    proof {
                        assert(false);
                    }
                    finished(Ok(()))
                },
            },
            ArchiveStage::Locating { id, files } => match event {
                ArchiveEvent::DataDirLocated(None) => finished(
                    Err(AppError::AppDataDirNotFound(String::new())),
                ),
                ArchiveEvent::DataDirLocated(Some(dir)) => {
                    let file_name = String::from_str(id.hyphenated()).concat(".zip");
                    proof {
                        lemma_archive_file_name_is_plain(id);
                    }
                    let target = join_path(dir.as_str(), file_name.as_str());
                    let action = ArchiveAction::CreateFile(target.clone());
                    (ArchiveStage::Creating { id, files, dir, target }, action)
                },
                _ => {
                    proof {
                        assert(false);
                    }
                    finished(Ok(()))
                },
            },
            ArchiveStage::Creating { id, files, dir, target } => match event {
                ArchiveEvent::FileCreated(Err(m)) => finished(Err(AppError::FileCreateError(m))),
                ArchiveEvent::FileCreated(Ok(_)) => match files {
                    None => {
                        let action = ArchiveAction::RemoveArchive(target.clone());
                        (ArchiveStage::Discarding { target }, action)
                    },
                    Some(f) => {
                        let action = ArchiveAction::WriteZip(clone_strings(&f));
                        (ArchiveStage::Writing { id, files: f, dir, target }, action)
                    },
                },
                _ => {
                    proof {
                        assert(false);
                    }
                    finished(Ok(()))
                },
            },
            ArchiveStage::Writing { id, files, dir, target } => match event {
                ArchiveEvent::ZipWritten(false) => {
                    let action = ArchiveAction::RemoveArchive(target.clone());
                    (ArchiveStage::Discarding { target }, action)
                },
                ArchiveEvent::ZipWritten(true) => {
                    let saved = SavedProfile {
                        name: job.name.clone(),
                        saved_on: modified_or_now(None),
                        file_path: target,
                        uuid: id.into_simple(),
                    };
                    self.meta_data.stored_profiles.push(saved);
                    proof {
                        assert(self.meta_data.stored_profiles@.drop_last() =~= old(
                            self,
                        ).meta_data.stored_profiles@);
                    }
                    (ArchiveStage::Storing, ArchiveAction::StoreMetadata)
                },
                _ => {
                    proof {
                        assert(false);
                    }
                    finished(Ok(()))
                },
            },
            ArchiveStage::Discarding { .. } => finished(
                Err(AppError::FileWriteError(String::from_str("Unable to archive savegame!"))),
            ),
            ArchiveStage::Storing => match event {
                ArchiveEvent::MetadataStored(Ok(_)) => finished(Ok(())),
                ArchiveEvent::MetadataStored(Err(f)) => finished(Err(f.into_error())),
                _ => {
                    proof {
                        assert(false);
                    }
                    finished(Ok(()))
                },
            },
            ArchiveStage::Finished(_) => {
                proof {
                    assert(false);
                }
                finished(Ok(()))
            },
        };
        job.stage = next;
        action
    }
}

} // verus!
