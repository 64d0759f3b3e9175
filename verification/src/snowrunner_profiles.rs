//! Gathering the SnowRunner profiles, step by step: the decisions are taken
//! here, the listing of the game's directory and the loading of each
//! profile's metadata are asked for through actions and their results come
//! back as events.

use vstd::prelude::*;

use crate::error::AppError;
use crate::snowrunner::{profile_dir, profile_dirs, ProfileDirEntry, SnowRunnerMetaData, SnowRunnerProfile};
use crate::search::lemma_filter_positions;
use crate::snowrunner_archive::copy_outcome;
use crate::timestamp::modified_or_now;

verus! {

/// The profile directories whose name is valid UTF-8, in order.
pub open spec fn named_dirs(dirs: Seq<ProfileDirEntry>) -> Seq<ProfileDirEntry>
    decreases dirs.len(),
{
    if dirs.len() == 0 {
        Seq::empty()
    } else if dirs.last().name is Some {
        named_dirs(dirs.drop_last()).push(dirs.last())
    } else {
        named_dirs(dirs.drop_last())
    }
}

/// Whether a profile directory has a name that is valid UTF-8.
pub open spec fn named_dir() -> spec_fn(ProfileDirEntry) -> bool {
    |d: ProfileDirEntry| d.name is Some
}

/// Whether the profile `p` is the one kept in the directory `dir`: named by
/// it and dated by its modification time or, failing that, by the clock.
pub open spec fn kept_in(p: SnowRunnerProfile, dir: ProfileDirEntry) -> bool {
    &&& dir.name matches Some(n) && p.uuid == n
    &&& dir.modified matches Some(t) ==> p.modified == t
    &&& dir.modified is None ==> p.modified.well_formed()
}

/// Whether `profiles` are, in order, those kept in the named directories
/// among `dirs`.
pub open spec fn profiles_of(profiles: Seq<SnowRunnerProfile>, dirs: Seq<ProfileDirEntry>) -> bool {
    &&& profiles.len() == named_dirs(dirs).len()
    &&& forall|i: int| #![trigger profiles[i]] 0 <= i < profiles.len() ==> kept_in(profiles[i], named_dirs(dirs)[i])
}

/// Where the gathering of the profiles stands.
pub enum ProfilesStage {
    /// Waiting for the listing of the game's profile storage directory.
    Listing,
    /// Waiting for the metadata of the profile in `dirs[next]`; `profiles`
    /// are those of the directories before it.
    Loading { dirs: Vec<ProfileDirEntry>, next: usize, profiles: Vec<SnowRunnerProfile> },
    /// Done, with this outcome, the profile directories and the profiles.
    Finished {
        outcome: Result<(), AppError>,
        dirs: Vec<ProfileDirEntry>,
        profiles: Vec<SnowRunnerProfile>,
    },
}

/// What the gathering asks for next.
#[derive(Debug)]
pub enum ProfilesAction {
    /// List the game's profile storage directory.
    ListProfiles,
    /// Load the metadata of the profile with this identifier.
    LoadMetadata(String),
    /// Done, with this outcome.
    Finish(Result<(), AppError>),
}

/// What the file system answered.
pub enum ProfilesEvent {
    /// The entries of the game's profile storage directory (`Err` with the
    /// system's message where it cannot be listed).
    Listed(Result<Vec<ProfileDirEntry>, String>),
    /// The metadata of the profile asked for.
    MetadataLoaded(SnowRunnerMetaData),
}

/// Whether `action` is the one that a stage waits on.
pub open spec fn profiles_awaits(stage: ProfilesStage, action: ProfilesAction) -> bool {
    match stage {
        ProfilesStage::Listing => action is ListProfiles,
        ProfilesStage::Loading { dirs, next, .. } => action matches ProfilesAction::LoadMetadata(n)
            && dirs@[next as int].name == Some(n),
        ProfilesStage::Finished { outcome, .. } => action == ProfilesAction::Finish(outcome),
    }
}

/// Whether `event` answers what the stage waits on.
pub open spec fn profiles_answers(stage: ProfilesStage, event: ProfilesEvent) -> bool {
    ||| stage is Listing && event is Listed
    ||| stage is Loading && event is MetadataLoaded
}

/// Whether a stage is consistent: a pending load is for a named directory,
/// the profiles gathered are those of the directories before it, and a
/// successful gathering holds the profiles of all the named directories.
pub open spec fn profiles_consistent(stage: ProfilesStage) -> bool {
    match stage {
        ProfilesStage::Listing => true,
        ProfilesStage::Loading { dirs, next, profiles } => {
            &&& next < dirs@.len()
            &&& dirs@[next as int].name is Some
            &&& profiles_of(profiles@, dirs@.take(next as int))
        },
        ProfilesStage::Finished { outcome, dirs, profiles } => outcome is Ok ==> profiles_of(
            profiles@,
            dirs@,
        ),
    }
}

/// The profiles gathered so far in a stage.
pub open spec fn gathered(stage: ProfilesStage) -> Seq<SnowRunnerProfile> {
    match stage {
        ProfilesStage::Listing => Seq::empty(),
        ProfilesStage::Loading { profiles, .. } => profiles@,
        ProfilesStage::Finished { profiles, .. } => profiles@,
    }
}

/// The profile directories of a stage.
pub open spec fn stage_dirs(stage: ProfilesStage) -> Seq<ProfileDirEntry> {
    match stage {
        ProfilesStage::Listing => Seq::empty(),
        ProfilesStage::Loading { dirs, .. } => dirs@,
        ProfilesStage::Finished { dirs, .. } => dirs@,
    }
}

/// The gathering of the SnowRunner profiles.
pub struct ProfilesJob {
    stage: ProfilesStage,
}

impl ProfilesJob {
    #[verifier::type_invariant]
    spec fn consistent(self) -> bool {
        profiles_consistent(self.stage)
    }

    /// Where the gathering stands.
    pub closed spec fn spec_stage(&self) -> ProfilesStage {
        self.stage
    }

    /// A gathering about to list the game's profile storage directory.
    pub fn new() -> (res: ProfilesJob)
        ensures
            res.spec_stage() is Listing,
    {
        ProfilesJob { stage: ProfilesStage::Listing }
    }

    /// The profiles gathered.
    pub fn into_profiles(self) -> (res: Vec<SnowRunnerProfile>)
        ensures
            res@ == gathered(self.spec_stage()),
    {
        match self.stage {
            ProfilesStage::Listing => Vec::new(),
            ProfilesStage::Loading { profiles, .. } => profiles,
            ProfilesStage::Finished { profiles, .. } => profiles,
        }
    }
}

proof fn lemma_named_dirs_step(dirs: Seq<ProfileDirEntry>, k: int)
    requires
        0 <= k < dirs.len(),
    ensures
        named_dirs(dirs.take(k + 1)) == if dirs[k].name is Some {
            named_dirs(dirs.take(k)).push(dirs[k])
        } else {
            named_dirs(dirs.take(k))
        },
{
    assert(dirs.take(k + 1).drop_last() =~= dirs.take(k));
}

/// From the directory `dirs[next]` on, the next one with a valid name is
/// asked for; where there is none, the gathering is done.
fn advance(dirs: Vec<ProfileDirEntry>, next: usize, profiles: Vec<SnowRunnerProfile>) -> (res: (
    ProfilesStage,
    ProfilesAction,
))
    requires
        next <= dirs@.len(),
        profiles_of(profiles@, dirs@.take(next as int)),
    ensures
        profiles_consistent(res.0),
        profiles_awaits(res.0, res.1),
        stage_dirs(res.0) == dirs@,
        gathered(res.0) == profiles@,
        res.0 is Loading || res.0 == (ProfilesStage::Finished { outcome: Ok(()), dirs, profiles }),
{
    let mut k = next;
    while k < dirs.len() && dirs[k].name.is_none()
        invariant
            next <= k <= dirs@.len(),
            profiles_of(profiles@, dirs@.take(k as int)),
        decreases dirs@.len() - k,
    {
        proof {
            lemma_named_dirs_step(dirs@, k as int);
        }
        k = k + 1;
    }
    if k < dirs.len() {
        let name = match &dirs[k].name {
            Some(n) => n.clone(),
            None => String::new(),
        };
        (ProfilesStage::Loading { dirs, next: k, profiles }, ProfilesAction::LoadMetadata(name))
    } else {
        proof {
            assert(dirs@.take(k as int) =~= dirs@);
        }
        (ProfilesStage::Finished { outcome: Ok(()), dirs, profiles }, ProfilesAction::Finish(Ok(())))
    }
}

fn profiles_finished(r: Result<(), AppError>) -> (res: (ProfilesStage, ProfilesAction))
    requires
        r is Err,
    ensures
        res.0 matches ProfilesStage::Finished { outcome, .. } && outcome == r,
        gathered(res.0).len() == 0,
        res.1 == ProfilesAction::Finish(r),
{
    let copy = copy_outcome(&r);
    (ProfilesStage::Finished { outcome: r, dirs: Vec::new(), profiles: Vec::new() }, ProfilesAction::Finish(copy))
}

impl SnowRunnerProfile {
    /// Gathers the SnowRunner profiles, one step at a time: each call
    /// answers the action asked for before with `event`, and returns the
    /// next action. A profile storage directory that cannot be listed, or
    /// that holds no profile directory, is reported. Otherwise the metadata
    /// of each profile directory whose name is valid UTF-8 is asked for in
    /// turn, and the profile kept there is gathered with it; once every such
    /// directory has been seen, the gathering finishes with the profiles of
    /// all of them, in listing order. An event that does not answer the
    /// pending action changes nothing, and that action is asked for again.
    pub fn get_available_snowrunner_profiles(job: &mut ProfilesJob, event: ProfilesEvent) -> (action:
        ProfilesAction)
        ensures
            profiles_consistent(final(job).spec_stage()),
            profiles_awaits(final(job).spec_stage(), action),
            !profiles_answers(old(job).spec_stage(), event) ==> final(job).spec_stage() == old(
                job,
            ).spec_stage(),
            profiles_answers(old(job).spec_stage(), event) ==> match event {
                ProfilesEvent::Listed(Err(e)) => action matches ProfilesAction::Finish(r) && (r matches Err(
                    AppError::SnowRunnerProfileDirMissing(d),
                ) && d@ == e@) && gathered(final(job).spec_stage()).len() == 0,
                ProfilesEvent::Listed(Ok(entries)) => {
                    let dirs = entries@.filter(profile_dir());
                    &&& dirs.len() == 0 ==> (action matches ProfilesAction::Finish(r) && (r matches Err(
                        AppError::SnowRunnerNoProfile(d),
                    ) && d@ == "No SnowRunner profiles found"@) && gathered(
                        final(job).spec_stage(),
                    ).len() == 0)
                    &&& dirs.len() > 0 ==> {
                        &&& stage_dirs(final(job).spec_stage()) == dirs
                        &&& gathered(final(job).spec_stage()).len() == 0
                        &&& action is LoadMetadata || action == ProfilesAction::Finish(Ok(()))
                    }
                },
                ProfilesEvent::MetadataLoaded(meta) => match old(job).spec_stage() {
                    ProfilesStage::Loading { dirs, next, profiles } => {
                        let added = gathered(final(job).spec_stage());
                        &&& stage_dirs(final(job).spec_stage()) == dirs@
                        &&& added.len() == profiles@.len() + 1
                        &&& added.drop_last() == profiles@
                        &&& kept_in(added.last(), dirs@[next as int])
                        &&& added.last().meta_data == meta
                        &&& action is LoadMetadata || action == ProfilesAction::Finish(Ok(()))
                    },
                    _ => false,
                },
            },
            action == ProfilesAction::Finish(Ok(())) ==> profiles_of(
                gathered(final(job).spec_stage()),
                stage_dirs(final(job).spec_stage()),
            ),
    {
        proof {
            use_type_invariant(&*job);
        }
        let mut stage = ProfilesStage::Listing;
        std::mem::swap(&mut stage, &mut job.stage);
        assert(profiles_consistent(stage));
        let (next_stage, action) = match stage {
            ProfilesStage::Listing => match event {
                ProfilesEvent::Listed(listing) => match profile_dirs(listing) {
                    Err(e) => profiles_finished(Err(e)),
                    Ok(dirs) => {
                        proof {
                            assert(dirs@.take(0) =~= Seq::<ProfileDirEntry>::empty());
                        }
                        advance(dirs, 0, Vec::new())
                    },
                },
                ProfilesEvent::MetadataLoaded(_) => (ProfilesStage::Listing, ProfilesAction::ListProfiles),
            },
            ProfilesStage::Loading { dirs, next, mut profiles } => match event {
                ProfilesEvent::MetadataLoaded(meta) => {
                    let ghost before = profiles@;
                    let n = dirs.len();
                    assert(next < n);
                    let entry = &dirs[next];
                    let uuid = match &entry.name {
                        Some(n) => n.clone(),
                        None => String::new(),
                    };
                    let profile = SnowRunnerProfile {
                        uuid,
                        modified: modified_or_now(entry.modified),
                        meta_data: meta,
                    };
                    profiles.push(profile);
                    proof {
                        lemma_named_dirs_step(dirs@, next as int);
                        let named = named_dirs(dirs@.take(next + 1));
                        assert forall|i: int| #![trigger profiles@[i]] 0 <= i < profiles@.len() implies kept_in(
                            profiles@[i],
                            named[i],
                        ) by {
                            if i < before.len() {
                                assert(profiles@[i] == before[i]);
                            }
                        }
                    }
                    advance(dirs, next + 1, profiles)
                },
                ProfilesEvent::Listed(_) => {
                    let name = match &dirs[next].name {
                        Some(n) => n.clone(),
                        None => String::new(),
                    };
                    (ProfilesStage::Loading { dirs, next, profiles }, ProfilesAction::LoadMetadata(name))
                },
            },
            ProfilesStage::Finished { outcome, dirs, profiles } => {
                let copy = copy_outcome(&outcome);
                (ProfilesStage::Finished { outcome, dirs, profiles }, ProfilesAction::Finish(copy))
            },
        };
        job.stage = next_stage;
        action
    }
}

/// The named directories are, in order, those that pass `named_dir`.
proof fn lemma_named_dirs_follow(dirs: Seq<ProfileDirEntry>)
    ensures
        named_dirs(dirs) == dirs.filter(named_dir()),
    decreases dirs.len(),
{
    if dirs.len() > 0 {
        let d = dirs.drop_last();
        lemma_named_dirs_follow(d);
        assert(d.push(dirs.last()) =~= dirs);
        d.lemma_filter_push(dirs.last(), named_dir());
    }
}

/// The profiles are gathered from every profile directory whose name is
/// valid UTF-8, each once and in listing order: each directory used has
/// such a name; the directory at `i`, where it has one, is used right after
/// those listed before it; and as many are used as have one.
pub proof fn lemma_named_dirs_exact(dirs: Seq<ProfileDirEntry>)
    ensures
        named_dirs(dirs).len() == dirs.filter(named_dir()).len(),
        forall|k: int|
            0 <= k < named_dirs(dirs).len() ==> (#[trigger] named_dirs(dirs)[k]).name is Some
                && dirs.contains(named_dirs(dirs)[k]),
        forall|i: int|
            0 <= i < dirs.len() && (#[trigger] dirs[i]).name is Some ==> {
                let before = dirs.take(i).filter(named_dir());
                before.len() < named_dirs(dirs).len() && named_dirs(dirs)[before.len() as int] == dirs[i]
            },
{
    lemma_named_dirs_follow(dirs);
    lemma_filter_positions(dirs, named_dir());
    assert forall|k: int| 0 <= k < named_dirs(dirs).len() implies (#[trigger] named_dirs(dirs)[k]).name is Some
        && dirs.contains(named_dirs(dirs)[k]) by {
        assert(named_dir()(dirs.filter(named_dir())[k]));
    }
    assert forall|i: int| 0 <= i < dirs.len() && (#[trigger] dirs[i]).name is Some implies {
        let before = dirs.take(i).filter(named_dir());
        before.len() < named_dirs(dirs).len() && named_dirs(dirs)[before.len() as int] == dirs[i]
    } by {
        assert(named_dir()(dirs[i]));
    }
}

} // verus!
