//! SnowRunner profiles and the backups of them that the application
//! archives.

use vstd::prelude::*;

use crate::error::AppError;
use crate::search::{first_index, lemma_filter_positions, lemma_first_index, lemma_first_index_at};
use crate::timestamp::Timestamp;

verus! {

/// Where the game keeps its profiles, relative to the user's documents
/// directory.
pub const PROFILE_PATH: &'static str = "My Games\\SnowRunner\\base\\storage";

/// Where the application keeps the SnowRunner backups and metadata,
/// relative to its data directory.
pub const DATA_FOLDER: &'static str = "sr-data";

/// A backup of a SnowRunner profile: an archive of the profile's files.
#[derive(Debug)]
pub struct SavedProfile {
    /// The name the user gave the backup.
    pub name: String,
    /// When the backup was made.
    pub saved_on: Timestamp,
    /// The path of the archive file.
    pub file_path: String,
    /// The identifier of the backup.
    pub uuid: String,
}

impl Clone for SavedProfile {
    fn clone(&self) -> (res: Self)
        ensures
            res == *self,
    {
        SavedProfile {
            name: self.name.clone(),
            saved_on: self.saved_on,
            file_path: self.file_path.clone(),
            uuid: self.uuid.clone(),
        }
    }
}

/// What the application keeps about a profile: its backups and an alias.
#[derive(Debug)]
pub struct SnowRunnerMetaData {
    pub stored_profiles: Vec<SavedProfile>,
    pub alias: Option<String>,
}

/// A SnowRunner profile: the directory the game keeps it in is named by
/// its identifier.
#[derive(Debug)]
pub struct SnowRunnerProfile {
    pub uuid: String,
    pub modified: Timestamp,
    pub meta_data: SnowRunnerMetaData,
}

/// One entry of the game's profile storage directory, as the file system
/// gave it.
#[derive(Debug)]
pub struct ProfileDirEntry {
    /// Whether the entry is a directory.
    pub is_dir: bool,
    /// The length of the entry's name in the platform's encoding.
    pub name_len: usize,
    /// The entry's name, where it is valid UTF-8.
    pub name: Option<String>,
    /// The time the entry was last modified, where the file system could tell.
    pub modified: Option<Timestamp>,
}

/// One entry of a profile's directory, as the file system gave it.
#[derive(Debug)]
pub struct ProfileFileEntry {
    /// Whether the entry is a directory.
    pub is_dir: bool,
    /// The entry's name, where it is valid UTF-8.
    pub name: Option<String>,
}

/// Whether an entry of a profile's directory is a file whose name is not
/// valid UTF-8, which an archive cannot hold.
pub open spec fn unnamed_file(entry: Option<ProfileFileEntry>) -> bool {
    entry matches Some(e) && !e.is_dir && e.name is None
}

/// The names of the files, in listing order, among the readable entries of
/// a profile's directory.
pub open spec fn file_names(entries: Seq<Option<ProfileFileEntry>>) -> Seq<String>
    decreases entries.len(),
{
    if entries.len() == 0 {
        Seq::empty()
    } else {
        let rest = file_names(entries.drop_last());
        match entries.last() {
            Some(e) => if !e.is_dir && e.name is Some {
                rest.push(e.name.unwrap())
            } else {
                rest
            },
            None => rest,
        }
    }
}

/// Whether an entry of a profile's directory goes into the profile's
/// archive: a readable entry that is a file with a valid name.
pub open spec fn archived_entry() -> spec_fn(Option<ProfileFileEntry>) -> bool {
    |o: Option<ProfileFileEntry>| o is Some && !o->0.is_dir && o->0.name is Some
}

/// Whether a backup has the identifier `uuid`.
pub open spec fn same_save(uuid: Seq<char>) -> spec_fn(SavedProfile) -> bool {
    |p: SavedProfile| p.uuid@ == uuid
}

/// Whether a backup has an identifier other than `uuid`.
pub open spec fn other_save(uuid: Seq<char>) -> spec_fn(SavedProfile) -> bool {
    |p: SavedProfile| p.uuid@ != uuid
}

/// Whether a profile has the identifier `uuid`.
pub open spec fn has_uuid(uuid: Seq<char>) -> spec_fn(SnowRunnerProfile) -> bool {
    |p: SnowRunnerProfile| p.uuid@ == uuid
}

/// The texts of a list of strings.
pub open spec fn texts(strings: Seq<String>) -> Seq<Seq<char>> {
    strings.map_values(|s: String| s@)
}

/// Whether the archive file of a backup is among `readable`.
pub open spec fn backup_readable(readable: Seq<Seq<char>>) -> spec_fn(SavedProfile) -> bool {
    |p: SavedProfile| readable.contains(p.file_path@)
}

/// The backups of `stored` that are left once those whose archive file is
/// not among the paths `readable` are forgotten.
pub open spec fn kept_backups(stored: Seq<SavedProfile>, readable: Seq<String>) -> Seq<SavedProfile> {
    stored.filter(backup_readable(texts(readable)))
}

/// Whether a directory entry holds a SnowRunner profile: a directory whose
/// name is 32 long.
pub open spec fn spec_is_profile_dir(entry: ProfileDirEntry) -> bool {
    entry.is_dir && entry.name_len == 32
}

/// Whether a directory entry of the game's profile storage directory holds
/// a SnowRunner profile.
pub open spec fn profile_dir() -> spec_fn(ProfileDirEntry) -> bool {
    |e: ProfileDirEntry| spec_is_profile_dir(e)
}

/// The detail text of the error reported for an unknown profile.
pub open spec fn unknown_profile_detail(profile_id: Seq<char>) -> Seq<char> {
    "Profile with id '"@ + profile_id + "' not found"@
}

/// Whether `paths` holds `path`.
fn contains_path(paths: &Vec<String>, path: &String) -> (res: bool)
    ensures
        res == texts(paths@).contains(path@),
{
    let n = paths.len();
    for i in 0..n
        invariant
            n == paths@.len(),
            forall|j: int| 0 <= j < i ==> paths@[j]@ != path@,
    {
        if paths[i] == *path {
            proof {
                assert(texts(paths@)[i as int] == path@);
            }
            return true;
        }
    }
    proof {
        if texts(paths@).contains(path@) {
            let k = choose|k: int| 0 <= k < texts(paths@).len() && texts(paths@)[k] == path@;
            assert(paths@[k]@ == path@);
        }
    }
    false
}

impl SnowRunnerMetaData {
    /// The metadata of a profile that has no backup and no alias.
    pub fn default() -> (res: SnowRunnerMetaData)
        ensures
            res.stored_profiles@.len() == 0,
            res.alias is None,
    {
        SnowRunnerMetaData { stored_profiles: Vec::new(), alias: None }
    }

    /// Forgets the backups whose archive file is not among `readable`, the
    /// paths that could be opened; the others stay, in their order.
    pub fn remove_deleted_backups(&mut self, readable: &Vec<String>)
        ensures
            final(self).stored_profiles@ == kept_backups(old(self).stored_profiles@, readable@),
            final(self).alias == old(self).alias,
    {
        let mut stored: Vec<SavedProfile> = Vec::new();
        std::mem::swap(&mut stored, &mut self.stored_profiles);
        let ghost all = stored@;
        let ghost keep = backup_readable(texts(readable@));
        let mut kept: Vec<SavedProfile> = Vec::new();
        for p in it: stored.into_iter()
            invariant
                it.seq() == all,
                keep == backup_readable(texts(readable@)),
                kept@ == all.take(it.index() as int).filter(keep),
        {
            let ghost k = it.index() as int;
            proof {
                assert(all.take(k + 1) =~= all.take(k).push(p));
                all.take(k).lemma_filter_push(p, keep);
            }
            if contains_path(readable, &p.file_path) {
                kept.push(p);
            }
        }
        proof {
            assert(all.take(all.len() as int) =~= all);
        }
        self.stored_profiles = kept;
    }
}

/// The name of the file that holds the metadata of the profile `uuid`.
pub fn metadata_file_name(uuid: &str) -> (res: String)
    ensures
        res@ == uuid@ + ".meta"@,
{
    String::from_str(uuid).concat(".meta")
}

/// The metadata of a profile, given what was read from its file with the
/// vanished backups forgotten (`None` where the data directory is unknown,
/// or the file is missing or cannot be parsed), and whether storing it back
/// succeeded: the loaded metadata where it was read and stored back, and
/// empty metadata otherwise.
pub fn try_load_metadata(pruned: Option<SnowRunnerMetaData>, stored_back: bool) -> (res:
    SnowRunnerMetaData)
    ensures
        pruned is Some && stored_back ==> res == pruned->0,
        !(pruned is Some && stored_back) ==> res.stored_profiles@.len() == 0 && res.alias is None,
{
    match pruned {
        Some(m) => if stored_back {
            m
        } else {
            SnowRunnerMetaData::default()
        },
        None => SnowRunnerMetaData::default(),
    }
}

/// Whether a directory entry holds a SnowRunner profile: a directory whose
/// name is 32 long.
pub fn is_profile_dir(entry: &ProfileDirEntry) -> (res: bool)
    ensures
        res == spec_is_profile_dir(*entry),
{
    entry.is_dir && entry.name_len == 32
}

/// The profile directories among the entries of the game's profile storage
/// directory, in listing order. The listing is `Err` with the system's
/// message where the directory could not be read, which is reported as a
/// missing profile directory; finding no profile directory is an error too.
pub fn profile_dirs(listing: Result<Vec<ProfileDirEntry>, String>) -> (res: Result<
    Vec<ProfileDirEntry>,
    AppError,
>)
    ensures
        match listing {
            Err(e) => res matches Err(AppError::SnowRunnerProfileDirMissing(d)) && d@ == e@,
            Ok(entries) => {
                let dirs = entries@.filter(profile_dir());
                &&& dirs.len() == 0 ==> (res matches Err(AppError::SnowRunnerNoProfile(d))
                    && d@ == "No SnowRunner profiles found"@)
                &&& dirs.len() > 0 ==> (res matches Ok(v) && v@ == dirs)
            },
        },
{
    match listing {
        Err(e) => Err(AppError::SnowRunnerProfileDirMissing(e)),
        Ok(entries) => {
            let ghost all = entries@;
            let ghost keep = profile_dir();
            let mut dirs: Vec<ProfileDirEntry> = Vec::new();
            for entry in it: entries.into_iter()
                invariant
                    it.seq() == all,
                    keep == profile_dir(),
                    dirs@ == all.take(it.index() as int).filter(keep),
            {
                let ghost k = it.index() as int;
                proof {
                    assert(all.take(k + 1) =~= all.take(k).push(entry));
                    all.take(k).lemma_filter_push(entry, keep);
                }
                if is_profile_dir(&entry) {
                    dirs.push(entry);
                }
            }
            proof {
                assert(all.take(all.len() as int) =~= all);
            }
            if dirs.len() == 0 {
                Err(AppError::SnowRunnerNoProfile(String::from_str("No SnowRunner profiles found")))
            } else {
                Ok(dirs)
            }
        },
    }
}

/// The files of a profile's directory that go into its archive: the
/// readable entries that are not directories, in listing order. There are
/// none to archive (`None`) where one of those files has a name that is not
/// valid UTF-8: the archive cannot be written then.
pub fn files_to_archive(entries: Vec<Option<ProfileFileEntry>>) -> (res: Option<Vec<String>>)
    ensures
        res is None <==> exists|i: int| 0 <= i < entries@.len() && unnamed_file(#[trigger] entries@[i]),
        res matches Some(names) ==> names@ == file_names(entries@),
{
    let ghost all = entries@;
    let mut names: Vec<String> = Vec::new();
    for entry in it: entries.into_iter()
        invariant
            it.seq() == all,
            names@ == file_names(all.take(it.index() as int)),
            forall|j: int| 0 <= j < it.index() ==> !unnamed_file(#[trigger] all[j]),
    {
        let ghost k = it.index() as int;
        proof {
            assert(all.take(k + 1).drop_last() =~= all.take(k));
            assert(all.take(k + 1).last() == all[k]);
        }
        match entry {
            Some(e) => if !e.is_dir {
                match e.name {
                    Some(n) => names.push(n),
                    None => {
                        return None;
                    },
                }
            },
            None => {},
        }
    }
    proof {
        assert(all.take(all.len() as int) =~= all);
    }
    Some(names)
}

impl SnowRunnerProfile {
    /// The first of `profiles` whose identifier is `profile_id`.
    pub fn get_snowrunner_profile(profile_id: &str, profiles: Vec<SnowRunnerProfile>) -> (res:
        Result<SnowRunnerProfile, AppError>)
        ensures
            match first_index(profiles@, has_uuid(profile_id@)) {
                Some(i) => res == Ok::<SnowRunnerProfile, AppError>(profiles@[i]),
                None => res matches Err(AppError::SnowRunnerNoProfile(d)) && d@
                    == unknown_profile_detail(profile_id@),
            },
            res matches Ok(p) ==> p.uuid@ == profile_id@,
    {
        let ghost all = profiles@;
        let ghost found = has_uuid(profile_id@);
        let key = String::from_str(profile_id);
        for profile in it: profiles.into_iter()
            invariant
                it.seq() == all,
                key@ == profile_id@,
                found == has_uuid(profile_id@),
                forall|j: int| 0 <= j < it.index() ==> !found(#[trigger] all[j]),
        {
            if profile.uuid == key {
                proof {
                    lemma_first_index_at(all, found, it.index() as int);
                }
                return Ok(profile);
            }
        }
        proof {
            lemma_first_index(all, found);
        }
        Err(
            AppError::SnowRunnerNoProfile(
                String::from_str("Profile with id '").concat(profile_id).concat("' not found"),
            ),
        )
    }

    /// The backups of the profile, in the order they were made.
    pub fn get_archived_snowrunner_saves(&self) -> (res: Vec<SavedProfile>)
        ensures
            res@ == self.meta_data.stored_profiles@,
    {
        let stored = &self.meta_data.stored_profiles;
        let n = stored.len();
        let mut res: Vec<SavedProfile> = Vec::new();
        for i in 0..n
            invariant
                n == stored@.len(),
                res@ == stored@.take(i as int),
        {
            res.push(stored[i].clone());
            proof {
                assert(stored@.take(i + 1) =~= stored@.take(i as int).push(stored@[i as int]));
            }
        }
        proof {
            assert(stored@.take(n as int) =~= stored@);
        }
        res
    }

    /// The first backup of the profile with the identifier `uuid`.
    pub fn get_save(&self, uuid: &str) -> (res: Result<SavedProfile, AppError>)
        ensures
            match first_index(self.meta_data.stored_profiles@, same_save(uuid@)) {
                Some(i) => res == Ok::<SavedProfile, AppError>(self.meta_data.stored_profiles@[i]),
                None => res matches Err(AppError::SavegameNotFound(d)) && d@ == uuid@,
            },
            res matches Ok(p) ==> p.uuid@ == uuid@,
    {
        let stored = &self.meta_data.stored_profiles;
        let ghost found = same_save(uuid@);
        let key = String::from_str(uuid);
        let n = stored.len();
        for i in 0..n
            invariant
                n == stored@.len(),
                stored@ == self.meta_data.stored_profiles@,
                key@ == uuid@,
                found == same_save(uuid@),
                forall|j: int| 0 <= j < i ==> !found(#[trigger] stored@[j]),
        {
            if stored[i].uuid == key {
                proof {
                    lemma_first_index_at(stored@, found, i as int);
                }
                return Ok(stored[i].clone());
            }
        }
        proof {
            lemma_first_index(stored@, found);
        }
        Err(AppError::SavegameNotFound(String::from_str(uuid)))
    }
}

/// A backup that has been deleted can no longer be found by its
/// identifier, and every other backup is still there.
pub proof fn lemma_deleted_save_not_found(stored: Seq<SavedProfile>, save_uuid: Seq<char>)
    ensures
        first_index(stored.filter(other_save(save_uuid)), same_save(save_uuid)) is None,
        forall|p: SavedProfile|
            stored.contains(p) && p.uuid@ != save_uuid ==> #[trigger] stored.filter(
                other_save(save_uuid),
            ).contains(p),
{
    broadcast use vstd::seq_lib::group_filter_ensures;

    let kept = stored.filter(other_save(save_uuid));
    lemma_first_index(kept, same_save(save_uuid));
    match first_index(kept, same_save(save_uuid)) {
        Some(i) => {
            assert(other_save(save_uuid)(kept[i]));
        },
        None => {},
    }
    assert forall|p: SavedProfile|
        stored.contains(p) && p.uuid@ != save_uuid implies #[trigger] kept.contains(p) by {
        let k = choose|k: int| 0 <= k < stored.len() && stored[k] == p;
        assert(other_save(save_uuid)(stored[k]));
    }
}

/// A backup just archived under an identifier no earlier backup has is the
/// one found by that identifier.
pub proof fn lemma_archived_save_found(stored: Seq<SavedProfile>, saved: SavedProfile)
    requires
        first_index(stored, same_save(saved.uuid@)) is None,
    ensures
        first_index(stored.push(saved), same_save(saved.uuid@)) == Some(stored.len() as int),
{
    let after = stored.push(saved);
    assert(after.drop_last() =~= stored);
}

/// Forgetting the vanished backups a second time, against the same
/// readable files, changes nothing.
pub proof fn lemma_remove_deleted_backups_idempotent(stored: Seq<SavedProfile>, readable: Seq<String>)
    ensures
        kept_backups(kept_backups(stored, readable), readable) == kept_backups(stored, readable),
    decreases stored.len(),
{
    reveal(Seq::filter);
    let keep = backup_readable(texts(readable));
    if stored.len() > 0 {
        let rest = stored.drop_last();
        lemma_remove_deleted_backups_idempotent(rest, readable);
        if keep(stored.last()) {
            rest.filter(keep).lemma_filter_push(stored.last(), keep);
        }
    }
}

/// Forgetting the vanished backups keeps every backup whose archive file is
/// readable: where all of them are, the backups stay as they were, so that
/// metadata stored and loaded back while all its archive files exist comes
/// back the same.
pub proof fn lemma_remove_deleted_backups_keeps_readable(stored: Seq<SavedProfile>, readable: Seq<String>)
    requires
        forall|i: int| 0 <= i < stored.len() ==> texts(readable).contains(#[trigger] stored[i].file_path@),
    ensures
        kept_backups(stored, readable) == stored,
    decreases stored.len(),
{
    reveal(Seq::filter);
    if stored.len() > 0 {
        let rest = stored.drop_last();
        assert forall|i: int| 0 <= i < rest.len() implies texts(readable).contains(
            #[trigger] rest[i].file_path@,
        ) by {
            assert(rest[i] == stored[i]);
        }
        lemma_remove_deleted_backups_keeps_readable(rest, readable);
        let last = stored.last();
        assert(stored[stored.len() - 1] == last);
        assert(texts(readable).contains(stored[stored.len() - 1].file_path@));
        assert(rest.push(last) =~= stored);
    }
}

/// Forgetting the vanished backups keeps exactly those whose archive file
/// is among the readable paths, in their order: a backup passes the test
/// where its archive file is one of those paths; every backup kept passes
/// it; every backup that passes it is kept, right after the kept backups
/// that came before it; and as many are kept as pass it.
pub proof fn lemma_remove_deleted_backups_exact(stored: Seq<SavedProfile>, readable: Seq<String>)
    ensures
        forall|p: SavedProfile|
            #[trigger] backup_readable(texts(readable))(p) <==> exists|j: int|
                0 <= j < readable.len() && readable[j]@ == p.file_path@,
        kept_backups(stored, readable).len() == stored.filter(backup_readable(texts(readable))).len(),
        forall|k: int|
            0 <= k < kept_backups(stored, readable).len() ==> backup_readable(texts(readable))(
                #[trigger] kept_backups(stored, readable)[k],
            ),
        forall|i: int|
            0 <= i < stored.len() && (exists|j: int|
                0 <= j < readable.len() && readable[j]@ == (#[trigger] stored[i]).file_path@) ==> {
                let kept = kept_backups(stored, readable);
                let before = stored.take(i).filter(backup_readable(texts(readable)));
                before.len() < kept.len() && kept[before.len() as int] == stored[i]
            },
{
    assert forall|p: SavedProfile| #[trigger] backup_readable(texts(readable))(p) <==> exists|j: int|
        0 <= j < readable.len() && readable[j]@ == p.file_path@ by {
        if backup_readable(texts(readable))(p) {
            let j = choose|j: int| 0 <= j < texts(readable).len() && texts(readable)[j] == p.file_path@;
            assert(readable[j]@ == p.file_path@);
        }
        if exists|j: int| 0 <= j < readable.len() && readable[j]@ == p.file_path@ {
            let j = choose|j: int| 0 <= j < readable.len() && readable[j]@ == p.file_path@;
            assert(texts(readable)[j] == p.file_path@);
        }
    }
    lemma_filter_positions(stored, backup_readable(texts(readable)));
    assert forall|i: int|
        0 <= i < stored.len() && (exists|j: int|
            0 <= j < readable.len() && readable[j]@ == (#[trigger] stored[i]).file_path@) implies {
        let kept = kept_backups(stored, readable);
        let before = stored.take(i).filter(backup_readable(texts(readable)));
        before.len() < kept.len() && kept[before.len() as int] == stored[i]
    } by {
        assert(backup_readable(texts(readable))(stored[i]));
    }
}

/// Looking a profile up by its identifier finds the first profile of the
/// list with that identifier, and finds none only where no profile has it.
pub proof fn lemma_profile_lookup(profiles: Seq<SnowRunnerProfile>, profile_id: Seq<char>)
    ensures
        match first_index(profiles, has_uuid(profile_id)) {
            Some(i) => 0 <= i < profiles.len() && profiles[i].uuid@ == profile_id && forall|j: int|
                0 <= j < i ==> (#[trigger] profiles[j]).uuid@ != profile_id,
            None => forall|j: int| 0 <= j < profiles.len() ==> (#[trigger] profiles[j]).uuid@ != profile_id,
        },
{
    lemma_first_index(profiles, has_uuid(profile_id));
}

/// Looking a backup up by its identifier finds the first backup with that
/// identifier, and finds none only where no backup has it.
pub proof fn lemma_backup_lookup(stored: Seq<SavedProfile>, save_uuid: Seq<char>)
    ensures
        match first_index(stored, same_save(save_uuid)) {
            Some(i) => 0 <= i < stored.len() && stored[i].uuid@ == save_uuid && forall|j: int|
                0 <= j < i ==> (#[trigger] stored[j]).uuid@ != save_uuid,
            None => forall|j: int| 0 <= j < stored.len() ==> (#[trigger] stored[j]).uuid@ != save_uuid,
        },
{
    lemma_first_index(stored, same_save(save_uuid));
}

/// The names archived are those of the entries that go into the archive,
/// in listing order.
proof fn lemma_file_names_follow_entries(entries: Seq<Option<ProfileFileEntry>>)
    ensures
        file_names(entries).len() == entries.filter(archived_entry()).len(),
        forall|k: int|
            0 <= k < file_names(entries).len() ==> #[trigger] file_names(entries)[k] == entries.filter(
                archived_entry(),
            )[k]->0.name->0,
    decreases entries.len(),
{
    if entries.len() > 0 {
        let d = entries.drop_last();
        let x = entries.last();
        lemma_file_names_follow_entries(d);
        assert(d.push(x) =~= entries);
        d.lemma_filter_push(x, archived_entry());
        if archived_entry()(x) {
            assert forall|k: int| 0 <= k < file_names(entries).len() implies #[trigger] file_names(
                entries,
            )[k] == entries.filter(archived_entry())[k]->0.name->0 by {
                if k < file_names(d).len() {
                    assert(file_names(entries)[k] == file_names(d)[k]);
                }
            }
        }
    }
}

/// The files archived are every readable entry of the profile's directory
/// that is a file with a valid name, each once and in listing order: each
/// name archived is that of such an entry; the entry at `i`, where it is
/// such a file, gives the name archived right after those of the files
/// listed before it; and as many names are archived as there are such
/// files. No archive can be written exactly where a readable entry is a
/// file whose name is not valid UTF-8.
pub proof fn lemma_archived_names(entries: Seq<Option<ProfileFileEntry>>)
    ensures
        forall|o: Option<ProfileFileEntry>|
            #[trigger] unnamed_file(o) <==> o is Some && !o->0.is_dir && o->0.name is None,
        file_names(entries).len() == entries.filter(archived_entry()).len(),
        forall|k: int|
            0 <= k < file_names(entries).len() ==> exists|i: int|
                0 <= i < entries.len() && entries[i] is Some && !entries[i]->0.is_dir
                    && entries[i]->0.name == Some(#[trigger] file_names(entries)[k]),
        forall|i: int|
            0 <= i < entries.len() && (#[trigger] entries[i]) is Some && !entries[i]->0.is_dir
                && entries[i]->0.name is Some ==> {
                let before = entries.take(i).filter(archived_entry());
                before.len() < file_names(entries).len() && file_names(entries)[before.len() as int]
                    == entries[i]->0.name->0
            },
{
    lemma_file_names_follow_entries(entries);
    lemma_filter_positions(entries, archived_entry());
    assert forall|k: int| 0 <= k < file_names(entries).len() implies exists|i: int|
        0 <= i < entries.len() && entries[i] is Some && !entries[i]->0.is_dir && entries[i]->0.name
            == Some(#[trigger] file_names(entries)[k]) by {
        let e = entries.filter(archived_entry())[k];
        assert(archived_entry()(e));
        assert(entries.contains(e));
        let i = choose|i: int| 0 <= i < entries.len() && entries[i] == e;
        assert(entries[i]->0.name == Some(file_names(entries)[k]));
    }
    assert forall|i: int|
        0 <= i < entries.len() && (#[trigger] entries[i]) is Some && !entries[i]->0.is_dir
            && entries[i]->0.name is Some implies {
        let before = entries.take(i).filter(archived_entry());
        before.len() < file_names(entries).len() && file_names(entries)[before.len() as int]
            == entries[i]->0.name->0
    } by {
        assert(archived_entry()(entries[i]));
    }
}

/// The profile directories found are every entry of the game's profile
/// storage directory that is a directory with a name 32 long, each once and
/// in listing order: each entry found is such a directory; the entry at
/// `i`, where it is one, is found right after those listed before it; and
/// as many are found as there are such directories.
pub proof fn lemma_profile_dirs_exact(entries: Seq<ProfileDirEntry>)
    ensures
        forall|e: ProfileDirEntry| #[trigger] profile_dir()(e) <==> e.is_dir && e.name_len == 32,
        forall|k: int|
            0 <= k < entries.filter(profile_dir()).len() ==> (#[trigger] entries.filter(
                profile_dir(),
            )[k]).is_dir && entries.filter(profile_dir())[k].name_len == 32 && entries.contains(
                entries.filter(profile_dir())[k],
            ),
        forall|i: int|
            0 <= i < entries.len() && (#[trigger] entries[i]).is_dir && entries[i].name_len == 32 ==> {
                let found = entries.filter(profile_dir());
                let before = entries.take(i).filter(profile_dir());
                before.len() < found.len() && found[before.len() as int] == entries[i]
            },
{
    lemma_filter_positions(entries, profile_dir());
    assert forall|k: int| 0 <= k < entries.filter(profile_dir()).len() implies (#[trigger] entries.filter(
        profile_dir(),
    )[k]).is_dir && entries.filter(profile_dir())[k].name_len == 32 && entries.contains(
        entries.filter(profile_dir())[k],
    ) by {
        assert(profile_dir()(entries.filter(profile_dir())[k]));
    }
    assert forall|i: int|
        0 <= i < entries.len() && (#[trigger] entries[i]).is_dir && entries[i].name_len == 32 implies {
        let found = entries.filter(profile_dir());
        let before = entries.take(i).filter(profile_dir());
        before.len() < found.len() && found[before.len() as int] == entries[i]
    } by {
        assert(profile_dir()(entries[i]));
    }
}

} // verus!