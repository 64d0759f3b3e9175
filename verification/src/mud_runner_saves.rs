//! MudRunner savegames: those the game keeps, and the backups of them that
//! the application archives under a name chosen by the user.

use vstd::prelude::*;

use crate::error::AppError;
use crate::paths::{is_plain_file_name, is_verbatim, join_path, joined};
use crate::search::{first_index, lemma_filter_positions};
use crate::timestamp::{modified_or_now, Timestamp};

verus! {

/// Where the game keeps its savegames, relative to the user's
/// configuration directory.
pub const DATA_PATH: &'static str = "SpinTires MudRunner\\UserSaves";

/// Where the application keeps the MudRunner backups, relative to its data
/// directory.
pub const PROFILE_PATH: &'static str = "mr-data";

/// The file, in the backup directory, that lists the archived savegames.
pub const METADATA_FILE: &'static str = "MudrunnerMetadata.json";

/// A MudRunner savegame, either as the game keeps it (with no user name and
/// no backup file) or as archived by the application.
#[derive(Debug)]
pub struct MudrunnerSave {
    user_name: String,
    timestamp: Timestamp,
    original_name: String,
    internal_filename: Option<String>,
}

impl Clone for MudrunnerSave {
    fn clone(&self) -> (res: MudrunnerSave)
        ensures
            res == *self,
    {
        MudrunnerSave {
            user_name: self.user_name.clone(),
            timestamp: self.timestamp,
            original_name: self.original_name.clone(),
            internal_filename: match &self.internal_filename {
                Some(f) => Some(f.clone()),
                None => None,
            },
        }
    }
}

/// What reading the archive metadata file gave.
#[derive(Debug)]
pub enum MudrunnerMetadata {
    /// The file could not be opened: nothing has been archived yet.
    Missing,
    /// The file was opened but does not hold a list of savegames.
    Corrupt,
    /// The archived savegames the file lists.
    Loaded(Vec<MudrunnerSave>),
}

/// One entry of the game's savegame directory, as the file system gave it.
#[derive(Debug)]
pub struct SaveFileEntry {
    /// The file name, where it is valid UTF-8.
    pub file_name: Option<String>,
    /// The time the file was last modified, where the file system could tell.
    pub modified: Option<Timestamp>,
}

/// The detail text of the error reported when the metadata file is corrupt.
pub open spec fn corrupt_metadata_detail() -> Seq<char> {
    "Error reading \"MudrunnerMetadata.json\""@
}

/// The detail text of the error reported when the game's savegame
/// directory cannot be listed.
pub open spec fn missing_profile_dir_detail() -> Seq<char> {
    "Mudrunner profile directory missing"@
}

/// The detail text of the error reported when a backup cannot be copied back.
pub open spec fn restore_failed_detail() -> Seq<char> {
    "Couldn't restore backup."@
}

/// The directory entries that stand for a savegame: readable entries whose
/// name is valid UTF-8, in listing order.
pub open spec fn usable_entries(entries: Seq<Option<SaveFileEntry>>) -> Seq<SaveFileEntry>
    decreases entries.len(),
{
    if entries.len() == 0 {
        Seq::empty()
    } else {
        let rest = usable_entries(entries.drop_last());
        match entries.last() {
            Some(e) => if e.file_name is Some {
                rest.push(e)
            } else {
                rest
            },
            None => rest,
        }
    }
}

/// Whether a directory entry of the game's savegame directory stands for a
/// savegame: it is readable and its name is valid UTF-8.
pub open spec fn usable_entry() -> spec_fn(Option<SaveFileEntry>) -> bool {
    |o: Option<SaveFileEntry>| o is Some && o->0.file_name is Some
}

/// Whether a savegame was archived under the name `user_name`.
pub open spec fn same_user(user_name: Seq<char>) -> spec_fn(MudrunnerSave) -> bool {
    |s: MudrunnerSave| s.spec_user_name() == user_name
}

/// Whether a savegame was archived under a name other than `user_name`.
pub open spec fn other_user(user_name: Seq<char>) -> spec_fn(MudrunnerSave) -> bool {
    |s: MudrunnerSave| s.spec_user_name() != user_name
}

impl MudrunnerSave {
    /// The name the user archived the savegame under (empty for a savegame
    /// as the game keeps it).
    pub closed spec fn spec_user_name(&self) -> Seq<char> {
        self.user_name@
    }

    /// When the savegame was last modified.
    pub closed spec fn spec_timestamp(&self) -> Timestamp {
        self.timestamp
    }

    /// The game's file name of the savegame.
    pub closed spec fn spec_original_name(&self) -> Seq<char> {
        self.original_name@
    }

    /// The path of the backup copy, for an archived savegame.
    pub closed spec fn spec_internal_filename(&self) -> Option<Seq<char>> {
        match self.internal_filename {
            Some(f) => Some(f@),
            None => None,
        }
    }

    /// Whether `self` stands for the directory entry `e` of the game's
    /// savegame directory.
    pub open spec fn lists_entry(&self, e: SaveFileEntry) -> bool {
        &&& self.spec_user_name() == Seq::<char>::empty()
        &&& e.file_name matches Some(n) && self.spec_original_name() == n@
        &&& self.spec_internal_filename() is None
        &&& e.modified matches Some(t) ==> self.spec_timestamp() == t
        &&& e.modified is None ==> self.spec_timestamp().well_formed()
    }

    /// A savegame record with the given fields.
    pub fn new(
        user_name: String,
        timestamp: Timestamp,
        original_name: String,
        internal_filename: Option<String>,
    ) -> (res: MudrunnerSave)
        ensures
            res.spec_user_name() == user_name@,
            res.spec_timestamp() == timestamp,
            res.spec_original_name() == original_name@,
            res.spec_internal_filename() == (match internal_filename {
                Some(f) => Some(f@),
                None => None,
            }),
    {
        MudrunnerSave { user_name, timestamp, original_name, internal_filename }
    }

    /// The name the user archived the savegame under.
    pub fn user_name(&self) -> (res: &str)
        ensures
            res@ == self.spec_user_name(),
    {
        self.user_name.as_str()
    }

    /// When the savegame was last modified.
    pub fn timestamp(&self) -> (res: Timestamp)
        ensures
            res == self.spec_timestamp(),
    {
        self.timestamp
    }

    /// The game's file name of the savegame.
    pub fn original_name(&self) -> (res: &str)
        ensures
            res@ == self.spec_original_name(),
    {
        self.original_name.as_str()
    }

    /// The path of the backup copy, for an archived savegame.
    pub fn internal_filename(&self) -> (res: Option<&str>)
        ensures
            match res {
                Some(f) => self.spec_internal_filename() == Some(f@),
                None => self.spec_internal_filename() is None,
            },
    {
        match &self.internal_filename {
            Some(f) => Some(f.as_str()),
            None => None,
        }
    }

    /// The savegames archived so far, from what reading the metadata file
    /// gave: none where there is no such file, an error where the file is
    /// corrupt, and the listed ones otherwise.
    pub fn get_archived_mudrunner_saves(metadata: MudrunnerMetadata) -> (res: Result<
        Vec<MudrunnerSave>,
        AppError,
    >)
        ensures
            match metadata {
                MudrunnerMetadata::Missing => res matches Ok(v) && v@.len() == 0,
                MudrunnerMetadata::Corrupt => res matches Err(AppError::FileReadError(d))
                    && d@ == corrupt_metadata_detail(),
                MudrunnerMetadata::Loaded(saves) => res matches Ok(v) && v@ == saves@,
            },
    {
        match metadata {
            MudrunnerMetadata::Missing => Ok(Vec::new()),
            MudrunnerMetadata::Corrupt => Err(
                AppError::FileReadError(String::from_str("Error reading \"MudrunnerMetadata.json\"")),
            ),
            MudrunnerMetadata::Loaded(saves) => Ok(saves),
        }
    }

    /// The savegames the game currently keeps, from the listing of its
    /// savegame directory (`None` where the directory could not be read).
    /// Unreadable entries and entries whose name is not valid UTF-8 are
    /// skipped; each other entry gives one savegame, in listing order,
    /// dated by its modification time or, failing that, by the current time.
    pub fn get_available_mudrunner_saves(listing: Option<Vec<Option<SaveFileEntry>>>) -> (res: Result<
        Vec<MudrunnerSave>,
        AppError,
    >)
        ensures
            match listing {
                None => res matches Err(AppError::MudrunnerProfileDirMissing(d))
                    && d@ == missing_profile_dir_detail(),
                Some(entries) => res matches Ok(saves) && {
                    let usable = usable_entries(entries@);
                    &&& saves@.len() == usable.len()
                    &&& forall|i: int|
                        #![trigger saves@[i]] 0 <= i < saves@.len() ==> saves@[i].lists_entry(usable[i])
                },
            },
    {
        match listing {
            None => Err(
                AppError::MudrunnerProfileDirMissing(
                    String::from_str("Mudrunner profile directory missing"),
                ),
            ),
            Some(entries) => {
                let mut saves: Vec<MudrunnerSave> = Vec::new();
                let n = entries.len();
                for i in 0..n
                    invariant
                        n == entries@.len(),
                        saves@.len() == usable_entries(entries@.take(i as int)).len(),
                        forall|j: int|
                            #![trigger saves@[j]]
                            0 <= j < saves@.len() ==> saves@[j].lists_entry(
                                usable_entries(entries@.take(i as int))[j],
                            ),
                {
                    let ghost before = saves@;
                    proof {
                        assert(entries@.take(i + 1).drop_last() =~= entries@.take(i as int));
                        assert(entries@.take(i + 1).last() == entries@[i as int]);
                    }
                    match &entries[i] {
                        Some(entry) => match &entry.file_name {
                            Some(name) => {
                                let save = MudrunnerSave {
                                    user_name: String::new(),
                                    timestamp: modified_or_now(entry.modified),
                                    original_name: name.clone(),
                                    internal_filename: None,
                                };
                                saves.push(save);
                                proof {
                                    assert forall|j: int| #![trigger saves@[j]] 0 <= j < saves@.len() implies saves@[j].lists_entry(
                                        usable_entries(entries@.take(i + 1))[j],
                                    ) by {
                                        if j < before.len() {
                                            assert(saves@[j] == before[j]);
                                            assert(before[j].lists_entry(usable_entries(entries@.take(i as int))[j]));
                                        }
                                    }
                                }
                            },
                            None => {},
                        },
                        None => {},
                    }
                }
                proof {
                    assert(entries@.take(n as int) =~= entries@);
                }
                Ok(saves)
            },
        }
    }

    /// The first step of archiving a savegame under `user_name`: the
    /// archived savegames without those of that user name, in their order,
    /// and the backup file of the first of those, which is to be deleted.
    pub fn remove_user_saves(saves: Vec<MudrunnerSave>, user_name: &str) -> (res: (
        Vec<MudrunnerSave>,
        Option<String>,
    ))
        ensures
            res.0@ == saves@.filter(other_user(user_name@)),
            match first_index(saves@, same_user(user_name@)) {
                Some(i) => match res.1 {
                    Some(f) => saves@[i].spec_internal_filename() == Some(f@),
                    None => saves@[i].spec_internal_filename() is None,
                },
                None => res.1 is None,
            },
    {
        let ghost all = saves@;
        let user = String::from_str(user_name);
        let mut kept: Vec<MudrunnerSave> = Vec::new();
        let mut found = false;
        let mut stale: Option<String> = None;
        for save in it: saves.into_iter()
            invariant
                it.seq() == all,
                user@ == user_name@,
                kept@ == all.take(it.index() as int).filter(other_user(user_name@)),
                found == (first_index(all.take(it.index() as int), same_user(user_name@)) is Some),
                match first_index(all.take(it.index() as int), same_user(user_name@)) {
                    Some(i) => match stale {
                        Some(f) => all[i].spec_internal_filename() == Some(f@),
                        None => all[i].spec_internal_filename() is None,
                    },
                    None => stale is None,
                },
        {
            let ghost k = it.index() as int;
            proof {
                assert(all.take(k + 1).drop_last() =~= all.take(k));
                assert(all.take(k + 1) =~= all.take(k).push(save));
                all.take(k).lemma_filter_push(save, other_user(user_name@));
            }
            if save.user_name == user {
                if !found {
                    found = true;
                    stale = save.internal_filename;
                }
            } else {
                kept.push(save);
            }
        }
        proof {
            assert(all.take(all.len() as int) =~= all);
        }
        (kept, stale)
    }

    /// The record of a savegame just archived: the game's file
    /// `original_name`, copied to `internal_filename` under the name
    /// `user_name`, dated by the copied file's modification time or, failing
    /// that, by the current time.
    pub fn archived(
        user_name: &str,
        original_name: &str,
        internal_filename: String,
        modified: Option<Timestamp>,
    ) -> (res: MudrunnerSave)
        ensures
            res.spec_user_name() == user_name@,
            res.spec_original_name() == original_name@,
            res.spec_internal_filename() == Some(internal_filename@),
            modified matches Some(t) ==> res.spec_timestamp() == t,
            modified is None ==> res.spec_timestamp().well_formed(),
    {
        MudrunnerSave {
            user_name: String::from_str(user_name),
            timestamp: modified_or_now(modified),
            original_name: String::from_str(original_name),
            internal_filename: Some(internal_filename),
        }
    }

    /// Where a backup of the game's savegame `original_name` is copied back
    /// to: the savegame of that name in the game's savegame directory
    /// `game_dir`, which it overwrites. Without that directory nothing can
    /// be restored.
    pub fn restore_target(game_dir: Option<String>, original_name: &str) -> (res: Result<
        String,
        AppError,
    >)
        ensures
            game_dir is None ==> (res matches Err(AppError::MudrunnerProfileDirMissing(d)) && d@
                == missing_profile_dir_detail()),
            game_dir matches Some(dir) ==> (res matches Ok(t) && (is_plain_file_name(original_name@)
                && !is_verbatim(dir@) ==> joined(t@, dir@, original_name@))),
    {
        match game_dir {
            None => Err(
                AppError::MudrunnerProfileDirMissing(String::from_str("Mudrunner profile directory missing")),
            ),
            Some(dir) => Ok(join_path(dir.as_str(), original_name)),
        }
    }

    /// The outcome of copying a backup back over the game's savegame:
    /// success where the copy succeeded, an error otherwise.
    pub fn restore_savegame(copied: bool) -> (res: Result<(), AppError>)
        ensures
            copied ==> res is Ok,
            !copied ==> (res matches Err(AppError::FileWriteError(d)) && d@ == restore_failed_detail()),
    {
        if copied {
            Ok(())
        } else {
            Err(AppError::FileWriteError(String::from_str("Couldn't restore backup.")))
        }
    }
}

/// Whether no two savegames were archived under the same user name.
pub open spec fn unique_user_names(saves: Seq<MudrunnerSave>) -> bool {
    forall|i: int, j: int|
        0 <= i < saves.len() && 0 <= j < saves.len() && i != j ==> saves[i].spec_user_name()
            != saves[j].spec_user_name()
}

/// Archiving a savegame under a user name replaces any savegame archived
/// before under that name: afterwards the new savegame is the only one of
/// that name and comes last, every savegame of another name is kept in its
/// order, and no two savegames share a name if none did before.
pub proof fn lemma_archive_replaces_user_save(
    saves: Seq<MudrunnerSave>,
    user_name: Seq<char>,
    new_save: MudrunnerSave,
)
    requires
        new_save.spec_user_name() == user_name,
    ensures
        ({
            let after = saves.filter(other_user(user_name)).push(new_save);
            &&& after.last() == new_save
            &&& forall|i: int|
                0 <= i < after.len() ==> (#[trigger] after[i].spec_user_name() == user_name <==> i
                    == after.len() - 1)
            &&& forall|s: MudrunnerSave|
                saves.contains(s) && s.spec_user_name() != user_name ==> #[trigger] after.contains(s)
            &&& forall|s: MudrunnerSave|
                #[trigger] after.contains(s) ==> s == new_save || saves.contains(s)
            &&& unique_user_names(saves) ==> unique_user_names(after)
        }),
{
    broadcast use vstd::seq_lib::group_filter_ensures;
    broadcast use Seq::lemma_filter_contains_rev;

    let kept = saves.filter(other_user(user_name));
    let after = kept.push(new_save);
    assert forall|i: int| 0 <= i < after.len() implies (#[trigger] after[i].spec_user_name() == user_name <==> i
        == after.len() - 1) by {
        if i < kept.len() {
            assert(other_user(user_name)(kept[i]));
        }
    }
    assert forall|s: MudrunnerSave|
        saves.contains(s) && s.spec_user_name() != user_name implies #[trigger] after.contains(s) by {
        let k = choose|k: int| 0 <= k < saves.len() && saves[k] == s;
        assert(kept.contains(saves[k]));
        let m = choose|m: int| 0 <= m < kept.len() && kept[m] == s;
        assert(after[m] == s);
    }
    assert forall|s: MudrunnerSave| #[trigger] after.contains(s) implies s == new_save || saves.contains(s) by {
        let m = choose|m: int| 0 <= m < after.len() && after[m] == s;
        if m < kept.len() {
            assert(kept.contains(s));
        }
    }
    if unique_user_names(saves) {
        lemma_filter_keeps_unique_user_names(saves, other_user(user_name));
        assert forall|i: int, j: int|
            0 <= i < after.len() && 0 <= j < after.len() && i != j implies after[i].spec_user_name()
                != after[j].spec_user_name() by {
            if i < kept.len() && j < kept.len() {
            } else if i < kept.len() {
                assert(other_user(user_name)(kept[i]));
            } else if j < kept.len() {
                assert(other_user(user_name)(kept[j]));
            }
        }
    }
}

/// Dropping savegames from a list keeps its user names distinct.
proof fn lemma_filter_keeps_unique_user_names(
    saves: Seq<MudrunnerSave>,
    keep: spec_fn(MudrunnerSave) -> bool,
)
    requires
        unique_user_names(saves),
    ensures
        unique_user_names(saves.filter(keep)),
    decreases saves.len(),
{
    reveal(Seq::filter);
    if saves.len() > 0 {
        let rest = saves.drop_last();
        assert(unique_user_names(rest));
        lemma_filter_keeps_unique_user_names(rest, keep);
        let kept = rest.filter(keep);
        if keep(saves.last()) {
            let after = kept.push(saves.last());
            assert forall|i: int, j: int|
                0 <= i < after.len() && 0 <= j < after.len() && i != j implies after[i].spec_user_name()
                    != after[j].spec_user_name() by {
                if i == after.len() - 1 || j == after.len() - 1 {
                    let k = if i == after.len() - 1 { j } else { i };
                    assert(kept.contains(kept[k]));
                    rest.lemma_filter_contains_rev(keep, kept[k]);
                    let m = choose|m: int| 0 <= m < rest.len() && rest[m] == kept[k];
                    assert(saves[m] == rest[m]);
                }
            }
        }
    }
}

/// The entries that stand for a savegame are, in order, those that pass
/// `usable_entry`.
proof fn lemma_usable_entries_follow(entries: Seq<Option<SaveFileEntry>>)
    ensures
        usable_entries(entries).len() == entries.filter(usable_entry()).len(),
        forall|k: int|
            0 <= k < usable_entries(entries).len() ==> #[trigger] usable_entries(entries)[k] == entries.filter(
                usable_entry(),
            )[k]->0,
    decreases entries.len(),
{
    if entries.len() > 0 {
        let d = entries.drop_last();
        let x = entries.last();
        lemma_usable_entries_follow(d);
        assert(d.push(x) =~= entries);
        d.lemma_filter_push(x, usable_entry());
        if usable_entry()(x) {
            assert forall|k: int| 0 <= k < usable_entries(entries).len() implies #[trigger] usable_entries(
                entries,
            )[k] == entries.filter(usable_entry())[k]->0 by {
                if k < usable_entries(d).len() {
                    assert(usable_entries(entries)[k] == usable_entries(d)[k]);
                }
            }
        }
    }
}

/// The savegames the game keeps are listed from every readable entry of its
/// savegame directory whose name is valid UTF-8, each once and in listing
/// order: each entry used is such an entry of the listing; the entry at
/// `i`, where it is one, is used right after those listed before it; and as
/// many are used as there are such entries.
pub proof fn lemma_usable_entries_exact(entries: Seq<Option<SaveFileEntry>>)
    ensures
        usable_entries(entries).len() == entries.filter(usable_entry()).len(),
        forall|k: int|
            0 <= k < usable_entries(entries).len() ==> (#[trigger] usable_entries(entries)[k]).file_name is Some
                && exists|i: int| 0 <= i < entries.len() && entries[i] == Some(usable_entries(entries)[k]),
        forall|i: int|
            0 <= i < entries.len() && (#[trigger] entries[i]) is Some && entries[i]->0.file_name is Some
                ==> {
                let before = entries.take(i).filter(usable_entry());
                before.len() < usable_entries(entries).len() && usable_entries(entries)[before.len() as int]
                    == entries[i]->0
            },
{
    lemma_usable_entries_follow(entries);
    lemma_filter_positions(entries, usable_entry());
    assert forall|k: int| 0 <= k < usable_entries(entries).len() implies (#[trigger] usable_entries(
        entries,
    )[k]).file_name is Some && exists|i: int|
        0 <= i < entries.len() && entries[i] == Some(usable_entries(entries)[k]) by {
        let e = entries.filter(usable_entry())[k];
        assert(usable_entry()(e));
        assert(entries.contains(e));
        let i = choose|i: int| 0 <= i < entries.len() && entries[i] == e;
        assert(entries[i] == Some(usable_entries(entries)[k]));
    }
    assert forall|i: int|
        0 <= i < entries.len() && (#[trigger] entries[i]) is Some && entries[i]->0.file_name is Some implies {
        let before = entries.take(i).filter(usable_entry());
        before.len() < usable_entries(entries).len() && usable_entries(entries)[before.len() as int]
            == entries[i]->0
    } by {
        assert(usable_entry()(entries[i]));
    }
}

} // verus!