use vstd::prelude::*;

use crate::driver::{mod_paths, views_of, DeployCommand, GameDriver};
use crate::error::ModManagerError;
use crate::models::{GameState, Mod, Profile, UuidFlaged};
use crate::models::{
    distinct_entry_uuids, distinct_install_paths, distinct_mod_uuids, distinct_profile_uuids,
    has_entry, has_install_path, has_mod_uuid, has_profile_uuid, mod_uuid_seq,
};
use crate::fsops;
use crate::ids;
use crate::ids::spec_install_path;
use crate::storage::Storage;

verus! {

/// The reference list after synchronizing against the mod identifiers `us`,
/// in order: for each identifier that has no entry yet, a disabled entry is
/// appended at the end; existing entries are left as they are.
pub open spec fn sync_entries(es: Seq<UuidFlaged>, us: Seq<u128>) -> Seq<UuidFlaged>
    decreases us.len(),
{
    if us.len() == 0 {
        es
    } else {
        let prev = sync_entries(es, us.drop_last());
        if has_entry(prev, us.last()) {
            prev
        } else {
            prev.push(UuidFlaged { uuid: us.last(), is_enabled: false })
        }
    }
}

/// The reference list with every entry for `u` set to the given flag and all
/// other entries unchanged.
pub open spec fn set_enabled(es: Seq<UuidFlaged>, u: u128, v: bool) -> Seq<UuidFlaged> {
    es.map_values(
        |e: UuidFlaged|
            if e.uuid == u {
                UuidFlaged { uuid: u, is_enabled: v }
            } else {
                e
            },
    )
}

/// The install path of the mod in `ms` with identifier `u` (well defined
/// when the identifiers of `ms` are distinct and `u` is among them).
pub open spec fn mod_path_for(ms: Seq<Mod>, u: u128) -> Seq<char> {
    let i = choose|i: int| 0 <= i < ms.len() && (#[trigger] ms[i]).uuid == u;
    ms[i].install_path@
}

/// The ordered install paths a reference list resolves to: entries that are
/// enabled and whose mod still exists, in the list's order; disabled entries
/// and dangling references are filtered out.
pub open spec fn enabled_paths(es: Seq<UuidFlaged>, ms: Seq<Mod>) -> Seq<Seq<char>>
    decreases es.len(),
{
    if es.len() == 0 {
        Seq::empty()
    } else {
        let prev = enabled_paths(es.drop_last(), ms);
        let e = es.last();
        if e.is_enabled && has_mod_uuid(ms, e.uuid) {
            prev.push(mod_path_for(ms, e.uuid))
        } else {
            prev
        }
    }
}

/// The mod manager: one in-memory game-state snapshot, loaded once and held
/// until an explicit save, together with the persistence location. Every
/// operation keeps the snapshot well formed ([`GameState::wf`]).
#[derive(Debug)]
pub struct ModManager {
    storage: Storage,
    current_state: GameState,
}

/// The index of the first mod in `ms` with identifier `u`, if any.
fn position_of_mod(ms: &Vec<Mod>, u: u128) -> (r: Option<usize>)
    ensures
        match r {
            Some(i) => i < ms@.len() && ms@[i as int].uuid == u && (forall|j: int|
                0 <= j < i ==> (#[trigger] ms@[j]).uuid != u),
            None => !has_mod_uuid(ms@, u),
        },
{
    let mut i: usize = 0;
    while i < ms.len()
        invariant
            i <= ms@.len(),
            forall|j: int| 0 <= j < i ==> (#[trigger] ms@[j]).uuid != u,
        decreases ms@.len() - i,
    {
        if ms[i].uuid == u {
            return Some(i);
        }
        i = i + 1;
    }
    None
}

/// The index of the first profile in `ps` with identifier `u`, if any.
fn position_of_profile(ps: &Vec<Profile>, u: u128) -> (r: Option<usize>)
    ensures
        match r {
            Some(i) => i < ps@.len() && ps@[i as int].uuid == u && (forall|j: int|
                0 <= j < i ==> (#[trigger] ps@[j]).uuid != u),
            None => !has_profile_uuid(ps@, u),
        },
{
    let mut i: usize = 0;
    while i < ps.len()
        invariant
            i <= ps@.len(),
            forall|j: int| 0 <= j < i ==> (#[trigger] ps@[j]).uuid != u,
        decreases ps@.len() - i,
    {
        if ps[i].uuid == u {
            return Some(i);
        }
        i = i + 1;
    }
    None
}

/// The index of the first reference entry in `es` for identifier `u`, if any.
fn position_of_entry(es: &Vec<UuidFlaged>, u: u128) -> (r: Option<usize>)
    ensures
        match r {
            Some(i) => i < es@.len() && es@[i as int].uuid == u && (forall|j: int|
                0 <= j < i ==> (#[trigger] es@[j]).uuid != u),
            None => !has_entry(es@, u),
        },
{
    let mut i: usize = 0;
    while i < es.len()
        invariant
            i <= es@.len(),
            forall|j: int| 0 <= j < i ==> (#[trigger] es@[j]).uuid != u,
        decreases es@.len() - i,
    {
        if es[i].uuid == u {
            return Some(i);
        }
        i = i + 1;
    }
    None
}

/// Whether some mod in `ms` has `p` as its install path.
fn contains_install_path(ms: &Vec<Mod>, p: &String) -> (r: bool)
    ensures
        r == has_install_path(ms@, p@),
{
    let mut i: usize = 0;
    while i < ms.len()
        invariant
            i <= ms@.len(),
            forall|j: int| 0 <= j < i ==> (#[trigger] ms@[j]).install_path@ != p@,
        decreases ms@.len() - i,
    {
        if ms[i].install_path == *p {
            return true;
        }
        i = i + 1;
    }
    false
}

impl ModManager {
    /// The persistence location this manager saves to.
    pub closed spec fn spec_storage(self) -> Storage {
        self.storage
    }

    /// The in-memory game-state snapshot this manager operates on.
    pub closed spec fn spec_state(self) -> GameState {
        self.current_state
    }

    /// The manager's snapshot is well formed.
    pub open spec fn wf(self) -> bool {
        self.spec_state().wf()
    }

    /// Read access to the snapshot, for rendering and for saving.
    pub fn state(&self) -> (r: &GameState)
        ensures
            r == self.spec_state(),
    {
        &self.current_state
    }

    /// Read access to the persistence location.
    pub fn storage(&self) -> (r: &Storage)
        ensures
            r == self.spec_storage(),
    {
        &self.storage
    }

    /// A manager over a freshly created game state: no mods, one seeded
    /// default profile, and that profile active.
    pub fn new(
        artifact_install_path: String,
        storage: Storage,
        game_driver: crate::driver::GameDriverKind,
    ) -> (r: Result<ModManager, ModManagerError>)
        ensures
            match r {
                Ok(m) => {
                    &&& m.spec_storage() == storage
                    &&& m.spec_state().artifact_install_path == artifact_install_path
                    &&& m.spec_state().game_driver == game_driver
                    &&& m.spec_state().available_mods@.len() == 0
                    &&& m.spec_state().available_profiles@.len() == 1
                    &&& m.spec_state().available_profiles@[0].name@ == "Default"@
                    &&& m.spec_state().available_profiles@[0].mod_ids@.len() == 0
                    &&& m.spec_state().active_profile_id == m.spec_state().available_profiles@[0].uuid
                    &&& m.wf()
                },
                Err(_) => false,
            },
    {
        Ok(ModManager { storage, current_state: GameState::new(artifact_install_path, game_driver) })
    }

    /// A manager over a snapshot read by the persistence gateway. Loading
    /// additionally reconciles the active profile's mod-reference list
    /// against the mod set: a disabled entry is appended for every mod the
    /// active profile did not reference yet; everything else is taken over
    /// verbatim.
    pub fn load(storage: Storage, current_state: GameState) -> (r: Result<ModManager, ModManagerError>)
        requires
            current_state.wf(),
        ensures
            match r {
                Ok(m) => {
                    &&& m.wf()
                    &&& m.spec_storage() == storage
                    &&& m.spec_state().available_mods == current_state.available_mods
                    &&& m.spec_state().active_profile_id == current_state.active_profile_id
                    &&& m.spec_state().artifact_install_path
                        == current_state.artifact_install_path
                    &&& m.spec_state().game_driver == current_state.game_driver
                    &&& m.spec_state().available_profiles@.len()
                        == current_state.available_profiles@.len()
                    &&& forall|k: int|
                        0 <= k < current_state.available_profiles@.len() && (
                        #[trigger] current_state.available_profiles@[k]).uuid
                            != current_state.active_profile_id
                            ==> m.spec_state().available_profiles@[k]
                            == current_state.available_profiles@[k]
                    &&& forall|k: int|
                        0 <= k < current_state.available_profiles@.len() && (
                        #[trigger] current_state.available_profiles@[k]).uuid
                            == current_state.active_profile_id ==> {
                            &&& m.spec_state().available_profiles@[k].uuid
                                == current_state.available_profiles@[k].uuid
                            &&& m.spec_state().available_profiles@[k].name
                                == current_state.available_profiles@[k].name
                            &&& m.spec_state().available_profiles@[k].mod_ids@ == sync_entries(
                                current_state.available_profiles@[k].mod_ids@,
                                mod_uuid_seq(current_state.available_mods@),
                            )
                        }
                },
                Err(_) => false,
            },
    {
        let mut result = ModManager { storage, current_state };
        let active = result.current_state.active_profile_id;
        match result.sync_mods(active) {
            Ok(()) => Ok(result),
            Err(e) => Err(e),
        }
    }

    /// The index of the profile with the given identifier, or
    /// `ProfileNotFound` if no profile has it.
    pub fn get_profile_index(&self, profile_id: u128) -> (r: Result<usize, ModManagerError>)
        ensures
            match r {
                Ok(i) => {
                    &&& i < self.spec_state().available_profiles@.len()
                    &&& self.spec_state().available_profiles@[i as int].uuid == profile_id
                    &&& forall|j: int|
                        0 <= j < i ==> (#[trigger] self.spec_state().available_profiles@[j]).uuid
                            != profile_id
                },
                Err(e) => {
                    &&& e == ModManagerError::ProfileNotFound(profile_id)
                    &&& !has_profile_uuid(self.spec_state().available_profiles@, profile_id)
                },
            },
    {
        match position_of_profile(&self.current_state.available_profiles, profile_id) {
            Some(i) => Ok(i),
            None => Err(ModManagerError::ProfileNotFound(profile_id)),
        }
    }

    /// The mod with the given identifier, or `ModNotFound` if no mod has it.
    pub fn get_mod(&self, mod_id: u128) -> (r: Result<&Mod, ModManagerError>)
        ensures
            match r {
                Ok(m) => m.uuid == mod_id && exists|i: int|
                    0 <= i < self.spec_state().available_mods@.len()
                        && #[trigger] self.spec_state().available_mods@[i] == *m,
                Err(e) => {
                    &&& e == ModManagerError::ModNotFound(mod_id)
                    &&& !has_mod_uuid(self.spec_state().available_mods@, mod_id)
                },
            },
    {
        match position_of_mod(&self.current_state.available_mods, mod_id) {
            Some(i) => {
                let m = &self.current_state.available_mods[i];
                proof {
                    assert(self.spec_state().available_mods@[i as int] == *m);
                }
                Ok(m)
            },
            None => Err(ModManagerError::ModNotFound(mod_id)),
        }
    }

    /// The profile with the given identifier, or `ProfileNotFound` if no
    /// profile has it.
    pub fn get_profile(&self, profile_id: u128) -> (r: Result<&Profile, ModManagerError>)
        ensures
            match r {
                Ok(p) => p.uuid == profile_id && exists|i: int|
                    0 <= i < self.spec_state().available_profiles@.len()
                        && #[trigger] self.spec_state().available_profiles@[i] == *p,
                Err(e) => {
                    &&& e == ModManagerError::ProfileNotFound(profile_id)
                    &&& !has_profile_uuid(self.spec_state().available_profiles@, profile_id)
                },
            },
    {
        match position_of_profile(&self.current_state.available_profiles, profile_id) {
            Some(i) => {
                let p = &self.current_state.available_profiles[i];
                proof {
                    assert(self.spec_state().available_profiles@[i as int] == *p);
                }
                Ok(p)
            },
            None => Err(ModManagerError::ProfileNotFound(profile_id)),
        }
    }

    /// Mutable access to the mod with the given identifier, or `ModNotFound`
    /// if no mod has it.
    pub fn get_mod_mut(&mut self, mod_id: u128) -> (r: Result<&mut Mod, ModManagerError>)
        ensures
            match r {
                Ok(m) => exists|i: int|
                    {
                        &&& 0 <= i < old(self).spec_state().available_mods@.len()
                        &&& *m == old(self).spec_state().available_mods@[i]
                        &&& (#[trigger] old(self).spec_state().available_mods@[i]).uuid == mod_id
                        &&& final(self).spec_state().available_mods@
                            == old(self).spec_state().available_mods@.update(i, *final(m))
                        &&& final(self).spec_state().available_profiles
                            == old(self).spec_state().available_profiles
                        &&& final(self).spec_state().active_profile_id
                            == old(self).spec_state().active_profile_id
                        &&& final(self).spec_state().artifact_install_path
                            == old(self).spec_state().artifact_install_path
                        &&& final(self).spec_state().game_driver
                            == old(self).spec_state().game_driver
                        &&& final(self).spec_storage() == old(self).spec_storage()
                    },
                Err(e) => {
                    &&& *final(self) == *old(self)
                    &&& e == ModManagerError::ModNotFound(mod_id)
                    &&& !has_mod_uuid(old(self).spec_state().available_mods@, mod_id)
                },
            },
    {
        match position_of_mod(&self.current_state.available_mods, mod_id) {
            Some(i) => {
                proof {
                    assert(old(self).spec_state().available_mods@[i as int].uuid == mod_id);
                }
                Ok(&mut self.current_state.available_mods[i])
            },
            None => Err(ModManagerError::ModNotFound(mod_id)),
        }
    }

    /// Mutable access to the profile with the given identifier, or
    /// `ProfileNotFound` if no profile has it.
    pub fn get_profile_mut(&mut self, profile_id: u128) -> (r: Result<
        &mut Profile,
        ModManagerError,
    >)
        ensures
            match r {
                Ok(p) => exists|i: int|
                    {
                        &&& 0 <= i < old(self).spec_state().available_profiles@.len()
                        &&& *p == old(self).spec_state().available_profiles@[i]
                        &&& (#[trigger] old(self).spec_state().available_profiles@[i]).uuid
                            == profile_id
                        &&& final(self).spec_state().available_profiles@
                            == old(self).spec_state().available_profiles@.update(i, *final(p))
                        &&& final(self).spec_state().available_mods
                            == old(self).spec_state().available_mods
                        &&& final(self).spec_state().active_profile_id
                            == old(self).spec_state().active_profile_id
                        &&& final(self).spec_state().artifact_install_path
                            == old(self).spec_state().artifact_install_path
                        &&& final(self).spec_state().game_driver
                            == old(self).spec_state().game_driver
                        &&& final(self).spec_storage() == old(self).spec_storage()
                    },
                Err(e) => {
                    &&& *final(self) == *old(self)
                    &&& e == ModManagerError::ProfileNotFound(profile_id)
                    &&& !has_profile_uuid(old(self).spec_state().available_profiles@, profile_id)
                },
            },
    {
        match position_of_profile(&self.current_state.available_profiles, profile_id) {
            Some(i) => {
                proof {
                    assert(old(self).spec_state().available_profiles@[i as int].uuid
                        == profile_id);
                }
                Ok(&mut self.current_state.available_profiles[i])
            },
            None => Err(ModManagerError::ProfileNotFound(profile_id)),
        }
    }

    /// A new detached profile with the given name. Deliberately asymmetric
    /// from the rest of the operations: the profile is returned, not
    /// registered in the snapshot, and nothing is persisted.
    pub fn create_profile(&mut self, name: &str) -> (r: Profile)
        ensures
            *final(self) == *old(self),
            r.name@ == name@,
            r.mod_ids@.len() == 0,
            r.wf(),
    {
        Profile::new(name.to_owned())
    }

    /// An identifier that no installed mod carries, together with the
    /// artifact directory it maps to, which no installed mod occupies.
    /// Freshly drawn identifiers are checked against the snapshot and drawn
    /// again on a collision; a bounded number of retries keeps the search
    /// terminating, and exhausting them (never observed in practice for
    /// random 128-bit draws) is reported as a failure.
    fn fresh_identity(&self) -> (r: Result<(u128, String), ModManagerError>)
        ensures
            match r {
                Ok(pair) => {
                    &&& !has_mod_uuid(self.spec_state().available_mods@, pair.0)
                    &&& !has_install_path(self.spec_state().available_mods@, pair.1@)
                    &&& pair.1@ == spec_install_path(
                        self.spec_state().artifact_install_path@,
                        pair.0,
                    )
                },
                Err(e) => e matches ModManagerError::Io(_),
            },
    {
        let mut tries: u64 = 0;
        while tries < 16
            invariant
                tries <= 16,
            decreases 16 - tries,
        {
            let u = ids::random_uuid();
            let suffix = ids::uuid_hyphenated(u);
            let mut path = self.current_state.artifact_install_path.clone();
            path.append("/");
            path.append(suffix.as_str());
            proof {
                reveal_strlit("/");
                assert(path@ =~= spec_install_path(
                    self.spec_state().artifact_install_path@,
                    u,
                ));
            }
            let uuid_taken = match position_of_mod(&self.current_state.available_mods, u) {
                Some(_) => true,
                None => false,
            };
            if !uuid_taken && !contains_install_path(&self.current_state.available_mods, &path) {
                return Ok((u, path));
            }
            tries = tries + 1;
        }
        Err(ModManagerError::Io("could not generate an unused mod identifier".to_owned()))
    }

    /// Install a mod: generate a fresh identifier, clear and recreate the
    /// artifact directory `artifact_install_path/<identifier>`, copy the
    /// source tree into it, and append the new mod record. On a filesystem
    /// failure the snapshot is left unchanged (the disk may hold a partial
    /// copy; that is accepted and not rolled back).
    pub fn install_mod(&mut self, name: String, version: String, mod_path: &str) -> (r: Result<
        u128,
        ModManagerError,
    >)
        requires
            old(self).wf(),
        ensures
            final(self).wf(),
            final(self).spec_storage() == old(self).spec_storage(),
            match r {
                Ok(u) => {
                    let prev = old(self).spec_state();
                    let cur = final(self).spec_state();
                    &&& !has_mod_uuid(prev.available_mods@, u)
                    &&& cur.available_mods@.len() == prev.available_mods@.len() + 1
                    &&& cur.available_mods@.drop_last() =~= prev.available_mods@
                    &&& cur.available_mods@.last().uuid == u
                    &&& cur.available_mods@.last().name == name
                    &&& cur.available_mods@.last().version == version
                    &&& cur.available_mods@.last().notes@ == Seq::<char>::empty()
                    &&& cur.available_mods@.last().install_path@ == spec_install_path(
                        prev.artifact_install_path@,
                        u,
                    )
                    &&& !has_install_path(
                        prev.available_mods@,
                        cur.available_mods@.last().install_path@,
                    )
                    &&& cur.available_profiles == prev.available_profiles
                    &&& cur.active_profile_id == prev.active_profile_id
                    &&& cur.artifact_install_path == prev.artifact_install_path
                    &&& cur.game_driver == prev.game_driver
                },
                Err(e) => *final(self) == *old(self) && e matches ModManagerError::Io(_),
            },
    {
        let (u, install_path) = match self.fresh_identity() {
            Ok(pair) => pair,
            Err(e) => {
                return Err(e);
            },
        };
        match fsops::remove_tree(&install_path) {
            Ok(()) => {},
            Err(msg) => {
                return Err(ModManagerError::Io(msg));
            },
        }
        match fsops::copy_tree(mod_path, &install_path) {
            Ok(()) => {},
            Err(msg) => {
                return Err(ModManagerError::Io(msg));
            },
        }
        let ghost prev = self.current_state;
        let new_mod = Mod { uuid: u, name, version, notes: String::new(), install_path };
        self.current_state.available_mods.push(new_mod);
        proof {
            let cur_ms = self.current_state.available_mods@;
            let prev_ms = prev.available_mods@;
            assert(cur_ms.drop_last() =~= prev_ms);
            assert forall|i: int, j: int| 0 <= i < j < cur_ms.len() implies (#[trigger] cur_ms[i]).uuid
                != (#[trigger] cur_ms[j]).uuid by {
                if j == cur_ms.len() - 1 {
                    assert(cur_ms[i] == prev_ms[i]);
                    if prev_ms[i].uuid == u {
                        assert(has_mod_uuid(prev_ms, u));
                    }
                }
            }
            assert forall|i: int, j: int| 0 <= i < j < cur_ms.len() implies (#[trigger] cur_ms[i]).install_path@
                != (#[trigger] cur_ms[j]).install_path@ by {
                if j == cur_ms.len() - 1 {
                    assert(cur_ms[i] == prev_ms[i]);
                    if prev_ms[i].install_path@ == cur_ms[j].install_path@ {
                        assert(has_install_path(prev_ms, cur_ms[j].install_path@));
                    }
                }
            }
        }
        Ok(u)
    }

    /// Uninstall a mod: if no mod carries the identifier, succeed without
    /// changing anything; otherwise recursively delete its artifact
    /// directory and, only if that succeeded, drop the record. Profiles keep
    /// their (now dangling) reference entries by design.
    pub fn uninstall_mod(&mut self, mod_id: u128) -> (r: Result<(), ModManagerError>)
        requires
            old(self).wf(),
        ensures
            final(self).wf(),
            final(self).spec_storage() == old(self).spec_storage(),
            !has_mod_uuid(old(self).spec_state().available_mods@, mod_id) ==> r is Ok && *final(self)
                == *old(self),
            match r {
                Ok(()) => {
                    let prev = old(self).spec_state();
                    let cur = final(self).spec_state();
                    &&& !has_mod_uuid(cur.available_mods@, mod_id)
                    &&& (has_mod_uuid(prev.available_mods@, mod_id) ==> exists|i: int|
                        0 <= i < prev.available_mods@.len() && (#[trigger] prev.available_mods@[i]).uuid
                            == mod_id && cur.available_mods@ == prev.available_mods@.remove(i))
                    &&& cur.available_profiles == prev.available_profiles
                    &&& cur.active_profile_id == prev.active_profile_id
                    &&& cur.artifact_install_path == prev.artifact_install_path
                    &&& cur.game_driver == prev.game_driver
                },
                Err(e) => *final(self) == *old(self) && e matches ModManagerError::Io(_),
            },
    {
        match position_of_mod(&self.current_state.available_mods, mod_id) {
            None => Ok(()),
            Some(i) => {
                match fsops::remove_tree(&self.current_state.available_mods[i].install_path) {
                    Err(msg) => Err(ModManagerError::Io(msg)),
                    Ok(()) => {
                        let ghost prev_ms = self.current_state.available_mods@;
                        let _removed = self.current_state.available_mods.remove(i);
                        proof {
                            let cur_ms = self.current_state.available_mods@;
                            assert forall|j: int| 0 <= j < cur_ms.len() implies (
                            #[trigger] cur_ms[j]).uuid != mod_id by {
                                if j < i {
                                    assert(cur_ms[j] == prev_ms[j]);
                                } else {
                                    assert(cur_ms[j] == prev_ms[j + 1]);
                                }
                            }
                            assert forall|a: int, b: int| 0 <= a < b < cur_ms.len() implies (
                            #[trigger] cur_ms[a]).uuid != (#[trigger] cur_ms[b]).uuid && cur_ms[a].install_path@
                                != cur_ms[b].install_path@ by {
                                let pa = if a < i {
                                    a
                                } else {
                                    a + 1
                                };
                                let pb = if b < i {
                                    b
                                } else {
                                    b + 1
                                };
                                assert(cur_ms[a] == prev_ms[pa]);
                                assert(cur_ms[b] == prev_ms[pb]);
                            }
                        }
                        Ok(())
                    },
                }
            },
        }
    }

    /// Synchronize a profile against the mod set: for every mod the profile
    /// does not reference yet, append a disabled reference entry at the end,
    /// in mod order. Existing entries are never removed, reordered or
    /// retouched, and entries for mods that no longer exist persist.
    pub fn sync_mods(&mut self, profile_id: u128) -> (r: Result<(), ModManagerError>)
        requires
            old(self).wf(),
        ensures
            final(self).wf(),
            final(self).spec_storage() == old(self).spec_storage(),
            match r {
                Ok(()) => {
                    let prev = old(self).spec_state();
                    let cur = final(self).spec_state();
                    &&& has_profile_uuid(prev.available_profiles@, profile_id)
                    &&& cur.available_mods == prev.available_mods
                    &&& cur.active_profile_id == prev.active_profile_id
                    &&& cur.artifact_install_path == prev.artifact_install_path
                    &&& cur.game_driver == prev.game_driver
                    &&& cur.available_profiles@.len() == prev.available_profiles@.len()
                    &&& forall|k: int|
                        0 <= k < prev.available_profiles@.len() && (
                        #[trigger] prev.available_profiles@[k]).uuid != profile_id
                            ==> final(self).spec_state().available_profiles@[k]
                            == prev.available_profiles@[k]
                    &&& forall|k: int|
                        0 <= k < prev.available_profiles@.len() && (
                        #[trigger] prev.available_profiles@[k]).uuid == profile_id ==> {
                            &&& final(self).spec_state().available_profiles@[k].uuid == profile_id
                            &&& final(self).spec_state().available_profiles@[k].name
                                == prev.available_profiles@[k].name
                            &&& final(self).spec_state().available_profiles@[k].mod_ids@
                                == sync_entries(
                                prev.available_profiles@[k].mod_ids@,
                                mod_uuid_seq(prev.available_mods@),
                            )
                        }
                },
                Err(e) => {
                    &&& e == ModManagerError::ProfileNotFound(profile_id)
                    &&& !has_profile_uuid(old(self).spec_state().available_profiles@, profile_id)
                    &&& *final(self) == *old(self)
                },
            },
    {
        let k = match position_of_profile(&self.current_state.available_profiles, profile_id) {
            None => {
                return Err(ModManagerError::ProfileNotFound(profile_id));
            },
            Some(k) => k,
        };
        let mut uuids: Vec<u128> = Vec::new();
        let mut i: usize = 0;
        while i < self.current_state.available_mods.len()
            invariant
                *self == *old(self),
                i <= self.current_state.available_mods@.len(),
                uuids@.len() == i as int,
                forall|j: int|
                    0 <= j < i ==> uuids@[j] == (
                    #[trigger] self.current_state.available_mods@[j]).uuid,
            decreases self.current_state.available_mods@.len() - i,
        {
            uuids.push(self.current_state.available_mods[i].uuid);
            i = i + 1;
        }
        proof {
            assert(uuids@ =~= mod_uuid_seq(self.current_state.available_mods@));
        }
        let ghost prev = *old(self);
        let ghost pps = prev.current_state.available_profiles@;
        let ghost prev_entries = self.current_state.available_profiles@[k as int].mod_ids@;
        let mut idx: usize = 0;
        while idx < uuids.len()
            invariant
                idx <= uuids@.len(),
                prev.current_state.wf(),
                uuids@ == mod_uuid_seq(prev.current_state.available_mods@),
                pps == prev.current_state.available_profiles@,
                self.storage == prev.storage,
                k < pps.len(),
                pps[k as int].uuid == profile_id,
                prev_entries == pps[k as int].mod_ids@,
                self.current_state.available_profiles@.len() == pps.len(),
                self.current_state.available_mods == prev.current_state.available_mods,
                self.current_state.active_profile_id == prev.current_state.active_profile_id,
                self.current_state.artifact_install_path
                    == prev.current_state.artifact_install_path,
                self.current_state.game_driver == prev.current_state.game_driver,
                forall|j: int|
                    0 <= j < pps.len() && j != k
                        ==> #[trigger] self.current_state.available_profiles@[j] == pps[j],
                self.current_state.available_profiles@[k as int].uuid == profile_id,
                self.current_state.available_profiles@[k as int].name == pps[k as int].name,
                self.current_state.available_profiles@[k as int].mod_ids@ == sync_entries(
                    prev_entries,
                    uuids@.take(idx as int),
                ),
                distinct_entry_uuids(self.current_state.available_profiles@[k as int].mod_ids@),
            decreases uuids@.len() - idx,
        {
            let u = uuids[idx];
            let ghost es_before = self.current_state.available_profiles@[k as int].mod_ids@;
            let missing = match position_of_entry(
                &self.current_state.available_profiles[k].mod_ids,
                u,
            ) {
                Some(_) => false,
                None => true,
            };
            if missing {
                let p = &mut self.current_state.available_profiles[k];
                p.mod_ids.push(UuidFlaged { uuid: u, is_enabled: false });
            }
            proof {
                assert(uuids@.take(idx as int + 1).drop_last() =~= uuids@.take(idx as int));
                assert(uuids@.take(idx as int + 1).last() == u);
                let es_now = self.current_state.available_profiles@[k as int].mod_ids@;
                if missing {
                    assert(!has_entry(es_before, u));
                    assert(es_now == es_before.push(UuidFlaged { uuid: u, is_enabled: false }));
                    assert forall|a: int, b: int| 0 <= a < b < es_now.len() implies (
                    #[trigger] es_now[a]).uuid != (#[trigger] es_now[b]).uuid by {
                        if b == es_now.len() - 1 {
                            assert(es_now[a] == es_before[a]);
                            if es_before[a].uuid == u {
                                assert(has_entry(es_before, u));
                            }
                        }
                    }
                } else {
                    assert(has_entry(es_before, u));
                }
                assert(es_now == sync_entries(prev_entries, uuids@.take(idx as int + 1)));
            }
            idx = idx + 1;
        }
        proof {
            assert(uuids@.take(uuids@.len() as int) =~= uuids@);
            let ps = self.current_state.available_profiles@;
            assert forall|a: int| 0 <= a < ps.len() implies (#[trigger] ps[a]).uuid
                == pps[a].uuid by {
                if a != k {
                    assert(ps[a] == pps[a]);
                }
            }
            assert forall|a: int, b: int| 0 <= a < b < ps.len() implies (#[trigger] ps[a]).uuid != (
            #[trigger] ps[b]).uuid by {
                assert(pps[a].uuid != pps[b].uuid);
            }
            assert forall|a: int| 0 <= a < ps.len() implies (#[trigger] ps[a]).wf() by {
                if a != k {
                    assert(ps[a] == pps[a]);
                }
            }
            let w = choose|w: int|
                0 <= w < pps.len() && (#[trigger] pps[w]).uuid
                    == prev.current_state.active_profile_id;
            assert(ps[w].uuid == prev.current_state.active_profile_id);
        }
        Ok(())
    }

    /// Set the enabled flag of every reference entry for `mod_id` in the
    /// active profile; entries for other mods, and everything else, are left
    /// unchanged. An entry already in the desired state stays as it is, and
    /// a mod the active profile does not reference at all makes the whole
    /// call an inert no-op.
    fn set_enabled_in_active(&mut self, mod_id: u128, value: bool)
        requires
            old(self).wf(),
        ensures
            final(self).wf(),
            final(self).spec_storage() == old(self).spec_storage(),
            ({
                let prev = old(self).spec_state();
                let cur = final(self).spec_state();
                &&& cur.available_mods == prev.available_mods
                &&& cur.active_profile_id == prev.active_profile_id
                &&& cur.artifact_install_path == prev.artifact_install_path
                &&& cur.game_driver == prev.game_driver
                &&& cur.available_profiles@.len() == prev.available_profiles@.len()
                &&& forall|k: int|
                    0 <= k < prev.available_profiles@.len() && (
                    #[trigger] prev.available_profiles@[k]).uuid != prev.active_profile_id
                        ==> cur.available_profiles@[k] == prev.available_profiles@[k]
                &&& forall|k: int|
                    0 <= k < prev.available_profiles@.len() && (
                    #[trigger] prev.available_profiles@[k]).uuid == prev.active_profile_id ==> {
                        &&& cur.available_profiles@[k].uuid == prev.available_profiles@[k].uuid
                        &&& cur.available_profiles@[k].name == prev.available_profiles@[k].name
                        &&& cur.available_profiles@[k].mod_ids@ == set_enabled(
                            prev.available_profiles@[k].mod_ids@,
                            mod_id,
                            value,
                        )
                    }
            }),
    {
        let active = self.current_state.active_profile_id;
        let k = match position_of_profile(&self.current_state.available_profiles, active) {
            Some(k) => k,
            None => {
                proof {
                    assert(false);
                }
                return ;
            },
        };
        let ghost prev = *old(self);
        let ghost pps = prev.current_state.available_profiles@;
        let ghost prev_entries = pps[k as int].mod_ids@;
        let len = self.current_state.available_profiles[k].mod_ids.len();
        let mut i: usize = 0;
        while i < len
            invariant
                i <= len,
                prev.current_state.wf(),
                pps == prev.current_state.available_profiles@,
                k < pps.len(),
                pps[k as int].uuid == prev.current_state.active_profile_id,
                prev_entries == pps[k as int].mod_ids@,
                len == prev_entries.len(),
                self.storage == prev.storage,
                self.current_state.available_profiles@.len() == pps.len(),
                self.current_state.available_mods == prev.current_state.available_mods,
                self.current_state.active_profile_id == prev.current_state.active_profile_id,
                self.current_state.artifact_install_path
                    == prev.current_state.artifact_install_path,
                self.current_state.game_driver == prev.current_state.game_driver,
                forall|j: int|
                    0 <= j < pps.len() && j != k
                        ==> #[trigger] self.current_state.available_profiles@[j] == pps[j],
                self.current_state.available_profiles@[k as int].uuid == pps[k as int].uuid,
                self.current_state.available_profiles@[k as int].name == pps[k as int].name,
                self.current_state.available_profiles@[k as int].mod_ids@.len()
                    == prev_entries.len(),
                forall|j: int|
                    0 <= j < i
                        ==> #[trigger] self.current_state.available_profiles@[k as int].mod_ids@[j]
                        == set_enabled(prev_entries, mod_id, value)[j],
                forall|j: int|
                    i <= j < prev_entries.len()
                        ==> #[trigger] self.current_state.available_profiles@[k as int].mod_ids@[j]
                        == prev_entries[j],
            decreases len - i,
        {
            let e = self.current_state.available_profiles[k].mod_ids[i];
            if e.uuid == mod_id {
                let p = &mut self.current_state.available_profiles[k];
                let en = &mut p.mod_ids[i];
                en.is_enabled = value;
            }
            i = i + 1;
        }
        proof {
            let es_now = self.current_state.available_profiles@[k as int].mod_ids@;
            assert(es_now =~= set_enabled(prev_entries, mod_id, value));
            let ps = self.current_state.available_profiles@;
            assert forall|a: int| 0 <= a < ps.len() implies (#[trigger] ps[a]).uuid
                == pps[a].uuid by {
                if a != k {
                    assert(ps[a] == pps[a]);
                }
            }
            assert forall|a: int, b: int| 0 <= a < b < ps.len() implies (#[trigger] ps[a]).uuid != (
            #[trigger] ps[b]).uuid by {
                assert(pps[a].uuid != pps[b].uuid);
            }
            assert forall|a: int| 0 <= a < ps.len() implies (#[trigger] ps[a]).wf() by {
                if a != k {
                    assert(ps[a] == pps[a]);
                } else {
                    assert forall|x: int, y: int| 0 <= x < y < ps[a].mod_ids@.len() implies (
                    #[trigger] ps[a].mod_ids@[x]).uuid != (#[trigger] ps[a].mod_ids@[y]).uuid by {
                        assert(prev_entries[x].uuid != prev_entries[y].uuid);
                    }
                }
            }
            let w = choose|w: int|
                0 <= w < pps.len() && (#[trigger] pps[w]).uuid
                    == prev.current_state.active_profile_id;
            assert(ps[w].uuid == prev.current_state.active_profile_id);
        }
    }

    /// Enable a mod in the active profile. An already-enabled entry and a
    /// mod the profile does not reference are both benign no-ops.
    pub fn enable_mod(&mut self, mod_id: u128) -> (r: Result<(), ModManagerError>)
        requires
            old(self).wf(),
        ensures
            final(self).wf(),
            final(self).spec_storage() == old(self).spec_storage(),
            r is Ok,
            ({
                let prev = old(self).spec_state();
                let cur = final(self).spec_state();
                &&& cur.available_mods == prev.available_mods
                &&& cur.active_profile_id == prev.active_profile_id
                &&& cur.artifact_install_path == prev.artifact_install_path
                &&& cur.game_driver == prev.game_driver
                &&& cur.available_profiles@.len() == prev.available_profiles@.len()
                &&& forall|k: int|
                    0 <= k < prev.available_profiles@.len() && (
                    #[trigger] prev.available_profiles@[k]).uuid != prev.active_profile_id
                        ==> cur.available_profiles@[k] == prev.available_profiles@[k]
                &&& forall|k: int|
                    0 <= k < prev.available_profiles@.len() && (
                    #[trigger] prev.available_profiles@[k]).uuid == prev.active_profile_id ==> {
                        &&& cur.available_profiles@[k].uuid == prev.available_profiles@[k].uuid
                        &&& cur.available_profiles@[k].name == prev.available_profiles@[k].name
                        &&& cur.available_profiles@[k].mod_ids@ == set_enabled(
                            prev.available_profiles@[k].mod_ids@,
                            mod_id,
                            true,
                        )
                    }
            }),
    {
        self.set_enabled_in_active(mod_id, true);
        Ok(())
    }

    /// Disable a mod in the active profile. An already-disabled entry and a
    /// mod the profile does not reference are both benign no-ops.
    pub fn disable_mod(&mut self, mod_id: u128) -> (r: Result<(), ModManagerError>)
        requires
            old(self).wf(),
        ensures
            final(self).wf(),
            final(self).spec_storage() == old(self).spec_storage(),
            r is Ok,
            ({
                let prev = old(self).spec_state();
                let cur = final(self).spec_state();
                &&& cur.available_mods == prev.available_mods
                &&& cur.active_profile_id == prev.active_profile_id
                &&& cur.artifact_install_path == prev.artifact_install_path
                &&& cur.game_driver == prev.game_driver
                &&& cur.available_profiles@.len() == prev.available_profiles@.len()
                &&& forall|k: int|
                    0 <= k < prev.available_profiles@.len() && (
                    #[trigger] prev.available_profiles@[k]).uuid != prev.active_profile_id
                        ==> cur.available_profiles@[k] == prev.available_profiles@[k]
                &&& forall|k: int|
                    0 <= k < prev.available_profiles@.len() && (
                    #[trigger] prev.available_profiles@[k]).uuid == prev.active_profile_id ==> {
                        &&& cur.available_profiles@[k].uuid == prev.available_profiles@[k].uuid
                        &&& cur.available_profiles@[k].name == prev.available_profiles@[k].name
                        &&& cur.available_profiles@[k].mod_ids@ == set_enabled(
                            prev.available_profiles@[k].mod_ids@,
                            mod_id,
                            false,
                        )
                    }
            }),
    {
        self.set_enabled_in_active(mod_id, false);
        Ok(())
    }

    /// Make the profile with the given identifier the active one and then
    /// synchronize its reference list against the mod set. If no profile
    /// carries the identifier, the call fails and the active-profile pointer
    /// is left exactly as it was.
    pub fn activate_profile(&mut self, profile_id: u128) -> (r: Result<(), ModManagerError>)
        requires
            old(self).wf(),
        ensures
            final(self).wf(),
            final(self).spec_storage() == old(self).spec_storage(),
            match r {
                Ok(()) => {
                    let prev = old(self).spec_state();
                    let cur = final(self).spec_state();
                    &&& has_profile_uuid(prev.available_profiles@, profile_id)
                    &&& cur.active_profile_id == profile_id
                    &&& cur.available_mods == prev.available_mods
                    &&& cur.artifact_install_path == prev.artifact_install_path
                    &&& cur.game_driver == prev.game_driver
                    &&& cur.available_profiles@.len() == prev.available_profiles@.len()
                    &&& forall|k: int|
                        0 <= k < prev.available_profiles@.len() && (
                        #[trigger] prev.available_profiles@[k]).uuid != profile_id
                            ==> final(self).spec_state().available_profiles@[k]
                            == prev.available_profiles@[k]
                    &&& forall|k: int|
                        0 <= k < prev.available_profiles@.len() && (
                        #[trigger] prev.available_profiles@[k]).uuid == profile_id ==> {
                            &&& final(self).spec_state().available_profiles@[k].uuid == profile_id
                            &&& final(self).spec_state().available_profiles@[k].name
                                == prev.available_profiles@[k].name
                            &&& final(self).spec_state().available_profiles@[k].mod_ids@
                                == sync_entries(
                                prev.available_profiles@[k].mod_ids@,
                                mod_uuid_seq(prev.available_mods@),
                            )
                        }
                },
                Err(e) => {
                    &&& e == ModManagerError::ProfileNotFound(profile_id)
                    &&& !has_profile_uuid(old(self).spec_state().available_profiles@, profile_id)
                    &&& *final(self) == *old(self)
                },
            },
    {
        match position_of_profile(&self.current_state.available_profiles, profile_id) {
            None => {
                return Err(ModManagerError::ProfileNotFound(profile_id));
            },
            Some(_) => {},
        }
        self.current_state.active_profile_id = profile_id;
        self.sync_mods(profile_id)
    }

    /// Resolve the active profile, filter its ordered reference list down to
    /// the enabled entries whose mod still exists, and hand the resulting
    /// ordered mod list to the deployment strategy. Nothing in the snapshot
    /// is mutated; the built mount invocation is returned for the front end
    /// to spawn.
    pub fn deploy(&self) -> (r: Result<DeployCommand, ModManagerError>)
        requires
            self.wf(),
        ensures
            match r {
                Ok(cmd) => {
                    &&& cmd.program@ == self.spec_state().game_driver.deploy_program()
                    &&& forall|k: int|
                        0 <= k < self.spec_state().available_profiles@.len() && (
                        #[trigger] self.spec_state().available_profiles@[k]).uuid
                            == self.spec_state().active_profile_id ==> views_of(cmd.args@)
                            == self.spec_state().game_driver.deploy_args(
                            enabled_paths(
                                self.spec_state().available_profiles@[k].mod_ids@,
                                self.spec_state().available_mods@,
                            ),
                        )
                },
                Err(_) => false,
            },
    {
        let k = match position_of_profile(
            &self.current_state.available_profiles,
            self.current_state.active_profile_id,
        ) {
            Some(k) => k,
            None => {
                proof {
                    assert(false);
                }
                return Err(
                    ModManagerError::ProfileNotFound(self.current_state.active_profile_id),
                );
            },
        };
        let ghost ms = self.current_state.available_mods@;
        let ghost es = self.current_state.available_profiles@[k as int].mod_ids@;
        let entry_count = self.current_state.available_profiles[k].mod_ids.len();
        let mut selected: Vec<Mod> = Vec::new();
        let mut i: usize = 0;
        while i < entry_count
            invariant
                i <= entry_count,
                self.wf(),
                ms == self.current_state.available_mods@,
                k < self.current_state.available_profiles@.len(),
                es == self.current_state.available_profiles@[k as int].mod_ids@,
                entry_count == es.len(),
                mod_paths(selected@) == enabled_paths(es.take(i as int), ms),
            decreases entry_count - i,
        {
            let e = self.current_state.available_profiles[k].mod_ids[i];
            if e.is_enabled {
                match position_of_mod(&self.current_state.available_mods, e.uuid) {
                    Some(j) => {
                        let m = &self.current_state.available_mods[j];
                        selected.push(
                            Mod {
                                uuid: m.uuid,
                                name: m.name.clone(),
                                version: m.version.clone(),
                                notes: m.notes.clone(),
                                install_path: m.install_path.clone(),
                            },
                        );
                        proof {
                            assert(has_mod_uuid(ms, e.uuid));
                            let c = choose|c: int|
                                0 <= c < ms.len() && (#[trigger] ms[c]).uuid == e.uuid;
                            assert(c == j);
                            assert(mod_path_for(ms, e.uuid) == ms[j as int].install_path@);
                        }
                    },
                    None => {
                        proof {
                            assert(!has_mod_uuid(ms, e.uuid));
                        }
                    },
                }
            }
            proof {
                assert(es.take(i as int + 1).drop_last() =~= es.take(i as int));
                assert(es.take(i as int + 1).last() == e);
                assert(mod_paths(selected@) =~= enabled_paths(es.take(i as int + 1), ms));
            }
            i = i + 1;
        }
        proof {
            assert(es.take(es.len() as int) =~= es);
        }
        Ok(self.current_state.game_driver.deploy(&selected))
    }

    /// A manager over a snapshot read from the given configuration location,
    /// with the active profile's reference list reconciled against the mod
    /// set as part of loading.
    pub fn load_game_state(file_config: String, current_state: GameState) -> (r: Result<
        ModManager,
        ModManagerError,
    >)
        requires
            current_state.wf(),
        ensures
            match r {
                Ok(m) => {
                    &&& m.wf()
                    &&& m.spec_storage().file_config == file_config
                    &&& m.spec_state().available_mods == current_state.available_mods
                    &&& m.spec_state().active_profile_id == current_state.active_profile_id
                    &&& m.spec_state().artifact_install_path
                        == current_state.artifact_install_path
                    &&& m.spec_state().game_driver == current_state.game_driver
                    &&& m.spec_state().available_profiles@.len()
                        == current_state.available_profiles@.len()
                    &&& forall|k: int|
                        0 <= k < current_state.available_profiles@.len() && (
                        #[trigger] current_state.available_profiles@[k]).uuid
                            != current_state.active_profile_id
                            ==> m.spec_state().available_profiles@[k]
                            == current_state.available_profiles@[k]
                    &&& forall|k: int|
                        0 <= k < current_state.available_profiles@.len() && (
                        #[trigger] current_state.available_profiles@[k]).uuid
                            == current_state.active_profile_id ==> {
                            &&& m.spec_state().available_profiles@[k].uuid
                                == current_state.available_profiles@[k].uuid
                            &&& m.spec_state().available_profiles@[k].name
                                == current_state.available_profiles@[k].name
                            &&& m.spec_state().available_profiles@[k].mod_ids@ == sync_entries(
                                current_state.available_profiles@[k].mod_ids@,
                                mod_uuid_seq(current_state.available_mods@),
                            )
                        }
                },
                Err(_) => false,
            },
    {
        Self::load(Storage::new(file_config), current_state)
    }
}

fn distinct_mod_uuids_exec(ms: &Vec<Mod>) -> (b: bool)
    ensures
        b == distinct_mod_uuids(ms@),
{
    let n = ms.len();
    let mut i: usize = 0;
    while i < n
        invariant
            n == ms@.len(),
            i <= n,
            forall|a: int, b: int|
                0 <= a < b < n && a < i ==> (#[trigger] ms@[a]).uuid != (#[trigger] ms@[b]).uuid,
        decreases n - i,
    {
        let mut j: usize = i + 1;
        while j < n
            invariant
                n == ms@.len(),
                i < n,
                i < j <= n,
                forall|b: int| i < b < j ==> ms@[i as int].uuid != (#[trigger] ms@[b]).uuid,
            decreases n - j,
        {
            if ms[i].uuid == ms[j].uuid {
                return false;
            }
            j = j + 1;
        }
        i = i + 1;
    }
    true
}

fn distinct_install_paths_exec(ms: &Vec<Mod>) -> (b: bool)
    ensures
        b == distinct_install_paths(ms@),
{
    let n = ms.len();
    let mut i: usize = 0;
    while i < n
        invariant
            n == ms@.len(),
            i <= n,
            forall|a: int, b: int|
                0 <= a < b < n && a < i ==> (#[trigger] ms@[a]).install_path@ != (
                #[trigger] ms@[b]).install_path@,
        decreases n - i,
    {
        let mut j: usize = i + 1;
        while j < n
            invariant
                n == ms@.len(),
                i < n,
                i < j <= n,
                forall|b: int|
                    i < b < j ==> ms@[i as int].install_path@ != (
                    #[trigger] ms@[b]).install_path@,
            decreases n - j,
        {
            if ms[i].install_path == ms[j].install_path {
                return false;
            }
            j = j + 1;
        }
        i = i + 1;
    }
    true
}

fn distinct_profile_uuids_exec(ps: &Vec<Profile>) -> (b: bool)
    ensures
        b == distinct_profile_uuids(ps@),
{
    let n = ps.len();
    let mut i: usize = 0;
    while i < n
        invariant
            n == ps@.len(),
            i <= n,
            forall|a: int, b: int|
                0 <= a < b < n && a < i ==> (#[trigger] ps@[a]).uuid != (#[trigger] ps@[b]).uuid,
        decreases n - i,
    {
        let mut j: usize = i + 1;
        while j < n
            invariant
                n == ps@.len(),
                i < n,
                i < j <= n,
                forall|b: int| i < b < j ==> ps@[i as int].uuid != (#[trigger] ps@[b]).uuid,
            decreases n - j,
        {
            if ps[i].uuid == ps[j].uuid {
                return false;
            }
            j = j + 1;
        }
        i = i + 1;
    }
    true
}

fn distinct_entry_uuids_exec(es: &Vec<UuidFlaged>) -> (b: bool)
    ensures
        b == distinct_entry_uuids(es@),
{
    let n = es.len();
    let mut i: usize = 0;
    while i < n
        invariant
            n == es@.len(),
            i <= n,
            forall|a: int, b: int|
                0 <= a < b < n && a < i ==> (#[trigger] es@[a]).uuid != (#[trigger] es@[b]).uuid,
        decreases n - i,
    {
        let mut j: usize = i + 1;
        while j < n
            invariant
                n == es@.len(),
                i < n,
                i < j <= n,
                forall|b: int| i < b < j ==> es@[i as int].uuid != (#[trigger] es@[b]).uuid,
            decreases n - j,
        {
            if es[i].uuid == es[j].uuid {
                return false;
            }
            j = j + 1;
        }
        i = i + 1;
    }
    true
}

/// Decide [`GameState::wf`] at run time, so that a front end can validate a
/// freshly parsed snapshot before handing it to the manager.
pub fn state_well_formed(state: &GameState) -> (b: bool)
    ensures
        b == state.wf(),
{
    if !distinct_mod_uuids_exec(&state.available_mods) {
        return false;
    }
    if !distinct_install_paths_exec(&state.available_mods) {
        return false;
    }
    if !distinct_profile_uuids_exec(&state.available_profiles) {
        return false;
    }
    let n = state.available_profiles.len();
    let mut i: usize = 0;
    while i < n
        invariant
            n == state.available_profiles@.len(),
            i <= n,
            forall|j: int| 0 <= j < i ==> (#[trigger] state.available_profiles@[j]).wf(),
        decreases n - i,
    {
        if !distinct_entry_uuids_exec(&state.available_profiles[i].mod_ids) {
            return false;
        }
        i = i + 1;
    }
    match position_of_profile(&state.available_profiles, state.active_profile_id) {
        Some(_) => true,
        None => false,
    }
}

/// Uninstalling a mod is idempotent. After the mod at index `i` is removed,
/// no mod with its identifier remains, so a second `uninstall_mod` with the
/// same identifier meets the absent case of its contract: a successful
/// no-op that leaves the snapshot unchanged.
pub proof fn lemma_uninstall_idempotent(ms: Seq<Mod>, u: u128, i: int)
    requires
        distinct_mod_uuids(ms),
        0 <= i < ms.len(),
        ms[i].uuid == u,
    ensures
        !has_mod_uuid(ms.remove(i), u),
{
    let cur = ms.remove(i);
    assert forall|j: int| 0 <= j < cur.len() implies (#[trigger] cur[j]).uuid != u by {
        if j < i {
            assert(cur[j] == ms[j]);
        } else {
            assert(cur[j] == ms[j + 1]);
        }
    }
}

proof fn lemma_push_preserves_entry(es: Seq<UuidFlaged>, e: UuidFlaged, u: u128)
    requires
        has_entry(es, u),
    ensures
        has_entry(es.push(e), u),
{
    let i = choose|i: int| 0 <= i < es.len() && (#[trigger] es[i]).uuid == u;
    assert(es.push(e)[i].uuid == u);
}

/// After synchronization, every identifier in `us` has a reference entry.
pub proof fn lemma_sync_covers(es: Seq<UuidFlaged>, us: Seq<u128>)
    ensures
        forall|j: int| 0 <= j < us.len() ==> has_entry(sync_entries(es, us), #[trigger] us[j]),
    decreases us.len(),
{
    if us.len() > 0 {
        lemma_sync_covers(es, us.drop_last());
        let prev = sync_entries(es, us.drop_last());
        let full = sync_entries(es, us);
        assert forall|j: int| 0 <= j < us.len() implies has_entry(full, #[trigger] us[j]) by {
            if j < us.len() - 1 {
                assert(us.drop_last()[j] == us[j]);
                assert(has_entry(prev, us[j]));
                if !has_entry(prev, us.last()) {
                    lemma_push_preserves_entry(
                        prev,
                        UuidFlaged { uuid: us.last(), is_enabled: false },
                        us[j],
                    );
                }
            } else {
                if !has_entry(prev, us.last()) {
                    assert(full[prev.len() as int].uuid == us.last());
                }
            }
        }
    }
}

proof fn lemma_sync_noop(es: Seq<UuidFlaged>, us: Seq<u128>)
    requires
        forall|j: int| 0 <= j < us.len() ==> has_entry(es, #[trigger] us[j]),
    ensures
        sync_entries(es, us) == es,
    decreases us.len(),
{
    if us.len() > 0 {
        assert forall|j: int| 0 <= j < us.drop_last().len() implies has_entry(
            es,
            #[trigger] us.drop_last()[j],
        ) by {
            assert(us.drop_last()[j] == us[j]);
        }
        lemma_sync_noop(es, us.drop_last());
        assert(has_entry(es, us.last()));
    }
}

/// Synchronization is idempotent: a second run against the same identifiers
/// appends nothing and leaves the reference list exactly as the first run
/// left it.
pub proof fn lemma_sync_idempotent(es: Seq<UuidFlaged>, us: Seq<u128>)
    ensures
        sync_entries(sync_entries(es, us), us) == sync_entries(es, us),
{
    lemma_sync_covers(es, us);
    lemma_sync_noop(sync_entries(es, us), us);
}

/// Synchronization never removes or reorders existing entries: they keep
/// their indices and values, and everything appended after them is a
/// disabled entry for an identifier the list did not reference before.
pub proof fn lemma_sync_appends(es: Seq<UuidFlaged>, us: Seq<u128>)
    ensures
        sync_entries(es, us).len() >= es.len(),
        forall|j: int| 0 <= j < es.len() ==> sync_entries(es, us)[j] == es[j],
        forall|j: int|
            es.len() <= j < sync_entries(es, us).len() ==> !(#[trigger] sync_entries(es, us)[j]).is_enabled
                && !has_entry(es, sync_entries(es, us)[j].uuid),
    decreases us.len(),
{
    if us.len() > 0 {
        lemma_sync_appends(es, us.drop_last());
        let prev = sync_entries(es, us.drop_last());
        let full = sync_entries(es, us);
        if !has_entry(prev, us.last()) {
            if has_entry(es, us.last()) {
                let i = choose|i: int| 0 <= i < es.len() && (#[trigger] es[i]).uuid == us.last();
                assert(prev[i] == es[i]);
                assert(has_entry(prev, us.last()));
            }
            assert forall|j: int| es.len() <= j < full.len() implies !(
            #[trigger] full[j]).is_enabled && !has_entry(es, full[j].uuid) by {
                if j < prev.len() {
                    assert(full[j] == prev[j]);
                }
            }
        }
    }
}

/// Installing one mod and then synchronizing a profile appends exactly one
/// entry — a disabled reference to the new mod, at the end — provided the
/// profile already references every previously installed mod. (A profile
/// missing references to other mods gains entries for those too, so that
/// input is excluded by the first premise. The second premise asks that no
/// entry — not even a dangling one — already mentions the fresh identifier;
/// `install_mod` guarantees freshness against the mod set, and a random
/// 128-bit draw colliding with a dangling entry does not occur in practice.)
pub proof fn lemma_sync_after_install(es: Seq<UuidFlaged>, ms: Seq<Mod>, m: Mod)
    requires
        forall|j: int| 0 <= j < ms.len() ==> has_entry(es, (#[trigger] ms[j]).uuid),
        !has_entry(es, m.uuid),
    ensures
        sync_entries(es, mod_uuid_seq(ms.push(m))) == es.push(
            UuidFlaged { uuid: m.uuid, is_enabled: false },
        ),
{
    let us = mod_uuid_seq(ms);
    assert(mod_uuid_seq(ms.push(m)) =~= us.push(m.uuid));
    assert forall|j: int| 0 <= j < us.len() implies has_entry(es, #[trigger] us[j]) by {
        assert(us[j] == ms[j].uuid);
    }
    assert(us.push(m.uuid).drop_last() =~= us);
    lemma_sync_noop(es, us);
    assert(us.push(m.uuid).last() == m.uuid);
}

/// Enabling a mod in a reference list and then disabling it restores the
/// earlier list, provided none of its entries was already enabled. (For an
/// already-enabled entry the pair of calls ends disabled instead, so that
/// input is excluded.)
pub proof fn lemma_enable_then_disable(es: Seq<UuidFlaged>, u: u128)
    requires
        forall|i: int| 0 <= i < es.len() && (#[trigger] es[i]).uuid == u ==> !es[i].is_enabled,
    ensures
        set_enabled(set_enabled(es, u, true), u, false) == es,
{
    let once = set_enabled(es, u, true);
    let twice = set_enabled(once, u, false);
    assert forall|i: int| 0 <= i < es.len() implies twice[i] == es[i] by {
        if es[i].uuid == u {
            assert(once[i] == UuidFlaged { uuid: u, is_enabled: true });
            assert(twice[i] == UuidFlaged { uuid: u, is_enabled: false });
            assert(es[i] == UuidFlaged { uuid: u, is_enabled: false });
        } else {
            assert(once[i] == es[i]);
            assert(twice[i] == es[i]);
        }
    }
    assert(twice =~= es);
}

} // verus!
