use vstd::prelude::*;

use crate::driver::GameDriverKind;
use crate::ids;

verus! {

/// An entry of a profile's ordered mod-reference list: a weak reference to a
/// mod by its identifier, together with the enabled flag for this profile.
#[derive(Debug, Clone, Copy, PartialEq, Eq, Structural)]
pub struct UuidFlaged {
    pub uuid: u128,
    pub is_enabled: bool,
}

/// A named, versioned, filesystem-resident artifact tracked by the manager.
#[derive(Debug, Clone)]
pub struct Mod {
    pub uuid: u128,
    pub name: String,
    pub version: String,
    pub notes: String,
    pub install_path: String,
}

/// A named, ordered, per-mod enabled/disabled configuration; one of them is
/// selected as the active profile of a [`GameState`].
#[derive(Debug, Clone)]
pub struct Profile {
    pub uuid: u128,
    pub name: String,
    pub mod_ids: Vec<UuidFlaged>,
}

/// The root aggregate: the artifact install root, the active-profile pointer,
/// all installed mods, all profiles, and the selected deployment strategy.
#[derive(Debug, Clone)]
pub struct GameState {
    pub artifact_install_path: String,
    pub active_profile_id: u128,
    pub available_mods: Vec<Mod>,
    pub available_profiles: Vec<Profile>,
    pub game_driver: GameDriverKind,
}

/// There is an index in `ms` holding a mod with identifier `u`.
pub open spec fn has_mod_uuid(ms: Seq<Mod>, u: u128) -> bool {
    exists|i: int| 0 <= i < ms.len() && (#[trigger] ms[i]).uuid == u
}

/// There is an index in `ms` holding a mod whose install path reads `p`.
pub open spec fn has_install_path(ms: Seq<Mod>, p: Seq<char>) -> bool {
    exists|i: int| 0 <= i < ms.len() && (#[trigger] ms[i]).install_path@ == p
}

/// No two mods share an identifier.
pub open spec fn distinct_mod_uuids(ms: Seq<Mod>) -> bool {
    forall|i: int, j: int|
        0 <= i < j < ms.len() ==> (#[trigger] ms[i]).uuid != (#[trigger] ms[j]).uuid
}

/// No two mods share an install path.
pub open spec fn distinct_install_paths(ms: Seq<Mod>) -> bool {
    forall|i: int, j: int|
        0 <= i < j < ms.len()
            ==> (#[trigger] ms[i]).install_path@ != (#[trigger] ms[j]).install_path@
}

/// There is an entry for identifier `u` in the reference list `es`.
pub open spec fn has_entry(es: Seq<UuidFlaged>, u: u128) -> bool {
    exists|i: int| 0 <= i < es.len() && (#[trigger] es[i]).uuid == u
}

/// At most one entry per mod identifier.
pub open spec fn distinct_entry_uuids(es: Seq<UuidFlaged>) -> bool {
    forall|i: int, j: int|
        0 <= i < j < es.len() ==> (#[trigger] es[i]).uuid != (#[trigger] es[j]).uuid
}

/// There is an index in `ps` holding a profile with identifier `u`.
pub open spec fn has_profile_uuid(ps: Seq<Profile>, u: u128) -> bool {
    exists|i: int| 0 <= i < ps.len() && (#[trigger] ps[i]).uuid == u
}

/// No two profiles share an identifier.
pub open spec fn distinct_profile_uuids(ps: Seq<Profile>) -> bool {
    forall|i: int, j: int|
        0 <= i < j < ps.len() ==> (#[trigger] ps[i]).uuid != (#[trigger] ps[j]).uuid
}

/// The identifiers of `ms`, in order.
pub open spec fn mod_uuid_seq(ms: Seq<Mod>) -> Seq<u128> {
    ms.map_values(|m: Mod| m.uuid)
}

/// Anything with a 128-bit identity.
pub trait HasUuid: Sized {
    fn uuid(&self) -> u128;

    /// Hands back the first element of the vector, if any.
    fn find_by_uuid(vec: Vec<Self>) -> (r: Option<Self>)
        ensures
            vec@.len() == 0 ==> r is None,
            vec@.len() > 0 ==> r == Some(vec@[0]),
    {
        let mut v = vec;
        if v.len() == 0 {
            None
        } else {
            Some(v.remove(0))
        }
    }
}

impl Mod {
    /// A new mod with a freshly generated identifier; the attributes are
    /// stored verbatim.
    pub fn new(name: String, version: String, notes: String, install_path: String) -> (r: Mod)
        ensures
            r.name == name,
            r.version == version,
            r.notes == notes,
            r.install_path == install_path,
    {
        Mod { uuid: ids::random_uuid(), name, version, notes, install_path }
    }
}

impl HasUuid for Mod {
    fn uuid(&self) -> (r: u128)
        ensures
            r == self.uuid,
    {
        self.uuid
    }
}

impl Profile {
    /// At most one reference entry per mod identifier.
    pub open spec fn wf(self) -> bool {
        distinct_entry_uuids(self.mod_ids@)
    }

    /// A new profile with a freshly generated identifier and an empty
    /// ordered reference list.
    pub fn new(name: String) -> (r: Profile)
        ensures
            r.name == name,
            r.mod_ids@ =~= Seq::<UuidFlaged>::empty(),
            r.wf(),
    {
        Profile { uuid: ids::random_uuid(), name, mod_ids: Vec::new() }
    }
}

impl Default for Profile {
    /// The profile seeded at game-state creation: named "Default", with an
    /// empty reference list and a freshly generated identifier.
    fn default() -> (r: Profile)
        ensures
            r.name@ == "Default"@,
            r.mod_ids@ =~= Seq::<UuidFlaged>::empty(),
            r.wf(),
    {
        Profile { uuid: ids::random_uuid(), name: "Default".to_owned(), mod_ids: Vec::new() }
    }
}

impl GameState {
    /// The consistency the manager maintains: pairwise-distinct mod
    /// identifiers and install paths, pairwise-distinct profile identifiers,
    /// at most one reference entry per mod identifier in every profile, and
    /// an active-profile pointer that references an existing profile.
    pub open spec fn wf(self) -> bool {
        &&& distinct_mod_uuids(self.available_mods@)
        &&& distinct_install_paths(self.available_mods@)
        &&& distinct_profile_uuids(self.available_profiles@)
        &&& forall|i: int|
            0 <= i < self.available_profiles@.len()
                ==> (#[trigger] self.available_profiles@[i]).wf()
        &&& has_profile_uuid(self.available_profiles@, self.active_profile_id)
    }

    /// A new game state: no mods, exactly one seeded default profile, and
    /// that profile active.
    pub fn new(artifact_install_path: String, game_driver: GameDriverKind) -> (r: GameState)
        ensures
            r.artifact_install_path == artifact_install_path,
            r.game_driver == game_driver,
            r.available_mods@.len() == 0,
            r.available_profiles@.len() == 1,
            r.available_profiles@[0].name@ == "Default"@,
            r.available_profiles@[0].mod_ids@.len() == 0,
            r.active_profile_id == r.available_profiles@[0].uuid,
            r.wf(),
    {
        let new_profile = Profile::default();
        let active_profile_id = new_profile.uuid;
        let mut available_profiles: Vec<Profile> = Vec::new();
        available_profiles.push(new_profile);
        let r = GameState {
            artifact_install_path,
            active_profile_id,
            available_mods: Vec::new(),
            available_profiles,
            game_driver,
        };
        proof {
            assert(r.available_profiles@[0].uuid == r.active_profile_id);
        }
        r
    }
}

} // verus!
