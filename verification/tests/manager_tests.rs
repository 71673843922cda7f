use slmm::driver::{GameDriverKind, GenericGameDriver};
use slmm::error::ModManagerError;
use slmm::manager::{state_well_formed, ModManager};
use slmm::models::{GameState, HasUuid, Mod, Profile, UuidFlaged};
use slmm::storage::Storage;

fn driver() -> GameDriverKind {
    GameDriverKind::Generic(GenericGameDriver::new("/tmp/slmm_game".to_string()))
}

fn mk_mod(uuid: u128, name: &str, path: &str) -> Mod {
    Mod {
        uuid,
        name: name.to_string(),
        version: "1.0".to_string(),
        notes: String::new(),
        install_path: path.to_string(),
    }
}

fn state_with(mods: Vec<Mod>, entries: Vec<UuidFlaged>) -> GameState {
    let mut state = GameState::new("/tmp/slmm_artifacts".to_string(), driver());
    state.available_mods = mods;
    state.available_profiles[0].mod_ids = entries;
    state
}

fn manager_with(mods: Vec<Mod>, entries: Vec<UuidFlaged>) -> ModManager {
    let state = state_with(mods, entries);
    ModManager::load(Storage::new("/tmp/slmm_cfg.json".to_string()), state).unwrap()
}

#[test]
fn new_manager_seeds_default_profile() {
    let m = ModManager::new(
        "/tmp/slmm_artifacts".to_string(),
        Storage::new("/tmp/slmm_cfg.json".to_string()),
        driver(),
    )
    .unwrap();
    let state = m.state();
    assert_eq!(state.available_mods.len(), 0);
    assert_eq!(state.available_profiles.len(), 1);
    assert_eq!(state.available_profiles[0].name, "Default");
    assert_eq!(state.available_profiles[0].mod_ids.len(), 0);
    assert_eq!(state.active_profile_id, state.available_profiles[0].uuid);
}

#[test]
fn load_reconciles_active_profile_against_mod_set() {
    let mods = vec![mk_mod(1, "A", "/tmp/slmm_lra"), mk_mod(2, "B", "/tmp/slmm_lrb")];
    let entries = vec![UuidFlaged { uuid: 2, is_enabled: true }];
    let m = manager_with(mods, entries);
    let p = &m.state().available_profiles[0];
    assert_eq!(p.mod_ids.len(), 2);
    assert_eq!(p.mod_ids[0].uuid, 2);
    assert!(p.mod_ids[0].is_enabled);
    assert_eq!(p.mod_ids[1].uuid, 1);
    assert!(!p.mod_ids[1].is_enabled);
}

#[test]
fn uninstall_absent_mod_is_successful_noop() {
    let mut m = manager_with(vec![mk_mod(7, "A", "/tmp/slmm_missing_a")], vec![]);
    let r = m.uninstall_mod(99);
    assert!(r.is_ok());
    assert_eq!(m.state().available_mods.len(), 1);
    assert_eq!(m.state().available_mods[0].uuid, 7);
}

#[test]
fn uninstall_twice_is_idempotent() {
    let mut m = manager_with(vec![mk_mod(7, "A", "/tmp/slmm_missing_b")], vec![]);
    assert!(m.uninstall_mod(7).is_ok());
    assert_eq!(m.state().available_mods.len(), 0);
    assert!(m.uninstall_mod(7).is_ok());
    assert_eq!(m.state().available_mods.len(), 0);
}

#[test]
fn uninstall_keeps_dangling_profile_entries() {
    let entries = vec![UuidFlaged { uuid: 7, is_enabled: true }];
    let mut m = manager_with(vec![mk_mod(7, "A", "/tmp/slmm_missing_c")], entries);
    assert!(m.uninstall_mod(7).is_ok());
    let p = &m.state().available_profiles[0];
    assert_eq!(p.mod_ids.len(), 1);
    assert_eq!(p.mod_ids[0].uuid, 7);
}

#[test]
fn sync_mods_appends_missing_entries_disabled() {
    let mods = vec![mk_mod(1, "A", "/tmp/slmm_pa"), mk_mod(2, "B", "/tmp/slmm_pb")];
    let entries = vec![UuidFlaged { uuid: 2, is_enabled: true }];
    let mut m = manager_with(mods, entries);
    let active = m.state().active_profile_id;
    assert!(m.sync_mods(active).is_ok());
    let p = &m.state().available_profiles[0];
    assert_eq!(p.mod_ids.len(), 2);
    assert_eq!(p.mod_ids[0].uuid, 2);
    assert!(p.mod_ids[0].is_enabled);
    assert_eq!(p.mod_ids[1].uuid, 1);
    assert!(!p.mod_ids[1].is_enabled);
}

#[test]
fn sync_mods_twice_is_idempotent() {
    let mods = vec![mk_mod(1, "A", "/tmp/slmm_pc"), mk_mod(2, "B", "/tmp/slmm_pd")];
    let mut m = manager_with(mods, vec![]);
    let active = m.state().active_profile_id;
    assert!(m.sync_mods(active).is_ok());
    let once = m.state().available_profiles[0].mod_ids.clone();
    assert!(m.sync_mods(active).is_ok());
    let twice = m.state().available_profiles[0].mod_ids.clone();
    assert_eq!(once, twice);
}

#[test]
fn sync_mods_unknown_profile_fails() {
    let mut m = manager_with(vec![], vec![]);
    let r = m.sync_mods(999);
    assert!(matches!(r, Err(ModManagerError::ProfileNotFound(999))));
}

#[test]
fn enable_then_disable_restores_disabled_entry() {
    let mods = vec![mk_mod(5, "A", "/tmp/slmm_pe")];
    let entries = vec![UuidFlaged { uuid: 5, is_enabled: false }];
    let mut m = manager_with(mods, entries);
    assert!(m.enable_mod(5).is_ok());
    assert!(m.state().available_profiles[0].mod_ids[0].is_enabled);
    assert!(m.disable_mod(5).is_ok());
    assert!(!m.state().available_profiles[0].mod_ids[0].is_enabled);
}

#[test]
fn enable_unreferenced_mod_is_inert() {
    let entries = vec![UuidFlaged { uuid: 5, is_enabled: false }];
    let mut m = manager_with(vec![mk_mod(5, "A", "/tmp/slmm_pf")], entries);
    assert!(m.enable_mod(42).is_ok());
    let p = &m.state().available_profiles[0];
    assert_eq!(p.mod_ids.len(), 1);
    assert!(!p.mod_ids[0].is_enabled);
}

#[test]
fn enable_already_enabled_is_noop() {
    let entries = vec![UuidFlaged { uuid: 5, is_enabled: true }];
    let mut m = manager_with(vec![mk_mod(5, "A", "/tmp/slmm_pg")], entries);
    assert!(m.enable_mod(5).is_ok());
    assert!(m.state().available_profiles[0].mod_ids[0].is_enabled);
}

#[test]
fn activate_unknown_profile_leaves_pointer_unchanged() {
    let mut m = manager_with(vec![], vec![]);
    let before = m.state().active_profile_id;
    let r = m.activate_profile(12345);
    assert!(matches!(r, Err(ModManagerError::ProfileNotFound(12345))));
    assert_eq!(m.state().active_profile_id, before);
}

#[test]
fn activate_profile_switches_pointer_and_syncs() {
    let mut state = state_with(vec![mk_mod(1, "A", "/tmp/slmm_ph")], vec![]);
    state.available_profiles.push(Profile {
        uuid: 77,
        name: "Alt".to_string(),
        mod_ids: Vec::new(),
    });
    let mut m = ModManager::load(Storage::new("/tmp/slmm_cfg.json".to_string()), state).unwrap();
    assert!(m.activate_profile(77).is_ok());
    assert_eq!(m.state().active_profile_id, 77);
    let p = &m.state().available_profiles[1];
    assert_eq!(p.uuid, 77);
    assert_eq!(p.mod_ids.len(), 1);
    assert_eq!(p.mod_ids[0].uuid, 1);
    assert!(!p.mod_ids[0].is_enabled);
}

#[test]
fn deploy_lists_paths_in_profile_order() {
    let mods = vec![mk_mod(1, "A", "/tmp/slmm_a"), mk_mod(2, "B", "/tmp/slmm_b")];
    let entries = vec![
        UuidFlaged { uuid: 1, is_enabled: true },
        UuidFlaged { uuid: 2, is_enabled: true },
    ];
    let m = manager_with(mods, entries);
    let cmd = m.deploy().unwrap();
    assert_eq!(cmd.program, "mergerfs");
    assert_eq!(cmd.args.len(), 3);
    assert_eq!(cmd.args[0], "-o");
    assert_eq!(
        cmd.args[1],
        "defaults,use_ino,category.create=ff,category.action=epff"
    );
    assert_eq!(cmd.args[2], "/tmp/slmm_a:/tmp/slmm_b");
}

#[test]
fn deploy_filters_disabled_and_dangling_entries() {
    let mods = vec![mk_mod(1, "A", "/tmp/slmm_c"), mk_mod(2, "B", "/tmp/slmm_d")];
    let entries = vec![
        UuidFlaged { uuid: 1, is_enabled: true },
        UuidFlaged { uuid: 2, is_enabled: false },
        UuidFlaged { uuid: 3, is_enabled: true },
    ];
    let m = manager_with(mods, entries);
    let cmd = m.deploy().unwrap();
    assert_eq!(cmd.args[2], "/tmp/slmm_c");
}

#[test]
fn deploy_with_no_enabled_mods_joins_nothing() {
    let m = manager_with(vec![mk_mod(1, "A", "/tmp/slmm_e")], vec![]);
    let cmd = m.deploy().unwrap();
    assert_eq!(cmd.args[2], "");
}

#[test]
fn get_mod_finds_installed_mod() {
    let m = manager_with(vec![mk_mod(5, "A", "/tmp/slmm_pi")], vec![]);
    let found = m.get_mod(5).unwrap();
    assert_eq!(found.uuid, 5);
    assert_eq!(found.name, "A");
}

#[test]
fn get_mod_unknown_uuid_fails() {
    let m = manager_with(vec![], vec![]);
    assert!(matches!(m.get_mod(5), Err(ModManagerError::ModNotFound(5))));
}

#[test]
fn get_profile_unknown_uuid_fails() {
    let m = manager_with(vec![], vec![]);
    assert!(matches!(
        m.get_profile(5),
        Err(ModManagerError::ProfileNotFound(5))
    ));
}

#[test]
fn get_profile_index_finds_active_profile() {
    let m = manager_with(vec![], vec![]);
    let active = m.state().active_profile_id;
    assert_eq!(m.get_profile_index(active).unwrap(), 0);
}

#[test]
fn get_mod_mut_allows_field_updates() {
    let mut m = manager_with(vec![mk_mod(5, "A", "/tmp/slmm_pq")], vec![]);
    m.get_mod_mut(5).unwrap().notes = "patched".to_string();
    assert_eq!(m.get_mod(5).unwrap().notes, "patched");
    assert!(matches!(
        m.get_mod_mut(9),
        Err(ModManagerError::ModNotFound(9))
    ));
}

#[test]
fn get_profile_mut_allows_rename() {
    let mut m = manager_with(vec![], vec![]);
    let active = m.state().active_profile_id;
    m.get_profile_mut(active).unwrap().name = "Renamed".to_string();
    assert_eq!(m.get_profile(active).unwrap().name, "Renamed");
    assert!(matches!(
        m.get_profile_mut(9),
        Err(ModManagerError::ProfileNotFound(9))
    ));
}

#[test]
fn create_profile_is_detached() {
    let mut m = manager_with(vec![], vec![]);
    let p = m.create_profile("Extra");
    assert_eq!(p.name, "Extra");
    assert_eq!(p.mod_ids.len(), 0);
    assert_eq!(m.state().available_profiles.len(), 1);
}

#[test]
fn state_well_formed_accepts_valid_state() {
    let state = state_with(
        vec![mk_mod(1, "A", "/tmp/slmm_pj"), mk_mod(2, "B", "/tmp/slmm_pk")],
        vec![UuidFlaged { uuid: 1, is_enabled: true }],
    );
    assert!(state_well_formed(&state));
}

#[test]
fn state_well_formed_rejects_duplicate_mod_uuids() {
    let state = state_with(
        vec![mk_mod(1, "A", "/tmp/slmm_pl"), mk_mod(1, "B", "/tmp/slmm_pm")],
        vec![],
    );
    assert!(!state_well_formed(&state));
}

#[test]
fn state_well_formed_rejects_duplicate_install_paths() {
    let state = state_with(
        vec![mk_mod(1, "A", "/tmp/slmm_pn"), mk_mod(2, "B", "/tmp/slmm_pn")],
        vec![],
    );
    assert!(!state_well_formed(&state));
}

#[test]
fn state_well_formed_rejects_dangling_active_profile() {
    let mut state = state_with(vec![], vec![]);
    state.active_profile_id = 999;
    assert!(!state_well_formed(&state));
}

#[test]
fn state_well_formed_rejects_duplicate_profile_entries() {
    let state = state_with(
        vec![],
        vec![
            UuidFlaged { uuid: 4, is_enabled: false },
            UuidFlaged { uuid: 4, is_enabled: true },
        ],
    );
    assert!(!state_well_formed(&state));
}

#[test]
fn find_by_uuid_hands_back_first_element() {
    let mods = vec![mk_mod(1, "A", "/tmp/slmm_po"), mk_mod(2, "B", "/tmp/slmm_pp")];
    let first = Mod::find_by_uuid(mods).unwrap();
    assert_eq!(first.uuid, 1);
    assert!(Mod::find_by_uuid(Vec::new()).is_none());
}

#[test]
fn mod_new_stores_attributes_verbatim() {
    let m = Mod::new(
        "N".to_string(),
        "2.0".to_string(),
        "note".to_string(),
        "/p".to_string(),
    );
    assert_eq!(m.name, "N");
    assert_eq!(m.version, "2.0");
    assert_eq!(m.notes, "note");
    assert_eq!(m.install_path, "/p");
    assert_eq!(m.uuid(), m.uuid);
}

#[test]
fn profile_new_starts_with_empty_reference_list() {
    let p = Profile::new("P".to_string());
    assert_eq!(p.name, "P");
    assert!(p.mod_ids.is_empty());
    let d = Profile::default();
    assert_eq!(d.name, "Default");
    assert!(d.mod_ids.is_empty());
}

#[test]
fn error_messages_render() {
    assert_eq!(
        ModManagerError::Io("boom".to_string()).message(),
        "boom"
    );
    assert_eq!(
        ModManagerError::ExternalToolFailure("mount failed".to_string()).message(),
        "mount failed"
    );
    assert_eq!(
        ModManagerError::ProfileNotFound(3).message(),
        "could not find profile by uuid"
    );
    assert_eq!(
        ModManagerError::ModNotFound(3).message(),
        "could not find mod by uuid"
    );
}
