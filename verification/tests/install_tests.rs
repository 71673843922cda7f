use slmm::driver::{GameDriverKind, GenericGameDriver};
use slmm::error::ModManagerError;
use slmm::manager::ModManager;
use slmm::storage::Storage;

fn driver() -> GameDriverKind {
    GameDriverKind::Generic(GenericGameDriver::new("/tmp/slmm_game".to_string()))
}

fn fresh_manager(root: &str) -> ModManager {
    let _ = fs_extra::dir::remove(root);
    fs_extra::dir::create_all(root, true).unwrap();
    ModManager::new(
        root.to_string(),
        Storage::new(format!("{}/config.json", root)),
        driver(),
    )
    .unwrap()
}

fn source_dir(path: &str) -> String {
    let _ = fs_extra::dir::remove(path);
    fs_extra::dir::create_all(path, true).unwrap();
    fs_extra::file::write_all(format!("{}/a.txt", path), "hello").unwrap();
    path.to_string()
}

#[test]
fn install_mod_copies_tree_and_syncs_one_disabled_reference() {
    let root = "/tmp/slmm_t_install_root";
    let src = source_dir("/tmp/slmm_t_install_src");
    let mut m = fresh_manager(root);

    let uuid = m.install_mod("Retexture".to_string(), "1.0".to_string(), &src).unwrap();

    let installed = m.get_mod(uuid).unwrap();
    assert_eq!(installed.uuid, uuid);
    assert_eq!(installed.name, "Retexture");
    assert_eq!(installed.version, "1.0");
    assert_eq!(installed.notes, "");
    assert!(installed.install_path.starts_with("/tmp/slmm_t_install_root/"));
    let copied =
        fs_extra::file::read_to_string(format!("{}/a.txt", installed.install_path)).unwrap();
    assert_eq!(copied, "hello");

    let active = m.state().active_profile_id;
    m.sync_mods(active).unwrap();
    let p = m.get_profile(active).unwrap();
    assert_eq!(p.mod_ids.len(), 1);
    assert_eq!(p.mod_ids[0].uuid, uuid);
    assert!(!p.mod_ids[0].is_enabled);

    let _ = fs_extra::dir::remove(root);
    let _ = fs_extra::dir::remove(&src);
}

#[test]
fn install_mod_assigns_distinct_identities() {
    let root = "/tmp/slmm_t_distinct_root";
    let src = source_dir("/tmp/slmm_t_distinct_src");
    let mut m = fresh_manager(root);

    let first = m.install_mod("A".to_string(), "1".to_string(), &src).unwrap();
    let second = m.install_mod("B".to_string(), "2".to_string(), &src).unwrap();

    assert_ne!(first, second);
    let state = m.state();
    assert_eq!(state.available_mods.len(), 2);
    assert_ne!(
        state.available_mods[0].install_path,
        state.available_mods[1].install_path
    );

    let _ = fs_extra::dir::remove(root);
    let _ = fs_extra::dir::remove(&src);
}

#[test]
fn install_mod_from_missing_source_fails_without_record() {
    let root = "/tmp/slmm_t_badsrc_root";
    let mut m = fresh_manager(root);

    let r = m.install_mod(
        "A".to_string(),
        "1".to_string(),
        "/tmp/slmm_t_badsrc_nonexistent",
    );
    assert!(matches!(r, Err(ModManagerError::Io(_))));
    assert_eq!(m.state().available_mods.len(), 0);

    let _ = fs_extra::dir::remove(root);
}

#[test]
fn uninstall_mod_removes_artifact_directory() {
    let root = "/tmp/slmm_t_uninstall_root";
    let src = source_dir("/tmp/slmm_t_uninstall_src");
    let mut m = fresh_manager(root);

    let uuid = m.install_mod("A".to_string(), "1".to_string(), &src).unwrap();
    let path = m.get_mod(uuid).unwrap().install_path.clone();
    assert!(fs_extra::file::read_to_string(format!("{}/a.txt", path)).is_ok());

    m.uninstall_mod(uuid).unwrap();
    assert_eq!(m.state().available_mods.len(), 0);
    assert!(fs_extra::file::read_to_string(format!("{}/a.txt", path)).is_err());

    let _ = fs_extra::dir::remove(root);
    let _ = fs_extra::dir::remove(&src);
}
