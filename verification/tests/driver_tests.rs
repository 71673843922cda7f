use slmm::driver::{GameDriver, GameDriverKind, GenericGameDriver};
use slmm::models::Mod;
use slmm::storage::Storage;

fn mk_mod(uuid: u128, path: &str) -> Mod {
    Mod {
        uuid,
        name: "m".to_string(),
        version: "1".to_string(),
        notes: String::new(),
        install_path: path.to_string(),
    }
}

#[test]
fn generic_driver_stores_game_path() {
    let d = GenericGameDriver::new("/games/example".to_string());
    assert_eq!(d.game_install_path, "/games/example");
}

#[test]
fn storage_stores_config_location() {
    let s = Storage::new("/tmp/slmm_cfg.json".to_string());
    assert_eq!(s.file_config, "/tmp/slmm_cfg.json");
}

#[test]
fn detect_game_is_a_noop() {
    let mut d = GameDriverKind::Generic(GenericGameDriver::new("/games/example".to_string()));
    assert!(d.detect_game().is_ok());
    match d {
        GameDriverKind::Generic(g) => assert_eq!(g.game_install_path, "/games/example"),
    }
}

#[test]
fn generic_deploy_builds_union_mount_invocation() {
    let d = GenericGameDriver::new("/games/example".to_string());
    let mods = vec![mk_mod(1, "/m/a"), mk_mod(2, "/m/b"), mk_mod(3, "/m/c")];
    let cmd = d.deploy(&mods);
    assert_eq!(cmd.program, "mergerfs");
    assert_eq!(
        cmd.args,
        vec![
            "-o".to_string(),
            "defaults,use_ino,category.create=ff,category.action=epff".to_string(),
            "/m/a:/m/b:/m/c".to_string(),
        ]
    );
}

#[test]
fn kind_deploy_dispatches_to_generic() {
    let d = GameDriverKind::Generic(GenericGameDriver::new("/games/example".to_string()));
    let cmd = d.deploy(&vec![mk_mod(1, "/only")]);
    assert_eq!(cmd.args[2], "/only");
    let empty = d.deploy(&Vec::new());
    assert_eq!(empty.args[2], "");
}
