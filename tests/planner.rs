use rpgmvmz_decrypter::pipeline::{add_suffix, manifest_path, mirror_root, Layout};
use rpgmvmz_decrypter::plan::{lookup_extension, plan, Action, Plan};

#[test]
fn every_table_extension_is_decrypted_under_its_mapped_extension() {
    let cases = [
        ("audio/bgm/a.rpgmvo", "audio/bgm/a.ogg"),
        ("audio/me/b.rpgmvm", "audio/me/b.m4a"),
        ("img/pic.rpgmvp", "img/pic.png"),
        ("audio/se/c.ogg_", "audio/se/c.ogg"),
        ("audio/se/d.m4a_", "audio/se/d.m4a"),
        ("img/e.png_", "img/e.png"),
    ];
    for (source, dest) in cases {
        let p = Plan::new(source);
        assert_eq!(p.action, Action::Decrypt, "{source}");
        assert_eq!(p.source, source);
        assert_eq!(p.dest, dest);
    }
}

#[test]
fn other_extensions_are_skipped() {
    for source in ["data/System.json", "img/pic.png", "img/pic.RPGMVP", "readme", "a/.rpgmvp"] {
        let p = Plan::new(source);
        assert_eq!(p.action, Action::Skip, "{source}");
        assert_eq!(p.dest, source);
    }
}

#[test]
fn lookup_is_exact() {
    assert_eq!(lookup_extension("rpgmvo"), Some("ogg"));
    assert_eq!(lookup_extension("rpgmvm"), Some("m4a"));
    assert_eq!(lookup_extension("rpgmvp"), Some("png"));
    assert_eq!(lookup_extension("ogg_"), Some("ogg"));
    assert_eq!(lookup_extension("m4a_"), Some("m4a"));
    assert_eq!(lookup_extension("png_"), Some("png"));
    assert_eq!(lookup_extension("png"), None);
    assert_eq!(lookup_extension("Rpgmvp"), None);
    assert_eq!(lookup_extension(""), None);
}

#[test]
fn mirrored_plan_decrypts_assets_into_the_copy() {
    let p = plan("game", "game_decrypted", "game/img/pic.rpgmvp").unwrap();
    assert_eq!(p.source, "game/img/pic.rpgmvp");
    assert_eq!(p.dest, "game_decrypted/img/pic.png");
    assert_eq!(p.action, Action::Decrypt);
}

#[test]
fn mirrored_plan_copies_other_files_verbatim() {
    let p = plan("game", "game_decrypted", "game/data/System.json").unwrap();
    assert_eq!(p.dest, "game_decrypted/data/System.json");
    assert_eq!(p.action, Action::Copy);
    let q = plan("game", "game_decrypted", "game/README").unwrap();
    assert_eq!(q.dest, "game_decrypted/README");
    assert_eq!(q.action, Action::Copy);
}

#[test]
fn mirrored_plan_keeps_the_relative_path_of_copied_files() {
    let p = plan("game", "out", "game/notes.").unwrap();
    assert_eq!(p.dest, "out/notes.");
    assert_eq!(p.action, Action::Copy);
    let q = plan("game", "out", "game/a/b.tar.gz").unwrap();
    assert_eq!(q.dest, "out/a/b.tar.gz");
    assert_eq!(q.action, Action::Copy);
}

#[test]
fn mirrored_plan_refuses_files_outside_the_game() {
    assert_eq!(plan("game", "game_decrypted", "other/pic.rpgmvp"), None);
}

#[test]
fn suffix_goes_on_the_last_component() {
    assert_eq!(add_suffix("/tmp/game", "_decrypted"), Some("/tmp/game_decrypted".to_string()));
    assert_eq!(add_suffix("game", "_x"), Some("game_x".to_string()));
    assert_eq!(add_suffix("/", "_x"), None);
    assert_eq!(mirror_root("games/mine"), Some("games/mine_decrypted".to_string()));
}

#[test]
fn manifest_paths_of_both_layouts() {
    assert_eq!(manifest_path("game", Layout::Legacy), "game/www/data/System.json");
    assert_eq!(manifest_path("game", Layout::Current), "game/data/System.json");
}
