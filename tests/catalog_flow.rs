use vertex_launcher::bootstrap::Bootstrap;
use vertex_launcher::catalog::Catalog;
use vertex_launcher::games::{Game, GameArchive, Link, LinkType};
use vertex_launcher::guard::DownloadGuard;
use vertex_launcher::json::{JsonNumber, JsonValue};
use vertex_launcher::reconcile::ResourcePlan;
use vertex_launcher::Verror;

fn s(x: &str) -> JsonValue {
    JsonValue::Str(x.to_string())
}

fn n(x: u64) -> JsonValue {
    JsonValue::Number(JsonNumber::Unsigned(x))
}

fn obj(members: Vec<(&str, JsonValue)>) -> JsonValue {
    JsonValue::Object(members.into_iter().map(|(k, v)| (k.to_string(), v)).collect())
}

fn link_json(url: &str, name: &str, revision: u64) -> JsonValue {
    obj(vec![("url", s(url)), ("name", s(name)), ("revision", n(revision))])
}

fn game_json(id: u64, title: &str, rev: u64, weight: u64) -> JsonValue {
    obj(vec![
        ("id", n(id)),
        ("title", s(title)),
        ("subtitle", s("sub")),
        ("description", s("desc")),
        ("version", s("1.0")),
        ("platform", JsonValue::Array(vec![s("windows")])),
        ("tags", JsonValue::Array(vec![s("action"), s("2d")])),
        ("weight", n(weight)),
        ("background_image", link_json("https://x/bg.png", "bg.png", rev)),
        ("navigation_icon", link_json("https://x/icon.png", "icon.png", rev)),
        (
            "download_link",
            obj(vec![
                ("link", link_json("https://x/game.zip", "game.zip", rev)),
                ("need_extract", JsonValue::Bool(true)),
                ("strip_top_level_folder", JsonValue::Bool(false)),
                ("path_to_executable", s("bin/game.exe")),
            ]),
        ),
    ])
}

fn doc(games: Vec<JsonValue>) -> JsonValue {
    obj(vec![("games", JsonValue::Array(games))])
}

fn link(rev: u64, path: Option<&str>) -> Link {
    Link::new("https://x/r".to_string(), "r.bin".to_string(), rev, path.map(|p| p.to_string()))
}

fn game(id: u8, title: &str, weight: u64) -> Game {
    Game::new(
        id,
        title.to_string(),
        String::new(),
        String::new(),
        link(1, None),
        link(1, None),
        GameArchive::new(link(1, None), true, false, "game.exe".to_string()),
        "1".to_string(),
        vec![],
        vec![],
        weight,
    )
}

fn plans(b: Bootstrap) -> Vec<Result<ResourcePlan, Verror>> {
    match b {
        Bootstrap::Merged(p) => p,
        Bootstrap::KeptLocal(e) => panic!("remote catalog not merged: {}", e.message()),
    }
}

#[test]
fn fresh_install_marks_archive_and_fetches_images() {
    let mut c = Catalog::new();
    let out = plans(c.bootstrap(Ok(doc(vec![game_json(1, "Star Run", 1, 0)]))).unwrap());
    assert_eq!(out.len(), 1);
    let plan = out[0].as_ref().unwrap();
    assert_eq!(plan.game_id, 1);
    assert!(plan.stale_files.is_empty());
    assert_eq!(plan.fetch, vec![LinkType::BackgroundImage, LinkType::NavigationIcon]);
    // The caller stores the fetched images and records them.
    c.set_local_path(1, LinkType::BackgroundImage, "/data/starrun/bg.png".to_string()).unwrap();
    c.set_local_path(1, LinkType::NavigationIcon, "/data/starrun/icon.png".to_string()).unwrap();
    let g = c.get_game(1).unwrap();
    assert_eq!(g.background_image.local_path.as_deref(), Some("/data/starrun/bg.png"));
    assert_eq!(g.navigation_icon.local_path.as_deref(), Some("/data/starrun/icon.png"));
    assert!(g.game_archive.need_update);
    assert_eq!(g.game_archive.link.local_path, None);
    let list = c.get_game_list();
    assert_eq!(list.len(), 1);
    assert_eq!(list[0].id, 1);
}

#[test]
fn stale_icon_is_deleted_and_refetched() {
    let mut local = game(3, "Old", 0);
    local.navigation_icon = Link::new("https://x/icon.png".to_string(), "icon.png".to_string(), 1, Some("/x/icon.png".to_string()));
    local.background_image = Link::new("https://x/bg.png".to_string(), "bg.png".to_string(), 2, Some("/x/bg.png".to_string()));
    let mut remote = local.clone();
    remote.navigation_icon = Link::new("https://x/icon2.png".to_string(), "icon2.png".to_string(), 2, None);
    remote.background_image.local_path = None;
    let plan = local.update_game(&remote);
    assert_eq!(plan.stale_files, vec!["/x/icon.png".to_string()]);
    assert_eq!(plan.fetch, vec![LinkType::NavigationIcon]);
    assert_eq!(local.navigation_icon.revision, 2);
    assert_eq!(local.navigation_icon.url, "https://x/icon2.png");
    assert_eq!(local.navigation_icon.local_path, None);
    local.set_local_path(LinkType::NavigationIcon, "/x/icon2.png".to_string());
    assert_eq!(local.navigation_icon.local_path.as_deref(), Some("/x/icon2.png"));
    assert_eq!(local.background_image.local_path.as_deref(), Some("/x/bg.png"));
}

#[test]
fn launch_without_download_is_not_found() {
    let mut c = Catalog::new();
    plans(c.bootstrap(Ok(doc(vec![game_json(2, "Two", 1, 0)]))).unwrap());
    assert_eq!(c.launch_target(2), Err(Verror::NotFound(2)));
    assert_eq!(c.launch_target(9), Err(Verror::NotFound(9)));
    c.set_local_path(2, LinkType::GameArchiveLink, "/data/two/bin/game.exe".to_string()).unwrap();
    assert_eq!(c.launch_target(2), Ok("/data/two/bin/game.exe".to_string()));
}

#[test]
fn equal_revision_keeps_stored_file_even_if_url_changed() {
    let mut local = link(4, Some("/d/a.bin"));
    let mut remote = link(4, None);
    remote.url = "https://elsewhere/a.bin".to_string();
    assert_eq!(local.update_link(&remote), None);
    assert_eq!(local.url, "https://x/r");
    assert_eq!(local.local_path.as_deref(), Some("/d/a.bin"));
    let older = link(2, None);
    assert_eq!(local.update_link(&older), None);
    assert_eq!(local.revision, 4);
}

#[test]
fn newer_revision_clears_stored_file() {
    let mut local = link(1, Some("/d/a.bin"));
    let mut remote = link(5, None);
    remote.name = "b.bin".to_string();
    assert_eq!(local.update_link(&remote), Some("/d/a.bin".to_string()));
    assert_eq!(local.revision, 5);
    assert_eq!(local.name, "b.bin");
    assert_eq!(local.local_path, None);
}

#[test]
fn archive_revision_bump_only_flags_update() {
    let mut local = game(4, "Four", 0);
    local.background_image.local_path = Some("/d/bg".to_string());
    local.navigation_icon.local_path = Some("/d/icon".to_string());
    local.game_archive.link.local_path = Some("/d/four/game.exe".to_string());
    let mut remote = game(4, "Four v2", 3);
    remote.game_archive.link.revision = 2;
    let plan = local.update_game(&remote);
    assert!(local.game_archive.need_update);
    assert!(plan.fetch.is_empty());
    assert_eq!(plan.stale_files, vec!["/d/four/game.exe".to_string()]);
    assert_eq!(local.title, "Four v2");
    assert_eq!(local.weight, 3);
    assert_eq!(local.game_archive.link.revision, 2);
}

#[test]
fn second_download_commit_changes_nothing() {
    let mut c = Catalog::from_games(&vec![game(5, "Five", 0)]);
    c.set_local_path(5, LinkType::GameArchiveLink, "/d/five/game.exe".to_string()).unwrap();
    let once = c.get_game(5).unwrap();
    assert!(!once.game_archive.need_update);
    c.set_local_path(5, LinkType::GameArchiveLink, "/d/five/game.exe".to_string()).unwrap();
    assert_eq!(c.get_game(5).unwrap(), once);
    assert_eq!(c.set_local_path(6, LinkType::GameArchiveLink, "/x".to_string()), Err(Verror::NotFound(6)));
}

#[test]
fn concurrent_download_of_same_game_is_refused() {
    let mut guard = DownloadGuard::new();
    assert_eq!(guard.try_begin(7), Ok(()));
    assert_eq!(guard.try_begin(7), Err(Verror::DownloadInProgress(7)));
    assert_eq!(guard.try_begin(8), Ok(()));
    assert!(guard.is_active(7));
    guard.finish(7);
    assert!(!guard.is_active(7));
    assert_eq!(guard.try_begin(7), Ok(()));
}

#[test]
fn game_list_orders_by_weight_then_id() {
    let c = Catalog::from_games(&vec![game(3, "c", 5), game(1, "a", 5), game(2, "b", 9), game(4, "d", 0)]);
    let ids: Vec<u8> = c.get_game_list().iter().map(|g| g.id).collect();
    assert_eq!(ids, vec![2, 1, 3, 4]);
}

#[test]
fn later_stored_entry_replaces_earlier() {
    let c = Catalog::from_games(&vec![game(1, "first", 0), game(1, "second", 0)]);
    assert_eq!(c.get_game_list().len(), 1);
    assert_eq!(c.get_game(1).unwrap().title, "second");
    assert_eq!(c.get_game(2), Err(Verror::NotFound(2)));
    assert!(!c.is_empty());
    assert!(Catalog::new().is_empty());
}

#[test]
fn bad_record_is_skipped_and_others_merged() {
    let mut c = Catalog::new();
    let bad = obj(vec![("id", n(9)), ("title", n(3))]);
    let out = plans(c.bootstrap(Ok(doc(vec![bad, game_json(2, "Ok", 1, 0)]))).unwrap());
    assert_eq!(out.len(), 2);
    match &out[0] {
        Err(Verror::SchemaError(fields)) => {
            assert!(fields.contains(&"title".to_string()));
            assert!(fields.contains(&"platform".to_string()));
        }
        other => panic!("unexpected outcome {:?}", other),
    }
    assert!(out[1].is_ok());
    assert_eq!(c.get_game_list().len(), 1);
}

#[test]
fn fetch_failure_without_local_catalog_is_fatal() {
    let mut c = Catalog::new();
    let failure = Verror::TransferError("status 500".to_string());
    assert_eq!(c.bootstrap(Err(failure.clone())), Err(failure));
}

#[test]
fn fetch_failure_with_local_catalog_keeps_it() {
    let mut c = Catalog::from_games(&vec![game(1, "kept", 0)]);
    let r = c.bootstrap(Err(Verror::TransferError("offline".to_string())));
    assert_eq!(r, Ok(Bootstrap::KeptLocal(Verror::TransferError("offline".to_string()))));
    assert_eq!(c.get_game(1).unwrap().title, "kept");
}

#[test]
fn document_without_games_counts_as_parse_failure() {
    let mut c = Catalog::new();
    let r = c.bootstrap(Ok(obj(vec![("items", JsonValue::Null)])));
    assert_eq!(r, Err(Verror::SchemaError(vec!["games".to_string()])));
}

#[test]
fn known_game_is_reconciled_in_place() {
    let mut c = Catalog::new();
    plans(c.bootstrap(Ok(doc(vec![game_json(1, "One", 1, 0)]))).unwrap());
    c.set_local_path(1, LinkType::BackgroundImage, "/d/bg.png".to_string()).unwrap();
    c.set_local_path(1, LinkType::NavigationIcon, "/d/icon.png".to_string()).unwrap();
    let out = plans(c.bootstrap(Ok(doc(vec![game_json(1, "One Renamed", 1, 0)]))).unwrap());
    let plan = out[0].as_ref().unwrap();
    assert!(plan.fetch.is_empty());
    assert!(plan.stale_files.is_empty());
    let g = c.get_game(1).unwrap();
    assert_eq!(g.title, "One Renamed");
    assert_eq!(g.background_image.local_path.as_deref(), Some("/d/bg.png"));
    let out = plans(c.bootstrap(Ok(doc(vec![game_json(1, "One", 2, 0)]))).unwrap());
    let plan = out[0].as_ref().unwrap();
    assert_eq!(plan.stale_files, vec!["/d/bg.png".to_string(), "/d/icon.png".to_string()]);
    assert_eq!(plan.fetch, vec![LinkType::BackgroundImage, LinkType::NavigationIcon]);
    assert!(c.get_game(1).unwrap().game_archive.need_update);
}
