use vertex_launcher::games::{Game, GameArchive, Link, LinkType};
use vertex_launcher::tray::{on_tray_menu_event, toggle_label, TrayAction};
use vertex_launcher::json::{JsonNumber, JsonValue};
use vertex_launcher::text::{decimal_text, two_digit_text};
use vertex_launcher::{generate_download_complete_message, greet, retain_alphanumeric, Verror};

fn s(x: &str) -> JsonValue {
    JsonValue::Str(x.to_string())
}

fn n(x: u64) -> JsonValue {
    JsonValue::Number(JsonNumber::Unsigned(x))
}

fn obj(members: Vec<(&str, JsonValue)>) -> JsonValue {
    JsonValue::Object(members.into_iter().map(|(k, v)| (k.to_string(), v)).collect())
}

fn link_json(url: &str, name: &str, revision: u64) -> JsonValue {
    obj(vec![("url", s(url)), ("name", s(name)), ("revision", n(revision))])
}

fn archive_json() -> JsonValue {
    obj(vec![
        ("link", link_json("https://x/g.zip", "g.zip", 3)),
        ("need_extract", JsonValue::Bool(true)),
        ("strip_top_level_folder", JsonValue::Bool(true)),
        ("path_to_executable", s("g/run.exe")),
    ])
}

fn minimal_game(id: JsonValue) -> Vec<(&'static str, JsonValue)> {
    vec![
        ("id", id),
        ("title", s("Minimal")),
        ("platform", JsonValue::Array(vec![s("linux"), s("windows")])),
        ("background_image", link_json("https://x/bg", "bg", 1)),
        ("navigation_icon", link_json("https://x/ic", "ic", 2)),
        ("download_link", archive_json()),
    ]
}

fn schema_fields(r: Result<Game, Verror>) -> Vec<String> {
    match r {
        Err(Verror::SchemaError(f)) => f,
        other => panic!("expected a schema error, got {:?}", other),
    }
}

#[test]
fn game_from_json_with_optional_fields_absent() {
    let g = Game::initialize_game_from_json(&obj(minimal_game(n(12)))).unwrap();
    assert_eq!(g.id, 12);
    assert_eq!(g.title, "Minimal");
    assert_eq!(g.subtitle, "");
    assert_eq!(g.description, "");
    assert_eq!(g.version, "");
    assert!(g.tags.is_empty());
    assert_eq!(g.weight, 0);
    assert_eq!(g.platform, vec!["linux".to_string(), "windows".to_string()]);
    assert_eq!(g.navigation_icon.revision, 2);
    assert_eq!(g.game_archive.link.name, "g.zip");
    assert!(g.game_archive.strip_top_level_folder);
    assert_eq!(g.game_archive.path_to_executable, "g/run.exe");
    assert!(!g.game_archive.need_update);
}

#[test]
fn weight_is_read_when_unsigned_and_never_a_fault() {
    let mut members = minimal_game(n(4));
    members.push(("weight", s("heavy")));
    let g = Game::initialize_game_from_json(&obj(members)).unwrap();
    assert_eq!(g.weight, 0);
    let mut members = minimal_game(n(4));
    members.push(("weight", JsonValue::Number(JsonNumber::Negative(-3))));
    assert_eq!(Game::initialize_game_from_json(&obj(members)).unwrap().weight, 0);
    let mut members = minimal_game(n(4));
    members.push(("weight", n(17)));
    assert_eq!(Game::initialize_game_from_json(&obj(members)).unwrap().weight, 17);
}

#[test]
fn stored_local_path_is_not_read_from_remote() {
    let mut members = minimal_game(n(1));
    members[3] = ("background_image", obj(vec![
        ("url", s("u")),
        ("name", s("n")),
        ("revision", n(1)),
        ("local_path", s("/tmp/evil")),
    ]));
    let g = Game::initialize_game_from_json(&obj(members)).unwrap();
    assert_eq!(g.background_image.local_path, None);
}

#[test]
fn id_above_a_byte_is_rejected() {
    assert_eq!(schema_fields(Game::initialize_game_from_json(&obj(minimal_game(n(256))))), vec!["id".to_string()]);
    let neg = JsonValue::Number(JsonNumber::Negative(-1));
    assert_eq!(schema_fields(Game::initialize_game_from_json(&obj(minimal_game(neg)))), vec!["id".to_string()]);
    let frac = JsonValue::Number(JsonNumber::Fractional);
    assert_eq!(schema_fields(Game::initialize_game_from_json(&obj(minimal_game(frac)))), vec!["id".to_string()]);
    let g = Game::initialize_game_from_json(&obj(minimal_game(n(255)))).unwrap();
    assert_eq!(g.id, 255);
}

#[test]
fn every_faulty_field_is_reported_in_order() {
    let mut members = minimal_game(n(1));
    members.push(("tags", JsonValue::Array(vec![s("ok"), n(1)])));
    members.push(("subtitle", JsonValue::Null));
    members[4] = ("navigation_icon", obj(vec![("url", s("u")), ("revision", s("7"))]));
    members[5] = ("download_link", obj(vec![("link", JsonValue::Bool(false)), ("need_extract", JsonValue::Bool(true))]));
    let fields = schema_fields(Game::initialize_game_from_json(&obj(members)));
    assert_eq!(
        fields,
        vec![
            "subtitle",
            "tags",
            "navigation_icon.name",
            "navigation_icon.revision",
            "download_link.link",
            "download_link.strip_top_level_folder",
            "download_link.path_to_executable",
        ]
        .into_iter()
        .map(|x| x.to_string())
        .collect::<Vec<String>>()
    );
}

#[test]
fn non_object_game_is_rejected() {
    assert_eq!(schema_fields(Game::initialize_game_from_json(&JsonValue::Array(vec![]))), vec!["game".to_string()]);
}

#[test]
fn link_and_archive_from_json() {
    let l = Link::from_json_object(&link_json("https://a", "a.png", 9)).unwrap();
    assert_eq!(l, Link::new("https://a".to_string(), "a.png".to_string(), 9, None));
    let e = Link::from_json_object(&obj(vec![("url", s("u"))])).unwrap_err();
    assert_eq!(e, Verror::SchemaError(vec!["link.name".to_string(), "link.revision".to_string()]));
    let a = GameArchive::from_json_object(&archive_json()).unwrap();
    assert_eq!(a.link.revision, 3);
    assert!(a.need_extract);
    let e = GameArchive::from_json_object(&JsonValue::Null).unwrap_err();
    assert_eq!(e, Verror::SchemaError(vec!["download_link".to_string()]));
}

#[test]
fn first_of_repeated_members_is_read() {
    let v = obj(vec![("k", n(1)), ("k", n(2))]);
    assert_eq!(v.get("k").and_then(|x| x.as_u64()), Some(1));
    assert!(v.get("missing").is_none());
    assert!(n(1).get("k").is_none());
}

#[test]
fn constructors_keep_their_arguments() {
    let l = Link::new("u".to_string(), "n".to_string(), 3, Some("/p".to_string()));
    assert_eq!(l.revision, 3);
    assert_eq!(l.local_path.as_deref(), Some("/p"));
    let a = GameArchive::new(l.clone(), false, true, "x.exe".to_string());
    assert!(!a.need_update);
    assert!(!a.need_extract);
    assert!(a.strip_top_level_folder);
    let g = Game::new(1, "T".into(), "S".into(), "D".into(), l.clone(), l.clone(), a, "2".into(), vec![], vec!["t".into()], 4);
    assert_eq!(g.weight, 4);
    assert_eq!(g.tags, vec!["t".to_string()]);
}

#[test]
fn folder_name_is_lowercase_alphanumeric() {
    let l = Link::new(String::new(), String::new(), 0, None);
    let a = GameArchive::new(l.clone(), false, false, String::new());
    let g = Game::new(1, "Super Game 2: ÉDITION!".into(), "".into(), "".into(), l.clone(), l, a, "".into(), vec![], vec![], 0);
    assert_eq!(g.get_folder_name(), "supergame2dition");
    assert_eq!(retain_alphanumeric("a-B_c 9é"), "aBc9");
    assert_eq!(retain_alphanumeric(""), "");
}

#[test]
fn messages_and_greeting() {
    assert_eq!(greet("John"), "Hello, John! You've been greeted from Rust!");
    assert_eq!(generate_download_complete_message("Star Run"), "Star Run has been successfully downloaded.");
    assert_eq!(decimal_text(0), "0");
    assert_eq!(decimal_text(1234567890123), "1234567890123");
    assert_eq!(two_digit_text(7), "07");
    assert_eq!(two_digit_text(42), "42");
}

#[test]
fn error_messages_name_the_game() {
    assert_eq!(Verror::NotFound(2).message(), "Game with id 2 not found");
    assert_eq!(Verror::DownloadInProgress(14).message(), "A download of game 14 is already in progress");
    assert_eq!(Verror::LaunchFailed(3, "no such file".into()).message(), "Failed to launch game 3: no such file");
    assert_eq!(Verror::SchemaError(vec!["id".into(), "title".into()]).message(), "Invalid catalog data in fields: id, title");
    assert_eq!(Verror::IoError("disk full".into()).message(), "I/O error: disk full");
    assert_eq!(Verror::TransferError("status 404".into()).message(), "Transfer failed: status 404");
    assert_eq!(Verror::ExtractionError("bad zip".into()).message(), "Extraction failed: bad zip");
    assert_eq!(Verror::StoreAccessError("locked".into()).message(), "Store access failed: locked");
}

#[test]
fn tray_menu_decisions() {
    assert_eq!(on_tray_menu_event("quit"), TrayAction::Quit);
    assert_eq!(on_tray_menu_event("hide"), TrayAction::ToggleWindow);
    assert_eq!(on_tray_menu_event("about"), TrayAction::Ignore);
    assert_eq!(on_tray_menu_event(""), TrayAction::Ignore);
    assert_eq!(toggle_label(true), "Hide launcher");
    assert_eq!(toggle_label(false), "Show launcher");
}

#[test]
fn fresh_entry_has_nothing_on_disk() {
    let l = Link::new("u".into(), "n".into(), 2, Some("/old".into()));
    let mut a = GameArchive::new(l.clone(), true, false, "x".into());
    a.need_update = true;
    let remote = Game::new(9, "T".into(), "".into(), "".into(), l.clone(), l, a, "".into(), vec![], vec![], 1);
    let fresh = Game::fresh_from_remote(&remote);
    assert_eq!(fresh.background_image.local_path, None);
    assert_eq!(fresh.navigation_icon.local_path, None);
    assert_eq!(fresh.game_archive.link.local_path, None);
    assert!(!fresh.game_archive.need_update);
    assert_eq!(fresh.link(LinkType::GameArchiveLink).revision, 2);
    assert_eq!(fresh.link(LinkType::NavigationIcon).name, "n");
    assert_eq!(fresh.duplicate(), fresh);
}
