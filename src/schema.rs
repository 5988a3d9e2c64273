//! Checked construction of catalog entries from an untyped document. Every
//! field that is missing or of the wrong type is reported, by its path, in
//! schema order.

use vstd::prelude::*;
use crate::errors::{strings_view, Verror};
use crate::games::{ArchiveView, Game, GameArchive, GameView, Link, LinkView};
use crate::json::{bool_of, is_object, member, str_of, strings_of, u64_of, JsonValue};

verus! {

pub open spec fn deref_opt(v: Option<&JsonValue>) -> Option<JsonValue> {
    match v {
        Some(x) => Some(*x),
        None => None,
    }
}

/// A fault at `path` unless `ok`.
pub open spec fn fault(ok: bool, path: Seq<char>) -> Seq<Seq<char>> {
    if ok {
        Seq::empty()
    } else {
        seq![path]
    }
}

pub open spec fn dotted(path: Seq<char>, key: Seq<char>) -> Seq<char> {
    path + "."@ + key
}

/// An optional string: absent reads as empty, present must be a string.
pub open spec fn opt_str_of(v: Option<JsonValue>) -> Option<Seq<char>> {
    match v {
        None => Some(Seq::empty()),
        Some(_) => str_of(v),
    }
}

/// An optional array of strings: absent reads as empty.
pub open spec fn opt_strings_of(v: Option<JsonValue>) -> Option<Seq<Seq<char>>> {
    match v {
        None => Some(Seq::empty()),
        Some(_) => strings_of(v),
    }
}

/// The presentation weight: an unsigned integer member is read as it is;
/// absent or of another type, the weight is zero. It is never a fault.
pub open spec fn weight_of(v: Option<JsonValue>) -> u64 {
    match u64_of(v) {
        Some(n) => n,
        None => 0,
    }
}

/// A game id: an unsigned integer that fits in a byte.
pub open spec fn id_of(v: Option<JsonValue>) -> Option<u8> {
    match u64_of(v) {
        Some(n) => if n <= 255 {
            Some(n as u8)
        } else {
            None
        },
        None => None,
    }
}

pub open spec fn text_or_empty(o: Option<Seq<char>>) -> Seq<char> {
    match o {
        Some(s) => s,
        None => Seq::empty(),
    }
}

pub open spec fn texts_or_empty(o: Option<Seq<Seq<char>>>) -> Seq<Seq<char>> {
    match o {
        Some(s) => s,
        None => Seq::empty(),
    }
}

pub open spec fn u64_or_zero(o: Option<u64>) -> u64 {
    match o {
        Some(n) => n,
        None => 0,
    }
}

pub open spec fn bool_or_false(o: Option<bool>) -> bool {
    match o {
        Some(b) => b,
        None => false,
    }
}

/// Faults of a link object at `path`: `{url: string, name: string, revision: u64}`.
pub open spec fn link_faults(v: Option<JsonValue>, path: Seq<char>) -> Seq<Seq<char>> {
    if !is_object(v) {
        seq![path]
    } else {
        fault(str_of(member(v, "url"@)) is Some, dotted(path, "url"@))
            + fault(str_of(member(v, "name"@)) is Some, dotted(path, "name"@))
            + fault(u64_of(member(v, "revision"@)) is Some, dotted(path, "revision"@))
    }
}

/// The link that a valid link object describes; a stored path is never read.
pub open spec fn link_of(v: Option<JsonValue>) -> LinkView {
    LinkView {
        url: text_or_empty(str_of(member(v, "url"@))),
        name: text_or_empty(str_of(member(v, "name"@))),
        revision: u64_or_zero(u64_of(member(v, "revision"@))),
        local_path: None,
    }
}

/// Faults of an archive object at `path`.
pub open spec fn archive_faults(v: Option<JsonValue>, path: Seq<char>) -> Seq<Seq<char>> {
    if !is_object(v) {
        seq![path]
    } else {
        link_faults(member(v, "link"@), dotted(path, "link"@))
            + fault(bool_of(member(v, "need_extract"@)) is Some, dotted(path, "need_extract"@))
            + fault(
            bool_of(member(v, "strip_top_level_folder"@)) is Some,
            dotted(path, "strip_top_level_folder"@),
        ) + fault(
            str_of(member(v, "path_to_executable"@)) is Some,
            dotted(path, "path_to_executable"@),
        )
    }
}

pub open spec fn archive_of(v: Option<JsonValue>) -> ArchiveView {
    ArchiveView {
        link: link_of(member(v, "link"@)),
        need_extract: bool_or_false(bool_of(member(v, "need_extract"@))),
        strip_top_level_folder: bool_or_false(bool_of(member(v, "strip_top_level_folder"@))),
        path_to_executable: text_or_empty(str_of(member(v, "path_to_executable"@))),
        need_update: false,
    }
}

/// Faults of a game object, in schema order.
pub open spec fn game_faults(v: JsonValue) -> Seq<Seq<char>> {
    let d = Some(v);
    if !is_object(d) {
        seq!["game"@]
    } else {
        fault(id_of(member(d, "id"@)) is Some, "id"@)
            + fault(str_of(member(d, "title"@)) is Some, "title"@)
            + fault(opt_str_of(member(d, "subtitle"@)) is Some, "subtitle"@)
            + fault(opt_str_of(member(d, "description"@)) is Some, "description"@)
            + fault(opt_str_of(member(d, "version"@)) is Some, "version"@)
            + fault(strings_of(member(d, "platform"@)) is Some, "platform"@)
            + fault(opt_strings_of(member(d, "tags"@)) is Some, "tags"@)
            + link_faults(member(d, "background_image"@), "background_image"@)
            + link_faults(member(d, "navigation_icon"@), "navigation_icon"@)
            + archive_faults(member(d, "download_link"@), "download_link"@)
    }
}

/// The game that a valid game object describes.
pub open spec fn game_of(v: JsonValue) -> GameView {
    let d = Some(v);
    GameView {
        id: match id_of(member(d, "id"@)) {
            Some(n) => n,
            None => 0,
        },
        title: text_or_empty(str_of(member(d, "title"@))),
        subtitle: text_or_empty(opt_str_of(member(d, "subtitle"@))),
        description: text_or_empty(opt_str_of(member(d, "description"@))),
        background_image: link_of(member(d, "background_image"@)),
        navigation_icon: link_of(member(d, "navigation_icon"@)),
        game_archive: archive_of(member(d, "download_link"@)),
        version: text_or_empty(opt_str_of(member(d, "version"@))),
        platform: texts_or_empty(strings_of(member(d, "platform"@))),
        tags: texts_or_empty(opt_strings_of(member(d, "tags"@))),
        weight: weight_of(member(d, "weight"@)),
    }
}

fn field<'a>(v: Option<&'a JsonValue>, key: &str) -> (r: Option<&'a JsonValue>)
    ensures
        deref_opt(r) == member(deref_opt(v), key@),
{
    match v {
        Some(x) => x.get(key),
        None => None,
    }
}

fn dotted_text(path: &str, key: &str) -> (r: String)
    ensures
        r@ == dotted(path@, key@),
{
    let mut s = String::from_str(path);
    s.append(".");
    s.append(key);
    s
}

/// Records a fault at `path` unless `ok`.
fn note(ok: bool, path: String, faults: &mut Vec<String>)
    ensures
        strings_view(final(faults)@) == strings_view(old(faults)@) + fault(ok, path@),
{
    let ghost before = faults@;
    if !ok {
        faults.push(path);
        assert(strings_view(faults@) =~= strings_view(before) + seq![path@]);
    } else {
        assert(strings_view(faults@) =~= strings_view(before) + Seq::<Seq<char>>::empty());
    }
}

fn text_field(v: Option<&JsonValue>, key: &str) -> (r: Option<String>)
    ensures
        opt_text(r) == str_of(member(deref_opt(v), key@)),
{
    match field(v, key) {
        Some(x) => match x.as_str() {
            Some(s) => Some(s.clone()),
            None => None,
        },
        None => None,
    }
}

pub open spec fn opt_text(o: Option<String>) -> Option<Seq<char>> {
    match o {
        Some(s) => Some(s@),
        None => None,
    }
}

fn optional_text_field(v: Option<&JsonValue>, key: &str) -> (r: Option<String>)
    ensures
        opt_text(r) == opt_str_of(member(deref_opt(v), key@)),
{
    match field(v, key) {
        Some(x) => match x.as_str() {
            Some(s) => Some(s.clone()),
            None => None,
        },
        None => Some(String::new()),
    }
}

fn u64_field(v: Option<&JsonValue>, key: &str) -> (r: Option<u64>)
    ensures
        r == u64_of(member(deref_opt(v), key@)),
{
    match field(v, key) {
        Some(x) => x.as_u64(),
        None => None,
    }
}

fn bool_field(v: Option<&JsonValue>, key: &str) -> (r: Option<bool>)
    ensures
        r == bool_of(member(deref_opt(v), key@)),
{
    match field(v, key) {
        Some(x) => x.as_bool(),
        None => None,
    }
}

pub open spec fn opt_texts(o: Option<Vec<String>>) -> Option<Seq<Seq<char>>> {
    match o {
        Some(v) => Some(strings_view(v@)),
        None => None,
    }
}

fn strings_field(v: Option<&JsonValue>, key: &str, optional: bool) -> (r: Option<Vec<String>>)
    ensures
        optional ==> opt_texts(r) == opt_strings_of(member(deref_opt(v), key@)),
        !optional ==> opt_texts(r) == strings_of(member(deref_opt(v), key@)),
{
    match field(v, key) {
        Some(x) => x.as_strings(),
        None => if optional {
            let e: Vec<String> = Vec::new();
            assert(strings_view(e@) =~= Seq::<Seq<char>>::empty());
            Some(e)
        } else {
            None
        },
    }
}

/// Reads a link object at `path`, recording its faults.
fn read_link(v: Option<&JsonValue>, path: &str, faults: &mut Vec<String>) -> (r: Option<Link>)
    ensures
        strings_view(final(faults)@) == strings_view(old(faults)@) + link_faults(deref_opt(v), path@),
        r is Some <==> link_faults(deref_opt(v), path@).len() == 0,
        r matches Some(l) ==> l@ == link_of(deref_opt(v)),
{
    let ghost before = strings_view(faults@);
    let is_obj = match v {
        Some(x) => x.is_object(),
        None => false,
    };
    if !is_obj {
        faults.push(String::from_str(path));
        assert(strings_view(faults@) =~= before + seq![path@]);
        return None;
    }
    let url = text_field(v, "url");
    note(url.is_some(), dotted_text(path, "url"), faults);
    let name = text_field(v, "name");
    note(name.is_some(), dotted_text(path, "name"), faults);
    let revision = u64_field(v, "revision");
    note(revision.is_some(), dotted_text(path, "revision"), faults);
    assert(strings_view(faults@) =~= before + link_faults(deref_opt(v), path@));
    match (url, name, revision) {
        (Some(url), Some(name), Some(revision)) => Some(Link::new(url, name, revision, None)),
        _ => None,
    }
}

/// Reads an archive object at `path`, recording its faults.
fn read_archive(v: Option<&JsonValue>, path: &str, faults: &mut Vec<String>) -> (r: Option<GameArchive>)
    ensures
        strings_view(final(faults)@) == strings_view(old(faults)@) + archive_faults(deref_opt(v), path@),
        r is Some <==> archive_faults(deref_opt(v), path@).len() == 0,
        r matches Some(a) ==> a@ == archive_of(deref_opt(v)),
{
    let ghost before = strings_view(faults@);
    let is_obj = match v {
        Some(x) => x.is_object(),
        None => false,
    };
    if !is_obj {
        faults.push(String::from_str(path));
        assert(strings_view(faults@) =~= before + seq![path@]);
        return None;
    }
    let link_path = dotted_text(path, "link");
    let link = read_link(field(v, "link"), link_path.as_str(), faults);
    let need_extract = bool_field(v, "need_extract");
    note(need_extract.is_some(), dotted_text(path, "need_extract"), faults);
    let strip = bool_field(v, "strip_top_level_folder");
    note(strip.is_some(), dotted_text(path, "strip_top_level_folder"), faults);
    let exe = text_field(v, "path_to_executable");
    note(exe.is_some(), dotted_text(path, "path_to_executable"), faults);
    assert(strings_view(faults@) =~= before + archive_faults(deref_opt(v), path@));
    match (link, need_extract, strip, exe) {
        (Some(link), Some(need_extract), Some(strip), Some(exe)) => Some(
            GameArchive::new(link, need_extract, strip, exe),
        ),
        _ => None,
    }
}

impl Link {
    /// Builds a link from a link object `{url, name, revision}`; a stored
    /// `local_path` member is not read. Faulty fields are reported under the
    /// path `link`.
    pub fn from_json_object(json: &JsonValue) -> (r: Result<Link, Verror>)
        ensures
            r is Ok <==> link_faults(Some(*json), "link"@).len() == 0,
            r matches Ok(l) ==> l@ == link_of(Some(*json)),
            r matches Err(e) ==> e matches Verror::SchemaError(f) && strings_view(f@)
                == link_faults(Some(*json), "link"@),
    {
        let mut faults: Vec<String> = Vec::new();
        let r = read_link(Some(json), "link", &mut faults);
        assert(strings_view(faults@) =~= link_faults(Some(*json), "link"@));
        match r {
            Some(l) => Ok(l),
            None => Err(Verror::SchemaError(faults)),
        }
    }
}

impl GameArchive {
    /// Builds an archive from `{link, need_extract, strip_top_level_folder,
    /// path_to_executable}`. Faulty fields are reported under the path
    /// `download_link`.
    pub fn from_json_object(json: &JsonValue) -> (r: Result<GameArchive, Verror>)
        ensures
            r is Ok <==> archive_faults(Some(*json), "download_link"@).len() == 0,
            r matches Ok(a) ==> a@ == archive_of(Some(*json)),
            r matches Err(e) ==> e matches Verror::SchemaError(f) && strings_view(f@)
                == archive_faults(Some(*json), "download_link"@),
    {
        let mut faults: Vec<String> = Vec::new();
        let r = read_archive(Some(json), "download_link", &mut faults);
        assert(strings_view(faults@) =~= archive_faults(Some(*json), "download_link"@));
        match r {
            Some(a) => Ok(a),
            None => Err(Verror::SchemaError(faults)),
        }
    }
}

impl Game {
    /// Builds a catalog entry from a game object of the remote catalog. It
    /// succeeds exactly when no field is faulty; otherwise the error lists the
    /// path of every faulty field.
    pub fn initialize_game_from_json(json: &JsonValue) -> (r: Result<Game, Verror>)
        ensures
            r is Ok <==> game_faults(*json).len() == 0,
            r matches Ok(g) ==> g@ == game_of(*json),
            r matches Err(e) ==> e matches Verror::SchemaError(f) && strings_view(f@)
                == game_faults(*json),
    {
        let d = Some(json);
        let mut faults: Vec<String> = Vec::new();
        if !json.is_object() {
            faults.push(String::from_str("game"));
            assert(strings_view(faults@) =~= game_faults(*json));
            return Err(Verror::SchemaError(faults));
        }
        let raw_id = u64_field(d, "id");
        let id: Option<u8> = match raw_id {
            Some(n) => if n <= 255 {
                Some(n as u8)
            } else {
                None
            },
            None => None,
        };
        note(id.is_some(), String::from_str("id"), &mut faults);
        let title = text_field(d, "title");
        note(title.is_some(), String::from_str("title"), &mut faults);
        let subtitle = optional_text_field(d, "subtitle");
        note(subtitle.is_some(), String::from_str("subtitle"), &mut faults);
        let description = optional_text_field(d, "description");
        note(description.is_some(), String::from_str("description"), &mut faults);
        let version = optional_text_field(d, "version");
        note(version.is_some(), String::from_str("version"), &mut faults);
        let platform = strings_field(d, "platform", false);
        note(platform.is_some(), String::from_str("platform"), &mut faults);
        let tags = strings_field(d, "tags", true);
        note(tags.is_some(), String::from_str("tags"), &mut faults);
        let weight: u64 = match u64_field(d, "weight") {
            Some(n) => n,
            None => 0,
        };
        let background_image = read_link(field(d, "background_image"), "background_image", &mut faults);
        let navigation_icon = read_link(field(d, "navigation_icon"), "navigation_icon", &mut faults);
        let game_archive = read_archive(field(d, "download_link"), "download_link", &mut faults);
        assert(strings_view(faults@) =~= game_faults(*json));
        match (id, title, subtitle, description, version, platform, tags) {
            (
                Some(id),
                Some(title),
                Some(subtitle),
                Some(description),
                Some(version),
                Some(platform),
                Some(tags),
            ) => match (background_image, navigation_icon, game_archive) {
                (Some(b), Some(n), Some(a)) => {
                    if faults.len() == 0 {
                        let g = Game::new(
                            id,
                            title,
                            subtitle,
                            description,
                            b,
                            n,
                            a,
                            version,
                            platform,
                            tags,
                            weight,
                        );
                        assert(g@ == game_of(*json));
                        Ok(g)
                    } else {
                        Err(Verror::SchemaError(faults))
                    }
                },
                _ => Err(Verror::SchemaError(faults)),
            },
            _ => Err(Verror::SchemaError(faults)),
        }
    }
}

} // verus!
