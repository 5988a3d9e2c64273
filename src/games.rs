//! The catalog entry model: resource links, the game archive and games, with
//! their views.

use vstd::prelude::*;
use crate::errors::strings_view;
use crate::text::{keep_alphanumeric, lower_of, lowercase, retain_alphanumeric};

verus! {

/// One fetchable resource: where it comes from, its revision, and where it
/// was stored once fetched at that revision.
#[derive(Debug, Clone, PartialEq, Eq)]
pub struct Link {
    pub url: String,
    pub name: String,
    pub revision: u64,
    /// Set only once the file was stored from `url` at `revision`.
    pub local_path: Option<String>,
}

/// The downloadable archive of a game.
#[derive(Debug, Clone, PartialEq, Eq)]
pub struct GameArchive {
    pub link: Link,
    pub need_extract: bool,
    pub strip_top_level_folder: bool,
    /// Path of the executable, relative to the game's folder.
    pub path_to_executable: String,
    /// The archive is not on disk at the catalog's revision; fetching it waits
    /// for an explicit request.
    pub need_update: bool,
}

/// Which of a game's three resources is meant.
#[derive(Debug, Clone, Copy, PartialEq, Eq)]
pub enum LinkType {
    BackgroundImage,
    NavigationIcon,
    GameArchiveLink,
}

/// A catalog entry: what the launcher shows of a game, and its resources.
#[derive(Debug, Clone, PartialEq, Eq)]
pub struct Game {
    pub id: u8,
    pub title: String,
    pub subtitle: String,
    pub description: String,
    pub background_image: Link,
    pub navigation_icon: Link,
    pub game_archive: GameArchive,
    pub version: String,
    pub platform: Vec<String>,
    pub tags: Vec<String>,
    /// Presentation order: a higher weight is listed first.
    pub weight: u64,
}

pub struct LinkView {
    pub url: Seq<char>,
    pub name: Seq<char>,
    pub revision: u64,
    pub local_path: Option<Seq<char>>,
}

pub struct ArchiveView {
    pub link: LinkView,
    pub need_extract: bool,
    pub strip_top_level_folder: bool,
    pub path_to_executable: Seq<char>,
    pub need_update: bool,
}

pub struct GameView {
    pub id: u8,
    pub title: Seq<char>,
    pub subtitle: Seq<char>,
    pub description: Seq<char>,
    pub background_image: LinkView,
    pub navigation_icon: LinkView,
    pub game_archive: ArchiveView,
    pub version: Seq<char>,
    pub platform: Seq<Seq<char>>,
    pub tags: Seq<Seq<char>>,
    pub weight: u64,
}

pub open spec fn opt_view(o: Option<String>) -> Option<Seq<char>> {
    match o {
        Some(s) => Some(s@),
        None => None,
    }
}

impl View for Link {
    type V = LinkView;

    open spec fn view(&self) -> LinkView {
        LinkView {
            url: self.url@,
            name: self.name@,
            revision: self.revision,
            local_path: opt_view(self.local_path),
        }
    }
}

impl View for GameArchive {
    type V = ArchiveView;

    open spec fn view(&self) -> ArchiveView {
        ArchiveView {
            link: self.link@,
            need_extract: self.need_extract,
            strip_top_level_folder: self.strip_top_level_folder,
            path_to_executable: self.path_to_executable@,
            need_update: self.need_update,
        }
    }
}

impl View for Game {
    type V = GameView;

    open spec fn view(&self) -> GameView {
        GameView {
            id: self.id,
            title: self.title@,
            subtitle: self.subtitle@,
            description: self.description@,
            background_image: self.background_image@,
            navigation_icon: self.navigation_icon@,
            game_archive: self.game_archive@,
            version: self.version@,
            platform: strings_view(self.platform@),
            tags: strings_view(self.tags@),
            weight: self.weight,
        }
    }
}

/// The link of `g` that `kind` names.
pub open spec fn link_of_kind(g: GameView, kind: LinkType) -> LinkView {
    match kind {
        LinkType::BackgroundImage => g.background_image,
        LinkType::NavigationIcon => g.navigation_icon,
        LinkType::GameArchiveLink => g.game_archive.link,
    }
}

fn copy_opt(o: &Option<String>) -> (r: Option<String>)
    ensures
        opt_view(r) == opt_view(*o),
{
    match o {
        Some(s) => Some(s.clone()),
        None => None,
    }
}

pub(crate) fn copy_strings(v: &Vec<String>) -> (r: Vec<String>)
    ensures
        strings_view(r@) == strings_view(v@),
{
    let mut out: Vec<String> = Vec::new();
    let mut i: usize = 0;
    while i < v.len()
        invariant
            i <= v@.len(),
            out@.len() == i,
            forall|j: int| 0 <= j < i ==> #[trigger] out@[j]@ == v@[j]@,
        decreases v@.len() - i,
    {
        out.push(v[i].clone());
        i = i + 1;
    }
    assert(strings_view(out@) =~= strings_view(v@));
    out
}

impl Link {
    pub fn new(url: String, name: String, revision: u64, local_path: Option<String>) -> (r: Link)
        ensures
            r == (Link { url, name, revision, local_path }),
    {
        Link { url, name, revision, local_path }
    }

    /// A copy with the same view.
    pub fn duplicate(&self) -> (r: Link)
        ensures
            r@ == self@,
    {
        Link {
            url: self.url.clone(),
            name: self.name.clone(),
            revision: self.revision,
            local_path: copy_opt(&self.local_path),
        }
    }
}

impl GameArchive {
    pub fn new(link: Link, need_extract: bool, strip_top_level_folder: bool, path_to_executable: String) -> (r: GameArchive)
        ensures
            r == (GameArchive {
                link,
                need_extract,
                strip_top_level_folder,
                path_to_executable,
                need_update: false,
            }),
    {
        GameArchive { link, need_extract, strip_top_level_folder, path_to_executable, need_update: false }
    }

    /// A copy with the same view.
    pub fn duplicate(&self) -> (r: GameArchive)
        ensures
            r@ == self@,
    {
        GameArchive {
            link: self.link.duplicate(),
            need_extract: self.need_extract,
            strip_top_level_folder: self.strip_top_level_folder,
            path_to_executable: self.path_to_executable.clone(),
            need_update: self.need_update,
        }
    }
}

impl Game {
    pub fn new(
        id: u8,
        title: String,
        subtitle: String,
        description: String,
        background_image: Link,
        navigation_icon: Link,
        game_archive: GameArchive,
        version: String,
        platform: Vec<String>,
        tags: Vec<String>,
        weight: u64,
    ) -> (r: Game)
        ensures
            r == (Game {
                id,
                title,
                subtitle,
                description,
                background_image,
                navigation_icon,
                game_archive,
                version,
                platform,
                tags,
                weight,
            }),
    {
        Game {
            id,
            title,
            subtitle,
            description,
            background_image,
            navigation_icon,
            game_archive,
            version,
            platform,
            tags,
            weight,
        }
    }

    /// A copy with the same view.
    pub fn duplicate(&self) -> (r: Game)
        ensures
            r@ == self@,
    {
        Game {
            id: self.id,
            title: self.title.clone(),
            subtitle: self.subtitle.clone(),
            description: self.description.clone(),
            background_image: self.background_image.duplicate(),
            navigation_icon: self.navigation_icon.duplicate(),
            game_archive: self.game_archive.duplicate(),
            version: self.version.clone(),
            platform: copy_strings(&self.platform),
            tags: copy_strings(&self.tags),
            weight: self.weight,
        }
    }

    /// The link of the resource `kind`.
    pub fn link(&self, kind: LinkType) -> (r: &Link)
        ensures
            r@ == link_of_kind(self@, kind),
    {
        match kind {
            LinkType::BackgroundImage => &self.background_image,
            LinkType::NavigationIcon => &self.navigation_icon,
            LinkType::GameArchiveLink => &self.game_archive.link,
        }
    }

    /// The name of this game's folder: its lowercased title, keeping ASCII
    /// letters and digits only.
    pub fn get_folder_name(&self) -> (r: String)
        ensures
            r@ == keep_alphanumeric(lower_of(self.title@)),
    {
        let lowered = lowercase(self.title.as_str());
        retain_alphanumeric(lowered.as_str())
    }
}

} // verus!
