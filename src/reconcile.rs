//! Revision-based reconciliation of a local catalog entry against the remote
//! one. A newer remote revision replaces a link and invalidates its stored
//! file; the background image and the navigation icon are then fetched at
//! once, while a stale archive is only flagged for an explicit download.

use vstd::prelude::*;
use crate::errors::strings_view;
use crate::games::{copy_strings, ArchiveView, Game, GameView, Link, LinkType, LinkView};

verus! {

/// What reconciling one entry leaves for the caller to do on disk and over
/// the network.
#[derive(Debug, Clone, PartialEq, Eq)]
pub struct ResourcePlan {
    pub game_id: u8,
    /// Files stored at an older revision, to delete.
    pub stale_files: Vec<String>,
    /// Resources to fetch now; never the archive.
    pub fetch: Vec<LinkType>,
}

/// The local link after reconciling it with the remote one: a strictly newer
/// remote revision is adopted and clears the stored path; otherwise nothing
/// changes, whatever the url says.
pub open spec fn link_reconciled(local: LinkView, remote: LinkView) -> LinkView {
    if local.revision < remote.revision {
        LinkView { url: remote.url, name: remote.name, revision: remote.revision, local_path: None }
    } else {
        local
    }
}

/// The stored file that reconciling invalidates, if any.
pub open spec fn stale_file(local: LinkView, remote: LinkView) -> Seq<Seq<char>> {
    if local.revision < remote.revision {
        match local.local_path {
            Some(p) => seq![p],
            None => Seq::empty(),
        }
    } else {
        Seq::empty()
    }
}

/// The local entry after reconciliation: descriptive fields follow the remote
/// entry, each link is reconciled on its own, and the archive is flagged when
/// it is not on disk.
pub open spec fn game_reconciled(local: GameView, remote: GameView) -> GameView {
    let archive_link = link_reconciled(local.game_archive.link, remote.game_archive.link);
    GameView {
        id: local.id,
        title: remote.title,
        subtitle: remote.subtitle,
        description: remote.description,
        background_image: link_reconciled(local.background_image, remote.background_image),
        navigation_icon: link_reconciled(local.navigation_icon, remote.navigation_icon),
        game_archive: ArchiveView {
            link: archive_link,
            need_extract: local.game_archive.need_extract,
            strip_top_level_folder: local.game_archive.strip_top_level_folder,
            path_to_executable: local.game_archive.path_to_executable,
            need_update: archive_link.local_path is None,
        },
        version: remote.version,
        platform: remote.platform,
        tags: remote.tags,
        weight: remote.weight,
    }
}

/// Stale files of the background image, the icon and the archive, in that order.
pub open spec fn stale_files_of(local: GameView, remote: GameView) -> Seq<Seq<char>> {
    stale_file(local.background_image, remote.background_image) + stale_file(
        local.navigation_icon,
        remote.navigation_icon,
    ) + stale_file(local.game_archive.link, remote.game_archive.link)
}

/// The small resources that are not on disk after reconciliation.
pub open spec fn fetches_of(local: GameView, remote: GameView) -> Seq<LinkType> {
    let r = game_reconciled(local, remote);
    (if r.background_image.local_path is None {
        seq![LinkType::BackgroundImage]
    } else {
        Seq::empty()
    }) + (if r.navigation_icon.local_path is None {
        seq![LinkType::NavigationIcon]
    } else {
        Seq::empty()
    })
}

/// An entry as it stands before any of its resources was fetched.
pub open spec fn placeholder(remote: GameView) -> GameView {
    GameView {
        background_image: LinkView { local_path: None, ..remote.background_image },
        navigation_icon: LinkView { local_path: None, ..remote.navigation_icon },
        game_archive: ArchiveView {
            link: LinkView { local_path: None, ..remote.game_archive.link },
            need_update: false,
            ..remote.game_archive
        },
        ..remote
    }
}

/// `g` with the resource `kind` stored at `path`; storing the archive clears
/// its update flag.
pub open spec fn with_local_path(g: GameView, kind: LinkType, path: Seq<char>) -> GameView {
    match kind {
        LinkType::BackgroundImage => GameView {
            background_image: LinkView { local_path: Some(path), ..g.background_image },
            ..g
        },
        LinkType::NavigationIcon => GameView {
            navigation_icon: LinkView { local_path: Some(path), ..g.navigation_icon },
            ..g
        },
        LinkType::GameArchiveLink => GameView {
            game_archive: ArchiveView {
                link: LinkView { local_path: Some(path), ..g.game_archive.link },
                need_update: false,
                ..g.game_archive
            },
            ..g
        },
    }
}

impl Link {
    /// Reconciles this link with `remote`; returns the stored file that the
    /// change made stale, to be deleted by the caller.
    pub fn update_link(&mut self, remote: &Link) -> (stale: Option<String>)
        ensures
            final(self)@ == link_reconciled(old(self)@, remote@),
            stale_file(old(self)@, remote@) == match stale {
                Some(p) => seq![p@],
                None => Seq::<Seq<char>>::empty(),
            },
    {
        if self.revision < remote.revision {
            self.url = remote.url.clone();
            self.name = remote.name.clone();
            self.revision = remote.revision;
            let stale = match &self.local_path {
                Some(p) => Some(p.clone()),
                None => None,
            };
            self.local_path = None;
            stale
        } else {
            None
        }
    }
}

fn push_stale(files: &mut Vec<String>, stale: Option<String>)
    ensures
        strings_view(final(files)@) == strings_view(old(files)@) + match stale {
            Some(p) => seq![p@],
            None => Seq::<Seq<char>>::empty(),
        },
{
    let ghost before = strings_view(files@);
    match stale {
        Some(p) => {
            files.push(p);
            assert(strings_view(files@) =~= before + seq![p@]);
        },
        None => {
            assert(strings_view(files@) =~= before + Seq::<Seq<char>>::empty());
        },
    }
}

impl Game {
    /// Reconciles this local entry with the remote entry of the same id. The
    /// returned plan lists the files to delete and the small resources to
    /// fetch now; the archive is never among them, a stale archive only gets
    /// its update flag.
    pub fn update_game(&mut self, remote: &Game) -> (plan: ResourcePlan)
        ensures
            final(self)@ == game_reconciled(old(self)@, remote@),
            plan.game_id == old(self).id,
            strings_view(plan.stale_files@) == stale_files_of(old(self)@, remote@),
            plan.fetch@ == fetches_of(old(self)@, remote@),
            !plan.fetch@.contains(LinkType::GameArchiveLink),
    {
        self.version = remote.version.clone();
        self.title = remote.title.clone();
        self.subtitle = remote.subtitle.clone();
        self.description = remote.description.clone();
        self.platform = copy_strings(&remote.platform);
        self.tags = copy_strings(&remote.tags);
        self.weight = remote.weight;

        let mut stale_files: Vec<String> = Vec::new();
        let s = self.background_image.update_link(&remote.background_image);
        push_stale(&mut stale_files, s);
        let s = self.navigation_icon.update_link(&remote.navigation_icon);
        push_stale(&mut stale_files, s);
        let s = self.game_archive.link.update_link(&remote.game_archive.link);
        push_stale(&mut stale_files, s);

        let mut fetch: Vec<LinkType> = Vec::new();
        if self.background_image.local_path.is_none() {
            fetch.push(LinkType::BackgroundImage);
        }
        if self.navigation_icon.local_path.is_none() {
            fetch.push(LinkType::NavigationIcon);
        }
        self.game_archive.need_update = self.game_archive.link.local_path.is_none();
        proof {
            let ghost expected = fetches_of(old(self)@, remote@);
            assert(fetch@ =~= expected);
            assert(strings_view(stale_files@) =~= stale_files_of(old(self)@, remote@));
        }
        ResourcePlan { game_id: self.id, stale_files, fetch }
    }

    /// The entry of a game that is not in the local catalog yet: the remote
    /// entry with no resource on disk.
    pub fn fresh_from_remote(remote: &Game) -> (r: Game)
        ensures
            r@ == placeholder(remote@),
    {
        let mut g = remote.duplicate();
        g.background_image.local_path = None;
        g.navigation_icon.local_path = None;
        g.game_archive.link.local_path = None;
        g.game_archive.need_update = false;
        g
    }

    /// Records that the resource `kind` was stored at `path`.
    pub fn set_local_path(&mut self, kind: LinkType, path: String)
        ensures
            final(self)@ == with_local_path(old(self)@, kind, path@),
    {
        match kind {
            LinkType::BackgroundImage => {
                self.background_image.local_path = Some(path);
            },
            LinkType::NavigationIcon => {
                self.navigation_icon.local_path = Some(path);
            },
            LinkType::GameArchiveLink => {
                self.game_archive.link.local_path = Some(path);
                self.game_archive.need_update = false;
            },
        }
    }
}

} // verus!
