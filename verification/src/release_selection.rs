//! The choice of a release among the configurations of an operating system.

use vstd::prelude::*;

use crate::app::{is_exit, is_prev, opens, Action, Page, Seed};
use crate::catalog::{config_views, kept, lemma_kept_is_filter, Config, ConfigView};
use crate::download_options::DownloadOptions;
use crate::edition_selection::EditionSelection;
use crate::keybinds::{bind_views, KeyBind};
use crate::keys::{KeyCode, KeyEvent};
use crate::searchable_list::{
    cleared, list_binds, list_confirms, list_shows, list_steps, ListView, SearchableItem,
    SearchableList,
};
use crate::text::views_of;

verus! {

impl SearchableItem for String {
    open spec fn filter_text(&self) -> Seq<char> {
        self@
    }

    open spec fn rows(&self, width: usize) -> Seq<Seq<char>> {
        seq![self@]
    }

    fn to_list_item(&self, width: usize) -> (lines: Vec<String>) {
        let mut lines: Vec<String> = Vec::new();
        lines.push(self.clone());
        assert(views_of(lines@) =~= seq![self@]);
        lines
    }

    fn to_filter(&self) -> (text: String) {
        self.clone()
    }
}

/// The texts of `texts` without repetition, each where it first occurs.
pub open spec fn distinct(texts: Seq<Seq<char>>) -> Seq<Seq<char>>
    decreases texts.len(),
{
    if texts.len() == 0 {
        Seq::empty()
    } else {
        let before = distinct(texts.drop_last());
        if before.contains(texts.last()) {
            before
        } else {
            before.push(texts.last())
        }
    }
}

/// Calls `Itertools::unique` on the texts in order and collects what it
/// yields: every text once, in the order in which each is first seen.
#[verifier::external_body]
fn unique(texts: Vec<String>) -> (once: Vec<String>)
    ensures
        views_of(once@) == distinct(views_of(texts@)),
{
    itertools::Itertools::unique(texts.into_iter()).collect()
}

/// The release labels of the configurations, in order.
pub open spec fn release_labels(configs: Seq<ConfigView>) -> Seq<Seq<char>> {
    configs.map_values(|c: ConfigView| c.release)
}

/// The configurations of a release.
pub open spec fn of_release(release: Seq<char>) -> spec_fn(ConfigView) -> bool {
    |config: ConfigView| config.release == release
}

/// The page that a release opens: the download options of its configuration
/// if it has exactly one, else the choice among its editions.
pub open spec fn release_opens(configs: Seq<ConfigView>, release: Seq<char>) -> Seed {
    let remaining = configs.filter(of_release(release));
    if remaining.len() == 1 {
        Seed::Options(remaining[0])
    } else {
        Seed::Edition(remaining)
    }
}

pub struct ReleaseSelection {
    configs: Vec<Config>,
    list: SearchableList<String>,
}

impl ReleaseSelection {
    /// The configurations to choose among.
    pub closed spec fn configs(&self) -> Seq<ConfigView> {
        config_views(self.configs@)
    }

    /// The list of release labels.
    pub closed spec fn list(&self) -> SearchableList<String> {
        self.list
    }

    pub open spec fn wf(&self) -> bool {
        self.list().wf()
    }

    /// `after` and `action` are what `key` makes of `before`: `q` and `h`
    /// outside search end the program and go back; any other key goes to the
    /// list, and a confirmed release opens the next page.
    pub open spec fn handles(before: Self, key: KeyEvent, after: Self, action: Option<Action>) -> bool {
        if key.code == KeyCode::Char('q') && !before.list().state().searching {
            is_exit(action) && after == before
        } else if key.code == KeyCode::Char('h') && !before.list().state().searching {
            is_prev(action) && after == before
        } else {
            &&& after.configs() == before.configs()
            &&& list_steps(before.list(), key, after.list())
            &&& match list_confirms(before.list(), key) {
                Some(i) => i < before.list().items().len() && opens(
                    action,
                    release_opens(before.configs(), before.list().items()[i as int]@),
                ),
                None => action is None,
            }
        }
    }

    pub fn new(configs: Vec<Config>) -> (page: Self)
        ensures
            page.wf(),
            page.configs() == config_views(configs@),
            views_of(page.list().items()) == distinct(release_labels(config_views(configs@))),
            page.list().state() == cleared(page.list().items()),
    {
        let mut labels: Vec<String> = Vec::new();
        let mut i: usize = 0;
        while i < configs.len()
            invariant
                i <= configs@.len(),
                views_of(labels@) == release_labels(config_views(configs@)).subrange(0, i as int),
            decreases configs@.len() - i,
        {
            let ghost before = labels@;
            let label = configs[i].release.clone();
            labels.push(label);
            assert(views_of(labels@) =~= views_of(before).push(label@));
            i += 1;
            assert(views_of(labels@) =~= release_labels(config_views(configs@)).subrange(
                0,
                i as int,
            ));
        }
        assert(release_labels(config_views(configs@)).subrange(0, i as int) =~= release_labels(
            config_views(configs@),
        ));
        ReleaseSelection { configs, list: SearchableList::new(unique(labels)) }
    }

    pub fn handle_key(&mut self, key: &KeyEvent) -> (action: Option<Action>)
        requires
            old(self).wf(),
        ensures
            final(self).wf(),
            Self::handles(*old(self), *key, *final(self), action),
    {
        if key.is_char('q') && !self.list.is_searching() {
            return Some(Action::Exit);
        }
        if key.is_char('h') && !self.list.is_searching() {
            return Some(Action::PrevPage);
        }
        match self.list.handle_key(key) {
            Some(release) => {
                let mut remaining = configs_of_release(&self.configs, release);
                if remaining.len() == 1 {
                    let config = remaining.pop().unwrap();
                    Some(Action::NextPage(Page::DownloadOptions(DownloadOptions::new(config))))
                } else {
                    Some(Action::NextPage(Page::EditionSelection(EditionSelection::new(remaining))))
                }
            },
            None => None,
        }
    }

    pub fn draw(&self, width: usize) -> (view: ListView)
        requires
            self.wf(),
        ensures
            list_shows(self.list(), width, view),
    {
        self.list.draw(width)
    }

    pub fn keybinds(&self) -> (binds: Vec<KeyBind>)
        ensures
            bind_views(binds@) == list_binds(self.list().state().searching, true),
    {
        self.list.keybinds(true)
    }
}

/// Copies of the configurations whose release is `release`, in order.
pub fn configs_of_release(configs: &Vec<Config>, release: &String) -> (remaining: Vec<Config>)
    ensures
        config_views(remaining@) == config_views(configs@).filter(of_release(release@)),
{
    let mut remaining: Vec<Config> = Vec::new();
    let mut i: usize = 0;
    while i < configs.len()
        invariant
            i <= configs@.len(),
            config_views(remaining@) == kept(
                config_views(configs@),
                of_release(release@),
                i as nat,
            ),
        decreases configs@.len() - i,
    {
        let config = &configs[i];
        assert(config_views(configs@)[i as int] == config@);
        if config.release == *release {
            let ghost before = remaining@;
            let copy = config.clone();
            remaining.push(copy);
            assert(config_views(remaining@) =~= config_views(before).push(copy@));
        }
        i += 1;
    }
    proof {
        lemma_kept_is_filter(config_views(configs@), of_release(release@), i as nat);
    }
    remaining
}

} // verus!
