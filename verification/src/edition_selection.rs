//! The choice of an edition among the configurations of a release.

use vstd::prelude::*;

use crate::app::{is_exit, is_prev, opens, Action, Page, Seed};
use crate::catalog::{Config, ConfigView};
use crate::download_options::DownloadOptions;
use crate::keybinds::{bind_views, KeyBind};
use crate::keys::{KeyCode, KeyEvent};
use crate::searchable_list::{
    cleared, list_binds, list_confirms, list_shows, list_steps, ListView, SearchableItem,
    SearchableList,
};
use crate::text::{owned, views_of};

verus! {

/// The label of a configuration's edition; `None` in words where it has none.
pub open spec fn edition_label(config: ConfigView) -> Seq<char> {
    match config.edition {
        Some(edition) => edition,
        None => "None"@,
    }
}

impl SearchableItem for Config {
    open spec fn filter_text(&self) -> Seq<char> {
        edition_label(self@)
    }

    open spec fn rows(&self, width: usize) -> Seq<Seq<char>> {
        seq![edition_label(self@)]
    }

    fn to_list_item(&self, width: usize) -> (lines: Vec<String>) {
        let mut lines: Vec<String> = Vec::new();
        lines.push(self.to_filter());
        assert(views_of(lines@) =~= seq![edition_label(self@)]);
        lines
    }

    fn to_filter(&self) -> (text: String) {
        match &self.edition {
            Some(edition) => edition.clone(),
            None => owned("None"),
        }
    }
}

pub struct EditionSelection {
    list: SearchableList<Config>,
}

impl EditionSelection {
    /// The list of configurations, shown by their editions.
    pub closed spec fn list(&self) -> SearchableList<Config> {
        self.list
    }

    pub open spec fn wf(&self) -> bool {
        self.list().wf()
    }

    /// `after` and `action` are what `key` makes of `before`: `q` and `h`
    /// outside search end the program and go back; any other key goes to the
    /// list, and a confirmed configuration opens its download options.
    pub open spec fn handles(before: Self, key: KeyEvent, after: Self, action: Option<Action>) -> bool {
        if key.code == KeyCode::Char('q') && !before.list().state().searching {
            is_exit(action) && after == before
        } else if key.code == KeyCode::Char('h') && !before.list().state().searching {
            is_prev(action) && after == before
        } else {
            &&& list_steps(before.list(), key, after.list())
            &&& match list_confirms(before.list(), key) {
                Some(i) => i < before.list().items().len() && opens(
                    action,
                    Seed::Options(before.list().items()[i as int]@),
                ),
                None => action is None,
            }
        }
    }

    pub fn new(list: Vec<Config>) -> (page: Self)
        ensures
            page.wf(),
            page.list().items() == list@,
            page.list().state() == cleared(list@),
    {
        EditionSelection { list: SearchableList::new(list) }
    }

    pub fn handle_key(&mut self, key: &KeyEvent) -> (action: Option<Action>)
        requires
            old(self).wf(),
        ensures
            final(self).wf(),
            Self::handles(*old(self), *key, *final(self), action),
    {
        if key.is_char('q') && !self.list.is_searching() {
            return Some(Action::Exit);
        }
        if key.is_char('h') && !self.list.is_searching() {
            return Some(Action::PrevPage);
        }
        match self.list.handle_key(key) {
            Some(config) => Some(
                Action::NextPage(Page::DownloadOptions(DownloadOptions::new(config.clone()))),
            ),
            None => None,
        }
    }

    pub fn draw(&self, width: usize) -> (view: ListView)
        requires
            self.wf(),
        ensures
            list_shows(self.list(), width, view),
    {
        self.list.draw(width)
    }

    pub fn keybinds(&self) -> (binds: Vec<KeyBind>)
        ensures
            bind_views(binds@) == list_binds(self.list().state().searching, true),
    {
        self.list.keybinds(true)
    }
}

} // verus!
