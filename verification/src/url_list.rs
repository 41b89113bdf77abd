//! The list of the URLs of a configuration's files.

use vstd::prelude::*;

use crate::app::{is_exit, is_prev, Action};
use crate::keybinds::{bind_views, KeyBind};
use crate::keys::{KeyCode, KeyEvent};
use crate::searchable_list::{
    cleared, list_binds, list_shows, list_steps, ListView, SearchableList,
};

verus! {

pub struct UrlList {
    list: SearchableList<String>,
}

impl UrlList {
    /// The list of URLs.
    pub closed spec fn list(&self) -> SearchableList<String> {
        self.list
    }

    pub open spec fn wf(&self) -> bool {
        self.list().wf()
    }

    /// `after` and `action` are what `key` makes of `before`: `q` and `h`
    /// outside search end the program and go back; any other key goes to the
    /// list, and nothing follows from it.
    pub open spec fn handles(before: Self, key: KeyEvent, after: Self, action: Option<Action>) -> bool {
        if key.code == KeyCode::Char('q') && !before.list().state().searching {
            is_exit(action) && after == before
        } else if key.code == KeyCode::Char('h') && !before.list().state().searching {
            is_prev(action) && after == before
        } else {
            list_steps(before.list(), key, after.list()) && action is None
        }
    }

    pub fn new(urls: Vec<String>) -> (page: Self)
        ensures
            page.wf(),
            page.list().items() == urls@,
            page.list().state() == cleared(urls@),
    {
        UrlList { list: SearchableList::new(urls) }
    }

    pub fn handle_key(&mut self, key: &KeyEvent) -> (action: Option<Action>)
        requires
            old(self).wf(),
        ensures
            final(self).wf(),
            Self::handles(*old(self), *key, *final(self), action),
    {
        if key.is_char('q') && !self.list.is_searching() {
            return Some(Action::Exit);
        }
        if key.is_char('h') && !self.list.is_searching() {
            return Some(Action::PrevPage);
        }
        let _ = self.list.handle_key(key);
        None
    }

    pub fn draw(&self, width: usize) -> (view: ListView)
        requires
            self.wf(),
        ensures
            list_shows(self.list(), width, view),
    {
        self.list.draw(width)
    }

    pub fn keybinds(&self) -> (binds: Vec<KeyBind>)
        ensures
            bind_views(binds@) == list_binds(self.list().state().searching, true),
    {
        self.list.keybinds(true)
    }
}

} // verus!
