//! The first page: the choice of an architecture.

use vstd::prelude::*;

use crate::app::{is_exit, opens, Action, Page, Seed};
use crate::catalog::Arch;
use crate::keybinds::{bind_views, KeyBind};
use crate::keys::{KeyCode, KeyEvent};
use crate::os_selection::OSSelection;
use crate::searchable_list::{
    cleared, list_binds, list_confirms, list_shows, list_steps, ListView, SearchableItem,
    SearchableList,
};
use crate::text::views_of;

verus! {

impl SearchableItem for Arch {
    open spec fn filter_text(&self) -> Seq<char> {
        self.name()
    }

    open spec fn rows(&self, width: usize) -> Seq<Seq<char>> {
        seq![self.name()]
    }

    fn to_list_item(&self, width: usize) -> (lines: Vec<String>) {
        let mut lines: Vec<String> = Vec::new();
        lines.push(self.to_string());
        assert(views_of(lines@) =~= seq![self.name()]);
        lines
    }

    fn to_filter(&self) -> (text: String) {
        self.to_string()
    }
}

pub struct ArchSelection {
    list: SearchableList<Arch>,
}

impl ArchSelection {
    /// The list of architectures.
    pub closed spec fn list(&self) -> SearchableList<Arch> {
        self.list
    }

    pub open spec fn wf(&self) -> bool {
        self.list().wf()
    }

    /// `after` and `action` are what `key` makes of `before`: `q` outside
    /// search ends the program; any other key goes to the list, and a
    /// confirmed architecture opens the choice of an operating system.
    pub open spec fn handles(before: Self, key: KeyEvent, after: Self, action: Option<Action>) -> bool {
        if key.code == KeyCode::Char('q') && !before.list().state().searching {
            is_exit(action) && after == before
        } else {
            &&& list_steps(before.list(), key, after.list())
            &&& match list_confirms(before.list(), key) {
                Some(i) => i < before.list().items().len() && opens(
                    action,
                    Seed::OS(before.list().items()[i as int]),
                ),
                None => action is None,
            }
        }
    }

    pub fn new() -> (page: Self)
        ensures
            page.wf(),
            page.list().items() == seq![Arch::X86_64, Arch::AArch64, Arch::Riscv64],
            page.list().state() == cleared(page.list().items()),
    {
        ArchSelection { list: SearchableList::new(Arch::all()) }
    }

    pub fn handle_key(&mut self, key: &KeyEvent) -> (action: Option<Action>)
        requires
            old(self).wf(),
        ensures
            final(self).wf(),
            Self::handles(*old(self), *key, *final(self), action),
    {
        if key.is_char('q') && !self.list.is_searching() {
            return Some(Action::Exit);
        }
        match self.list.handle_key(key) {
            Some(arch) => Some(Action::NextPage(Page::OSSelection(OSSelection::new(*arch)))),
            None => None,
        }
    }

    pub fn draw(&self, width: usize) -> (view: ListView)
        requires
            self.wf(),
        ensures
            list_shows(self.list(), width, view),
    {
        self.list.draw(width)
    }

    pub fn keybinds(&self) -> (binds: Vec<KeyBind>)
        ensures
            bind_views(binds@) == list_binds(self.list().state().searching, false),
    {
        self.list.keybinds(false)
    }
}

} // verus!
