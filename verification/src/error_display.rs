//! The page that lists what went wrong.

use vstd::prelude::*;

use crate::app::{is_exit, Action};
use crate::keybinds::{bind_views, KeyBind};
use crate::keys::{KeyCode, KeyEvent};
use crate::text::{owned, views_of};

verus! {

pub struct ErrorDisplay {
    errors: Vec<String>,
}

impl ErrorDisplay {
    /// The messages shown, in order.
    pub closed spec fn errors(&self) -> Seq<Seq<char>> {
        views_of(self.errors@)
    }

    pub fn new(errors: Vec<String>) -> (page: Self)
        ensures
            page.errors() == views_of(errors@),
    {
        ErrorDisplay { errors }
    }

    /// Any key ends the program; the tick does nothing.
    pub fn handle_key(&mut self, key: &KeyEvent) -> (action: Option<Action>)
        ensures
            final(self).errors() == old(self).errors(),
            key.code == KeyCode::Null ==> action is None,
            key.code != KeyCode::Null ==> is_exit(action),
    {
        if key.is_null() {
            None
        } else {
            Some(Action::Exit)
        }
    }

    /// The lines to show, centred: a heading, every message, an empty line
    /// and the prompt.
    pub fn draw(&self) -> (lines: Vec<String>)
        ensures
            views_of(lines@) == seq!["Error:"@] + self.errors() + seq![
                Seq::<char>::empty(),
                "Press any key to exit."@,
            ],
    {
        let mut lines: Vec<String> = Vec::new();
        lines.push(owned("Error:"));
        assert(views_of(lines@) =~= seq!["Error:"@]);
        let mut i: usize = 0;
        while i < self.errors.len()
            invariant
                i <= self.errors@.len(),
                views_of(lines@) == seq!["Error:"@] + self.errors().subrange(0, i as int),
            decreases self.errors@.len() - i,
        {
            let ghost before = lines@;
            let line = self.errors[i].clone();
            lines.push(line);
            assert(views_of(lines@) =~= views_of(before).push(line@));
            i += 1;
            assert(views_of(lines@) =~= seq!["Error:"@] + self.errors().subrange(0, i as int));
        }
        assert(self.errors().subrange(0, i as int) =~= self.errors());
        let ghost before = lines@;
        lines.push(String::new());
        lines.push(owned("Press any key to exit."));
        assert(views_of(lines@) =~= views_of(before) + seq![
            Seq::<char>::empty(),
            "Press any key to exit."@,
        ]);
        lines
    }

    pub fn keybinds(&self) -> (binds: Vec<KeyBind>)
        ensures
            bind_views(binds@) == seq![(seq!["Any key"], "Exit")],
    {
        let mut binds: Vec<KeyBind> = Vec::new();
        binds.push(KeyBind::single_key("Any key", "Exit"));
        assert(bind_views(binds@) =~= seq![(seq!["Any key"], "Exit")]);
        binds
    }
}

} // verus!
