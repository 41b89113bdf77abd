//! The page that is shown when every download has finished.

use vstd::prelude::*;

use crate::app::{is_exit, Action};
use crate::keybinds::{bind_views, KeyBind};
use crate::keys::{KeyCode, KeyEvent};
use crate::text::owned;

verus! {

pub struct CompletePage {}

impl CompletePage {
    pub fn new() -> (page: Self) {
        CompletePage {  }
    }

    /// Any key ends the program; the tick does nothing.
    pub fn handle_key(&mut self, key: &KeyEvent) -> (action: Option<Action>)
        ensures
            key.code == KeyCode::Null ==> action is None,
            key.code != KeyCode::Null ==> is_exit(action),
    {
        if key.is_null() {
            None
        } else {
            Some(Action::Exit)
        }
    }

    /// The message to show, centred.
    pub fn draw(&self) -> (message: String)
        ensures
            message@ == "Complete! Press any key to exit."@,
    {
        owned("Complete! Press any key to exit.")
    }

    pub fn keybinds(&self) -> (binds: Vec<KeyBind>)
        ensures
            bind_views(binds@) == seq![(seq!["Any key"], "Exit")],
    {
        let mut binds: Vec<KeyBind> = Vec::new();
        binds.push(KeyBind::single_key("Any key", "Exit"));
        assert(bind_views(binds@) =~= seq![(seq!["Any key"], "Exit")]);
        binds
    }
}

} // verus!
