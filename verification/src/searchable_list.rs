//! A selection list with an incremental, case-insensitive substring filter.

use vstd::prelude::*;

use crate::keybinds::{bind_views, three_keys, two_keys, KeyBind};
use crate::keys::{KeyCode, KeyEvent};
use crate::text::{
    contains, is_substring, lowercase_of, owned, pop_char, push_char, text_matches, to_lowercase,
    views_of,
};

verus! {

/// The room that the highlight marker takes in front of every row.
pub const HL_WIDTH: usize = 3;

/// What a list needs of its items: text to filter by, and rows to show.
pub trait SearchableItem {
    /// The text that a search query is matched against.
    spec fn filter_text(&self) -> Seq<char>;

    /// The rows that show this item in `width` columns.
    spec fn rows(&self, width: usize) -> Seq<Seq<char>>;

    fn to_list_item(&self, width: usize) -> (lines: Vec<String>)
        ensures
            views_of(lines@) == self.rows(width),
    ;

    fn to_filter(&self) -> (text: String)
        ensures
            text@ == self.filter_text(),
    ;
}

/// What a list's user can change: the query, the mode and the cursor.
pub struct ListState {
    pub query: Seq<char>,
    pub searching: bool,
    /// A position in the visible set, not in the collection.
    pub cursor: Option<usize>,
}

/// The positions of the first `n` items whose filter text matches `query`, in
/// order.
pub open spec fn matching<T: SearchableItem>(items: Seq<T>, query: Seq<char>, n: nat) -> Seq<usize>
    decreases n,
{
    if n == 0 {
        Seq::empty()
    } else {
        let before = matching(items, query, (n - 1) as nat);
        if text_matches(items[n - 1].filter_text(), query) {
            before.push((n - 1) as usize)
        } else {
            before
        }
    }
}

/// The positions of the items on show: all of them under an empty query, the
/// matching ones otherwise.
pub open spec fn visible_indices<T: SearchableItem>(items: Seq<T>, query: Seq<char>) -> Seq<usize> {
    if query.len() == 0 {
        Seq::new(items.len(), |i: int| i as usize)
    } else {
        matching(items, query, items.len())
    }
}

/// The cursor on the first row of a view of `len` rows, or none if it is
/// empty.
pub open spec fn top_of(len: nat) -> Option<usize> {
    if len > 0 {
        Some(0usize)
    } else {
        None
    }
}

/// The state after search is abandoned: no query, the cursor on the first
/// item.
pub open spec fn cleared<T: SearchableItem>(items: Seq<T>) -> ListState {
    ListState { query: Seq::empty(), searching: false, cursor: top_of(items.len()) }
}

/// The state that follows `s` when `key` arrives.
pub open spec fn next_state<T: SearchableItem>(
    items: Seq<T>,
    s: ListState,
    key: KeyEvent,
) -> ListState {
    if s.searching {
        match key.code {
            KeyCode::Char(c) => if c == 'c' && key.ctrl {
                cleared(items)
            } else {
                ListState { query: s.query.push(c), ..s }
            },
            KeyCode::Esc => cleared(items),
            KeyCode::Enter => ListState {
                searching: false,
                cursor: top_of(visible_indices(items, s.query).len()),
                ..s
            },
            KeyCode::Backspace => if s.query.len() > 0 {
                ListState { query: s.query.drop_last(), ..s }
            } else {
                s
            },
            _ => s,
        }
    } else {
        let len = visible_indices(items, s.query).len();
        match key.code {
            KeyCode::Char(c) => if c == '/' {
                ListState { searching: true, cursor: None, ..s }
            } else if c == 'j' {
                ListState { cursor: moved_down(s.cursor, len), ..s }
            } else if c == 'k' {
                ListState { cursor: moved_up(s.cursor), ..s }
            } else {
                s
            },
            KeyCode::Down => ListState { cursor: moved_down(s.cursor, len), ..s },
            KeyCode::Up => ListState { cursor: moved_up(s.cursor), ..s },
            _ => s,
        }
    }
}

/// One row down, staying on the last row of a view of `len` rows.
pub open spec fn moved_down(cursor: Option<usize>, len: nat) -> Option<usize> {
    match cursor {
        Some(i) => if i + 1 < len {
            Some((i + 1) as usize)
        } else {
            cursor
        },
        None => None,
    }
}

/// One row up, staying on the first row.
pub open spec fn moved_up(cursor: Option<usize>) -> Option<usize> {
    match cursor {
        Some(i) => if i > 0 {
            Some((i - 1) as usize)
        } else {
            cursor
        },
        None => None,
    }
}

/// Whether `key` confirms the selection outside search mode.
pub open spec fn is_confirm(key: KeyEvent) -> bool {
    key.code == KeyCode::Char('l') || key.code == KeyCode::Right || key.code == KeyCode::Enter
}

/// The position, in the collection, of the item that `key` confirms in state
/// `s`, if it confirms one.
pub open spec fn confirmed<T: SearchableItem>(items: Seq<T>, s: ListState, key: KeyEvent) -> Option<
    usize,
> {
    let visible = visible_indices(items, s.query);
    match s.cursor {
        Some(i) => if !s.searching && is_confirm(key) && i < visible.len() {
            Some(visible[i as int])
        } else {
            None
        },
        None => None,
    }
}

/// `after` is the list that `before` becomes when `key` arrives.
pub open spec fn list_steps<T: SearchableItem>(
    before: SearchableList<T>,
    key: KeyEvent,
    after: SearchableList<T>,
) -> bool {
    &&& after.wf()
    &&& after.items() == before.items()
    &&& after.state() == next_state(before.items(), before.state(), key)
}

/// The position of the item that `key` confirms in `list`, if it confirms
/// one.
pub open spec fn list_confirms<T: SearchableItem>(list: SearchableList<T>, key: KeyEvent) -> Option<
    usize,
> {
    confirmed(list.items(), list.state(), key)
}

/// The text of the search line in state `s`.
pub open spec fn search_line(s: ListState) -> Seq<char> {
    if s.searching {
        s.query.push('\u{2588}')
    } else if s.query.len() == 0 {
        "Press / to search"@
    } else {
        s.query
    }
}

/// What a list shows: the search line and one entry of rows per visible item.
pub struct ListView {
    pub search_text: String,
    /// The search line is shown dimmed while search is not active.
    pub search_dimmed: bool,
    pub entries: Vec<Vec<String>>,
    /// The position of the highlighted entry.
    pub selected: Option<usize>,
}

pub struct SearchableList<T: SearchableItem> {
    items: Vec<T>,
    curr_item_indices: Vec<usize>,
    selected: Option<usize>,
    searching: bool,
    search_query: String,
}

impl<T: SearchableItem> SearchableList<T> {
    /// The collection, in insertion order.
    pub closed spec fn items(&self) -> Seq<T> {
        self.items@
    }

    /// The query, the mode and the cursor.
    pub closed spec fn state(&self) -> ListState {
        ListState { query: self.search_query@, searching: self.searching, cursor: self.selected }
    }

    /// The positions, in the collection, of the items on show.
    pub open spec fn visible(&self) -> Seq<usize> {
        visible_indices(self.items(), self.state().query)
    }

    /// The filtered positions are those that match the query; the cursor is
    /// unset in search mode and on an empty view, and inside the view
    /// otherwise.
    pub closed spec fn wf(&self) -> bool {
        &&& self.search_query@.len() == 0 ==> self.curr_item_indices@.len() == 0
        &&& self.search_query@.len() > 0 ==> self.curr_item_indices@ == matching(
            self.items@,
            self.search_query@,
            self.items@.len(),
        )
        &&& cursor_fits(self.state(), self.visible().len())
    }

    pub fn new(items: Vec<T>) -> (list: Self)
        ensures
            list.wf(),
            list.items() == items@,
            list.state() == cleared(items@),
    {
        let selected = if items.len() > 0 {
            Some(0usize)
        } else {
            None
        };
        SearchableList {
            items,
            curr_item_indices: Vec::new(),
            selected,
            searching: false,
            search_query: String::new(),
        }
    }

    pub fn is_searching(&self) -> (searching: bool)
        ensures
            searching == self.state().searching,
    {
        self.searching
    }

    /// The number of items on show.
    fn visible_len(&self) -> (len: usize)
        requires
            self.wf(),
        ensures
            len == self.visible().len(),
    {
        if self.search_query.as_str().is_empty() {
            self.items.len()
        } else {
            self.curr_item_indices.len()
        }
    }

    fn update_items(&mut self)
        ensures
            final(self).items@ == old(self).items@,
            final(self).search_query@ == old(self).search_query@,
            final(self).searching == old(self).searching,
            final(self).selected == old(self).selected,
            final(self).search_query@.len() == 0 ==> final(self).curr_item_indices@.len() == 0,
            final(self).search_query@.len() > 0 ==> final(self).curr_item_indices@ == matching(
                final(self).items@,
                final(self).search_query@,
                final(self).items@.len(),
            ),
    {
        let mut found: Vec<usize> = Vec::new();
        if !self.search_query.as_str().is_empty() {
            let query = to_lowercase(self.search_query.as_str());
            let mut i: usize = 0;
            while i < self.items.len()
                invariant
                    i <= self.items@.len(),
                    query@ == lowercase_of(self.search_query@),
                    found@ == matching(self.items@, self.search_query@, i as nat),
                decreases self.items@.len() - i,
            {
                let text = to_lowercase(self.items[i].to_filter().as_str());
                if contains(text.as_str(), query.as_str()) {
                    found.push(i);
                }
                i += 1;
            }
        }
        self.curr_item_indices = found;
    }

    fn enter_search(&mut self)
        requires
            old(self).wf(),
        ensures
            final(self).wf(),
            final(self).items() == old(self).items(),
            final(self).state() == (ListState { searching: true, cursor: None, ..old(self).state() }),
    {
        self.searching = true;
        self.selected = None;
    }

    fn exit_search(&mut self)
        requires
            old(self).wf(),
        ensures
            final(self).wf(),
            final(self).items() == old(self).items(),
            final(self).state() == cleared(old(self).items()),
    {
        self.searching = false;
        self.search_query = String::new();
        self.curr_item_indices = Vec::new();
        self.selected = if self.items.len() > 0 {
            Some(0usize)
        } else {
            None
        };
    }

    fn select_next(&mut self)
        requires
            old(self).wf(),
            !old(self).state().searching,
        ensures
            final(self).wf(),
            final(self).items() == old(self).items(),
            final(self).state() == (ListState {
                cursor: moved_down(old(self).state().cursor, old(self).visible().len()),
                ..old(self).state()
            }),
    {
        let len = self.visible_len();
        match self.selected {
            Some(i) => {
                if i < len - 1 {
                    self.selected = Some(i + 1);
                }
            },
            None => {},
        }
    }

    fn select_prev(&mut self)
        requires
            old(self).wf(),
            !old(self).state().searching,
        ensures
            final(self).wf(),
            final(self).items() == old(self).items(),
            final(self).state() == (ListState {
                cursor: moved_up(old(self).state().cursor),
                ..old(self).state()
            }),
    {
        match self.selected {
            Some(i) => {
                if i > 0 {
                    self.selected = Some(i - 1);
                }
            },
            None => {},
        }
    }

    /// The position, in the collection, of the item under the cursor.
    fn selected_index(&self) -> (index: Option<usize>)
        requires
            self.wf(),
        ensures
            index == match self.state().cursor {
                Some(i) => Some(self.visible()[i as int]),
                None => None,
            },
            index is Some ==> index.unwrap() < self.items().len(),
    {
        let total: usize = self.items.len();
        proof {
            lemma_matching_bounds(self.items@, self.search_query@, total as nat);
        }
        match self.selected {
            Some(i) => if self.search_query.as_str().is_empty() {
                Some(i)
            } else {
                Some(self.curr_item_indices[i])
            },
            None => None,
        }
    }

    /// Handles one key. Returns the item that the key confirmed, if any.
    pub fn handle_key(&mut self, key: &KeyEvent) -> (chosen: Option<&T>)
        requires
            old(self).wf(),
        ensures
            final(self).wf(),
            final(self).items() == old(self).items(),
            final(self).state() == next_state(old(self).items(), old(self).state(), *key),
            match confirmed(old(self).items(), old(self).state(), *key) {
                Some(i) => i < old(self).items().len() && chosen == Some(&old(self).items()[i as int]),
                None => chosen is None,
            },
    {
        if self.searching {
            match key.code {
                KeyCode::Char(c) => {
                    if c == 'c' && key.ctrl {
                        self.exit_search();
                    } else {
                        push_char(&mut self.search_query, c);
                        self.update_items();
                    }
                },
                KeyCode::Esc => self.exit_search(),
                KeyCode::Enter => {
                    let len = self.visible_len();
                    self.searching = false;
                    self.selected = if len > 0 {
                        Some(0usize)
                    } else {
                        None
                    };
                },
                KeyCode::Backspace => {
                    let _ = pop_char(&mut self.search_query);
                    self.update_items();
                },
                _ => {},
            }
            None
        } else {
            match key.code {
                KeyCode::Char(c) => {
                    if c == '/' {
                        self.enter_search();
                    } else if c == 'l' {
                        return self.confirm();
                    } else if c == 'j' {
                        self.select_next();
                    } else if c == 'k' {
                        self.select_prev();
                    }
                },
                KeyCode::Right | KeyCode::Enter => {
                    return self.confirm();
                },
                KeyCode::Down => self.select_next(),
                KeyCode::Up => self.select_prev(),
                _ => {},
            }
            None
        }
    }

    /// What the list shows in `width` columns: the search line, shown dimmed
    /// unless search is active, and the visible items with the cursor.
    pub fn draw(&self, width: usize) -> (view: ListView)
        requires
            self.wf(),
        ensures
            list_shows(*self, width, view),
    {
        let search_text = if self.searching {
            let mut text = self.search_query.clone();
            push_char(&mut text, '\u{2588}');
            text
        } else if self.search_query.as_str().is_empty() {
            owned("Press / to search")
        } else {
            self.search_query.clone()
        };
        let inner: usize = if width >= HL_WIDTH {
            width - HL_WIDTH
        } else {
            0
        };
        let total: usize = self.items.len();
        proof {
            lemma_matching_bounds(self.items@, self.search_query@, total as nat);
        }
        let filtered = !self.search_query.as_str().is_empty();
        let len = self.visible_len();
        let mut entries: Vec<Vec<String>> = Vec::new();
        let mut k: usize = 0;
        while k < len
            invariant
                self.wf(),
                k <= len,
                len == self.visible().len(),
                filtered == (self.search_query@.len() > 0),
                inner == item_width(width),
                forall|j: int| 0 <= j < len ==> (#[trigger] self.visible()[j]) < self.items@.len(),
                entries_view(entries@) == Seq::new(
                    k as nat,
                    |j: int| self.items@[self.visible()[j] as int].rows(inner),
                ),
            decreases len - k,
        {
            let index = if filtered {
                self.curr_item_indices[k]
            } else {
                k
            };
            let ghost before = entries@;
            let rows = self.items[index].to_list_item(inner);
            entries.push(rows);
            assert(entries_view(entries@) =~= entries_view(before).push(views_of(rows@)));
            k += 1;
            assert(entries_view(entries@) =~= Seq::new(
                k as nat,
                |j: int| self.items@[self.visible()[j] as int].rows(inner),
            ));
        }
        if len == 0 {
            let mut rows: Vec<String> = Vec::new();
            rows.push(owned("Nothing to see here"));
            assert(views_of(rows@) =~= seq!["Nothing to see here"@]);
            entries.push(rows);
            assert(entries_view(entries@) =~= seq![seq!["Nothing to see here"@]]);
        }
        ListView { search_text, search_dimmed: !self.searching, entries, selected: self.selected }
    }

    /// The key bindings of the list, for a page that has a previous page or
    /// has none.
    pub fn keybinds(&self, has_prev: bool) -> (binds: Vec<KeyBind>)
        ensures
            bind_views(binds@) == list_binds(self.state().searching, has_prev),
    {
        let mut binds: Vec<KeyBind> = Vec::new();
        if self.is_searching() {
            binds.push(KeyBind::single_key("Ctrl+C", "Finish search"));
            binds.push(two_keys("Esc", "Enter", "Exit search"));
            binds.push(KeyBind::single_key("Backspace", "Remove last character"));
            assert(bind_views(binds@) =~= search_binds());
        } else {
            binds.push(KeyBind::single_key("/", "Enter Search"));
            binds.push(three_keys("l", "Right", "Enter", "Select current item"));
            binds.push(two_keys("j", "Down", "Select next item"));
            binds.push(two_keys("k", "Up", "Select previous item"));
            binds.push(KeyBind::single_key("q", "Exit"));
            if has_prev {
                binds.push(KeyBind::single_key("h", "Previous page"));
            }
            assert(bind_views(binds@) =~= browse_binds(has_prev));
        }
        binds
    }

    /// The item under the cursor.
    fn confirm(&self) -> (chosen: Option<&T>)
        requires
            self.wf(),
        ensures
            match self.state().cursor {
                Some(i) => i < self.visible().len() && self.visible()[i as int] < self.items().len()
                    && chosen == Some(&self.items()[self.visible()[i as int] as int]),
                None => chosen is None,
            },
    {
        match self.selected_index() {
            Some(i) => Some(&self.items[i]),
            None => None,
        }
    }
}

/// The key bindings of a list in search mode.
pub open spec fn search_binds() -> Seq<(Seq<&'static str>, &'static str)> {
    seq![
        (seq!["Ctrl+C"], "Finish search"),
        (seq!["Esc", "Enter"], "Exit search"),
        (seq!["Backspace"], "Remove last character"),
    ]
}

/// The key bindings of a list outside search mode, on a page that has a
/// previous page or has none.
pub open spec fn browse_binds(has_prev: bool) -> Seq<(Seq<&'static str>, &'static str)> {
    let binds = seq![
        (seq!["/"], "Enter Search"),
        (seq!["l", "Right", "Enter"], "Select current item"),
        (seq!["j", "Down"], "Select next item"),
        (seq!["k", "Up"], "Select previous item"),
        (seq!["q"], "Exit"),
    ];
    if has_prev {
        binds.push((seq!["h"], "Previous page"))
    } else {
        binds
    }
}

/// The key bindings of a list in either mode.
pub open spec fn list_binds(searching: bool, has_prev: bool) -> Seq<(Seq<&'static str>, &'static str)> {
    if searching {
        search_binds()
    } else {
        browse_binds(has_prev)
    }
}

/// `view` is what `list` shows in `width` columns.
pub open spec fn list_shows<T: SearchableItem>(
    list: SearchableList<T>,
    width: usize,
    view: ListView,
) -> bool {
    &&& view.search_text@ == search_line(list.state())
    &&& view.search_dimmed == !list.state().searching
    &&& entries_view(view.entries@) == shown_entries(list.items(), list.visible(), width)
    &&& view.selected == list.state().cursor
}

/// The rows of each entry of a view, entry by entry.
pub open spec fn entries_view(entries: Seq<Vec<String>>) -> Seq<Seq<Seq<char>>> {
    entries.map_values(|e: Vec<String>| views_of(e@))
}

/// The entries that a list shows in `width` columns: the rows of the visible
/// items, in order, or one placeholder where nothing is visible.
pub open spec fn shown_entries<T: SearchableItem>(
    items: Seq<T>,
    visible: Seq<usize>,
    width: usize,
) -> Seq<Seq<Seq<char>>> {
    if visible.len() == 0 {
        seq![seq!["Nothing to see here"@]]
    } else {
        Seq::new(visible.len(), |k: int| items[visible[k] as int].rows(item_width(width)))
    }
}

/// The columns left for an item once the highlight marker has its room.
pub open spec fn item_width(width: usize) -> usize {
    if width >= HL_WIDTH {
        (width - HL_WIDTH) as usize
    } else {
        0
    }
}

/// The cursor is unset in search mode and on an empty view; otherwise it is
/// set and inside a view of `len` rows.
pub open spec fn cursor_fits(s: ListState, len: nat) -> bool {
    match s.cursor {
        Some(i) => !s.searching && i < len,
        None => s.searching || len == 0,
    }
}

/// Under an empty query every item is on show, in the order of the
/// collection.
pub proof fn lemma_empty_query_shows_all<T: SearchableItem>(list: SearchableList<T>)
    requires
        list.wf(),
        list.items().len() > 0,
        list.state().query.len() == 0,
    ensures
        list.visible().len() == list.items().len(),
        forall|i: int| 0 <= i < list.items().len() ==> #[trigger] list.visible()[i] == i,
{
    assert(list.items@.len() == list.items.len());
}

/// An item is among the first `n` matching ones exactly if it is among the
/// first `n` items and its filter text matches the query.
pub proof fn lemma_matching_is_exact<T: SearchableItem>(
    items: Seq<T>,
    query: Seq<char>,
    n: nat,
    i: int,
)
    requires
        n <= items.len(),
        items.len() <= usize::MAX,
        0 <= i < items.len(),
    ensures
        matching(items, query, n).contains(i as usize) <==> i < n && text_matches(
            items[i].filter_text(),
            query,
        ),
    decreases n,
{
    if n > 0 {
        let before = matching(items, query, (n - 1) as nat);
        let now = matching(items, query, n);
        lemma_matching_is_exact(items, query, (n - 1) as nat, i);
        lemma_matching_bounds(items, query, (n - 1) as nat);
        if text_matches(items[n - 1].filter_text(), query) {
            assert(now == before.push((n - 1) as usize));
            assert(now[now.len() - 1] == (n - 1) as usize);
            if before.contains(i as usize) {
                let k = choose|k: int| 0 <= k < before.len() && before[k] == i as usize;
                assert(now[k] == i as usize);
            }
            if now.contains(i as usize) && i != n - 1 {
                let k = choose|k: int| 0 <= k < now.len() && now[k] == i as usize;
                assert(before[k] == i as usize);
            }
        }
    }
}

/// Under a query that is not empty, an item is on show exactly if the
/// lower-case form of its filter text contains the lower-case form of the
/// query.
pub proof fn lemma_filter_is_exact<T: SearchableItem>(list: SearchableList<T>, i: int)
    requires
        list.wf(),
        list.state().query.len() > 0,
        0 <= i < list.items().len(),
    ensures
        list.visible().contains(i as usize) <==> is_substring(
            lowercase_of(list.state().query),
            lowercase_of(list.items()[i].filter_text()),
        ),
{
    assert(list.items@.len() == list.items.len());
    lemma_matching_is_exact(list.items(), list.state().query, list.items().len(), i);
}

/// The cursor of a list is unset or inside the visible set, and unset where
/// nothing is visible.
pub proof fn lemma_cursor_in_bounds<T: SearchableItem>(list: SearchableList<T>)
    requires
        list.wf(),
    ensures
        cursor_fits(list.state(), list.visible().len()),
        list.visible().len() == 0 ==> list.state().cursor is None,
{
}

/// A key never moves the cursor out of the visible set: on the last row,
/// moving down changes nothing; on the first row, moving up changes nothing;
/// and whatever the key, the cursor fits the view that follows.
pub proof fn lemma_cursor_stays_in_bounds<T: SearchableItem>(
    items: Seq<T>,
    s: ListState,
    key: KeyEvent,
)
    requires
        cursor_fits(s, visible_indices(items, s.query).len()),
    ensures
        cursor_fits(
            next_state(items, s, key),
            visible_indices(items, next_state(items, s, key).query).len(),
        ),
        forall|last: usize| #[trigger] moved_down(Some(last), (last + 1) as nat) == Some(last),
        moved_up(Some(0usize)) == Some(0usize),
{
}

/// Where nothing is visible, no key confirms anything.
pub proof fn lemma_nothing_to_confirm<T: SearchableItem>(items: Seq<T>, s: ListState, key: KeyEvent)
    requires
        visible_indices(items, s.query).len() == 0,
    ensures
        confirmed(items, s, key) is None,
{
}

/// Matching positions are positions of the collection, in increasing order.
pub proof fn lemma_matching_bounds<T: SearchableItem>(items: Seq<T>, query: Seq<char>, n: nat)
    requires
        n <= items.len(),
        n <= usize::MAX,
    ensures
        matching(items, query, n).len() <= n,
        forall|k: int|
            0 <= k < matching(items, query, n).len() ==> #[trigger] matching(items, query, n)[k]
                < n,
        forall|j: int, k: int|
            #![trigger matching(items, query, n)[j], matching(items, query, n)[k]]
            0 <= j < k < matching(items, query, n).len() ==> matching(items, query, n)[j]
                < matching(items, query, n)[k],
    decreases n,
{
    if n > 0 {
        lemma_matching_bounds(items, query, (n - 1) as nat);
    }
}

} // verus!
