//! The choice of an operating system, once the catalog has arrived.

use vstd::prelude::*;

use crate::app::{is_exit, is_prev, opens, Action, Page, Seed};
use crate::catalog::{
    clone_configs, clone_text, config_views, kept, lemma_kept_is_filter, os_views, Arch, Catalog,
    Config, ConfigView,
    DiskImages, OSView, Source, OS,
};
use crate::error_display::ErrorDisplay;
use crate::keybinds::{bind_views, KeyBind};
use crate::keys::{KeyCode, KeyEvent};
use crate::release_selection::ReleaseSelection;
use crate::searchable_list::{
    cleared, list_binds, list_confirms, list_shows, list_steps, ListView, SearchableItem,
    SearchableList,
};
use crate::text::{chars_of, push_char, views_of};

verus! {

/// The position, counted from `from`, of the last space of `text` between
/// `from` and `to`.
pub open spec fn last_space(text: Seq<char>, from: int, to: int) -> Option<int>
    decreases to - from,
{
    if to <= from {
        None
    } else if text[to - 1] == ' ' {
        Some(to - 1 - from)
    } else {
        last_space(text, from, to - 1)
    }
}

/// How many characters of `text` the line that starts at `at` takes. Where
/// more than `width` characters are left, the line ends before the last space
/// among the first `width - 3` of them, not counting the text's last
/// character. In every other case it takes all that is left but the text's
/// last character.
pub open spec fn line_len(text: Seq<char>, at: int, width: usize) -> int {
    let rest = text.len() - at - 1;
    if at + width < text.len() {
        let bound = if at + width - 3 < text.len() - 1 {
            at + width - 3
        } else {
            text.len() - 1
        };
        let to = if bound < at {
            at
        } else {
            bound
        };
        match last_space(text, at, to) {
            Some(p) => p,
            None => rest,
        }
    } else {
        rest
    }
}

/// The lines of `text` from `at` on, each followed in the text by one
/// character that is dropped.
pub open spec fn wrapped(text: Seq<char>, at: int, width: usize) -> Seq<Seq<char>>
    decreases text.len() - at,
{
    let taken = line_len(text, at, width);
    if at < 0 || at >= text.len() || taken < 0 || at + taken >= text.len() {
        Seq::empty()
    } else {
        seq![text.subrange(at, at + taken)] + wrapped(text, at + taken + 1, width)
    }
}

/// Each line behind an indent of three spaces.
pub open spec fn indented(lines: Seq<Seq<char>>) -> Seq<Seq<char>> {
    lines.map_values(|l: Seq<char>| "   "@ + l)
}

/// The rows of an operating system: its pretty name, then its description,
/// wrapped and indented.
pub open spec fn os_rows(os: OSView, width: usize) -> Seq<Seq<char>> {
    seq![os.pretty_name] + match os.description {
        Some(d) => indented(wrapped(d, 0, width)),
        None => Seq::empty(),
    }
}

/// The position of the last space among `text[from..to]`, counted from
/// `from`.
fn find_last_space(text: &Vec<char>, from: usize, to: usize) -> (found: Option<usize>)
    requires
        from <= to <= text@.len(),
    ensures
        match last_space(text@, from as int, to as int) {
            Some(p) => found == Some(p as usize) && 0 <= p < to - from,
            None => found is None,
        },
{
    let mut end: usize = to;
    while end > from
        invariant
            from <= end <= to,
            to <= text@.len(),
            last_space(text@, from as int, to as int) == last_space(text@, from as int, end as int),
        decreases end - from,
    {
        if text[end - 1] == ' ' {
            return Some(end - 1 - from);
        }
        end -= 1;
    }
    None
}

/// The indented line of `text[from..to]`.
fn indented_line(text: &Vec<char>, from: usize, to: usize) -> (line: String)
    requires
        from <= to <= text@.len(),
    ensures
        line@ == "   "@ + text@.subrange(from as int, to as int),
{
    let mut line = String::from_str("   ");
    let mut i: usize = from;
    while i < to
        invariant
            from <= i <= to,
            to <= text@.len(),
            line@ == "   "@ + text@.subrange(from as int, i as int),
        decreases to - i,
    {
        push_char(&mut line, text[i]);
        i += 1;
        assert(line@ =~= "   "@ + text@.subrange(from as int, i as int));
    }
    line
}

impl SearchableItem for OS {
    open spec fn filter_text(&self) -> Seq<char> {
        self.name@
    }

    open spec fn rows(&self, width: usize) -> Seq<Seq<char>> {
        os_rows(self@, width)
    }

    fn to_list_item(&self, width: usize) -> (lines: Vec<String>) {
        let mut lines: Vec<String> = Vec::new();
        lines.push(self.pretty_name.clone());
        assert(views_of(lines@) =~= seq![self.pretty_name@]);
        if let Some(description) = &self.description {
            let text = chars_of(description.as_str());
            let len: usize = text.len();
            let mut i: usize = 0;
            while i < len
                invariant
                    i <= len,
                    len == text@.len(),
                    text@ == description@,
                    views_of(lines@) + indented(wrapped(text@, i as int, width)) == seq![
                        self.pretty_name@,
                    ] + indented(wrapped(text@, 0, width)),
                decreases len - i,
            {
                let rest: usize = len - i - 1;
                let next: usize = if width < len - i {
                    let bound: usize = if width >= 3 && i + width - 3 < len - 1 {
                        i + width - 3
                    } else if width >= 3 {
                        len - 1
                    } else {
                        i
                    };
                    match find_last_space(&text, i, bound) {
                        Some(p) => p,
                        None => rest,
                    }
                } else {
                    rest
                };
                assert(next == line_len(text@, i as int, width));
                let ghost before = lines@;
                let line = indented_line(&text, i, i + next);
                lines.push(line);
                proof {
                    let tail = wrapped(text@, i + next + 1, width);
                    let piece = text@.subrange(i as int, i + next);
                    assert(wrapped(text@, i as int, width) == seq![piece] + tail);
                    assert(indented(seq![piece] + tail) =~= seq!["   "@ + piece] + indented(tail));
                    assert(views_of(lines@) =~= views_of(before).push(line@));
                    assert(views_of(lines@) + indented(tail) =~= views_of(before) + indented(
                        wrapped(text@, i as int, width),
                    ));
                }
                i += next + 1;
            }
            assert(wrapped(text@, i as int, width) =~= Seq::<Seq<char>>::empty());
            assert(views_of(lines@) + indented(Seq::<Seq<char>>::empty()) =~= views_of(lines@));
        }
        lines
    }

    fn to_filter(&self) -> (text: String) {
        self.name.clone()
    }
}

/// A configuration offers only what can be fetched over the network, with at
/// most the one default disk image.
pub open spec fn has_wanted_sources(config: ConfigView) -> bool {
    &&& config.disk_images != DiskImages::Custom
    &&& forall|i: int| 0 <= i < config.iso.len() ==> #[trigger] config.iso[i] is Web
    &&& forall|i: int| 0 <= i < config.img.len() ==> #[trigger] config.img[i] is Web
}

/// The releases that are offered for `arch`.
pub open spec fn wanted(arch: Arch) -> spec_fn(ConfigView) -> bool {
    |config: ConfigView| has_wanted_sources(config) && config.arch == arch
}

/// An operating system with only the releases that are offered for `arch`.
pub open spec fn narrowed(os: OSView, arch: Arch) -> OSView {
    OSView { releases: os.releases.filter(wanted(arch)), ..os }
}

/// Narrowing to `arch`, as a function.
pub open spec fn narrowing(arch: Arch) -> spec_fn(OSView) -> OSView {
    |os: OSView| narrowed(os, arch)
}

/// The operating systems that have a release.
pub open spec fn has_releases() -> spec_fn(OSView) -> bool {
    |os: OSView| os.releases.len() > 0
}

/// The operating systems of the catalog, each narrowed to `arch`, without
/// those that are left with no release.
pub open spec fn offered(catalog: Seq<OSView>, arch: Arch) -> Seq<OSView> {
    catalog.map_values(narrowing(arch)).filter(has_releases())
}

/// Whether every source of the list is a network source.
fn all_web(sources: &Vec<Source>) -> (all: bool)
    ensures
        all == (forall|i: int| 0 <= i < sources@.len() ==> #[trigger] sources@[i] is Web),
{
    let mut i: usize = 0;
    while i < sources.len()
        invariant
            i <= sources@.len(),
            forall|j: int| 0 <= j < i ==> #[trigger] sources@[j] is Web,
        decreases sources@.len() - i,
    {
        match &sources[i] {
            Source::Web(_) => {},
            Source::Other => {
                return false;
            },
        }
        i += 1;
    }
    true
}

fn correct_arch(config: &Config, arch: &Arch) -> (same: bool)
    ensures
        same == (config.arch == *arch),
{
    config.arch == *arch
}

fn has_only_wanted_sources(config: &Config) -> (wanted: bool)
    ensures
        wanted == has_wanted_sources(config@),
{
    let disks = match config.disk_images {
        DiskImages::Custom => false,
        _ => true,
    };
    disks && all_web(&config.iso) && all_web(&config.img)
}

/// The releases of `os` that are offered for `arch`.
fn wanted_releases(os: &OS, arch: &Arch) -> (releases: Vec<Config>)
    ensures
        config_views(releases@) == narrowed(os@, *arch).releases,
{
    let mut releases: Vec<Config> = Vec::new();
    let mut i: usize = 0;
    while i < os.releases.len()
        invariant
            i <= os.releases@.len(),
            config_views(releases@) == kept(os@.releases, wanted(*arch), i as nat),
        decreases os.releases@.len() - i,
    {
        let config = &os.releases[i];
        assert(os@.releases[i as int] == config@);
        if has_only_wanted_sources(config) && correct_arch(config, arch) {
            let ghost before = releases@;
            let copy = config.clone();
            releases.push(copy);
            assert(config_views(releases@) =~= config_views(before).push(copy@));
        }
        i += 1;
    }
    proof {
        lemma_kept_is_filter(os@.releases, wanted(*arch), i as nat);
    }
    releases
}

/// The operating systems of the catalog that offer a release for `arch`,
/// each with those releases only.
pub fn offered_list(catalog: &Vec<OS>, arch: &Arch) -> (list: Vec<OS>)
    ensures
        os_views(list@) == offered(os_views(catalog@), *arch),
{
    let ghost narrow = os_views(catalog@).map_values(narrowing(*arch));
    let mut list: Vec<OS> = Vec::new();
    let mut i: usize = 0;
    while i < catalog.len()
        invariant
            i <= catalog@.len(),
            narrow == os_views(catalog@).map_values(narrowing(*arch)),
            os_views(list@) == kept(narrow, has_releases(), i as nat),
        decreases catalog@.len() - i,
    {
        let os = &catalog[i];
        assert(narrow[i as int] == narrowed(os@, *arch));
        let releases = wanted_releases(os, arch);
        if releases.len() > 0 {
            let ghost before = list@;
            let narrowed_os = OS {
                name: os.name.clone(),
                pretty_name: os.pretty_name.clone(),
                description: clone_text(&os.description),
                releases,
            };
            list.push(narrowed_os);
            assert(os_views(list@) =~= os_views(before).push(narrowed_os@));
        }
        i += 1;
    }
    proof {
        lemma_kept_is_filter(narrow, has_releases(), i as nat);
    }
    list
}

pub struct OSSelection {
    arch: Arch,
    list: Option<SearchableList<OS>>,
}

impl OSSelection {
    /// The architecture that was chosen.
    pub closed spec fn arch(&self) -> Arch {
        self.arch
    }

    /// The list of operating systems; none while the catalog is loading.
    pub closed spec fn list(&self) -> Option<SearchableList<OS>> {
        self.list
    }

    pub open spec fn wf(&self) -> bool {
        match self.list() {
            Some(list) => list.wf(),
            None => true,
        }
    }

    /// `after` holds the list that is made of the catalog `list` on arrival.
    pub open spec fn loaded(before: Self, list: Seq<OS>, after: Self) -> bool {
        &&& after.arch() == before.arch()
        &&& after.list() is Some
        &&& after.list().unwrap().wf()
        &&& os_views(after.list().unwrap().items()) == offered(os_views(list), before.arch())
        &&& after.list().unwrap().state() == cleared(after.list().unwrap().items())
    }

    /// `after` and `action` are what `key` makes of `before`, given what the
    /// catalog provider has delivered. With the list on show: `q` and `h`
    /// outside search end the program and go back; any other key goes to the
    /// list, and a confirmed operating system opens the choice of a release
    /// among its releases. Without it: a failed catalog opens the error page
    /// with the provider's message; a catalog that has arrived is taken over;
    /// and only `h` and `q` are reacted to.
    pub open spec fn handles(
        before: Self,
        key: KeyEvent,
        catalog: Catalog,
        after: Self,
        action: Option<Action>,
    ) -> bool {
        match before.list() {
            Some(list) => if key.code == KeyCode::Char('q') && !list.state().searching {
                is_exit(action) && after == before
            } else if key.code == KeyCode::Char('h') && !list.state().searching {
                is_prev(action) && after == before
            } else {
                &&& after.arch() == before.arch()
                &&& after.list() is Some
                &&& list_steps(list, key, after.list().unwrap())
                &&& match list_confirms(list, key) {
                    Some(i) => i < list.items().len() && opens(
                        action,
                        Seed::Release(list.items()[i as int]@.releases),
                    ),
                    None => action is None,
                }
            },
            None => match catalog {
                Catalog::Failed(message) => after == before && opens(
                    action,
                    Seed::Error(seq![message@]),
                ),
                _ => {
                    &&& match catalog {
                        Catalog::Ready(list) => Self::loaded(before, list@, after),
                        _ => after == before,
                    }
                    &&& if key.code == KeyCode::Char('h') {
                        is_prev(action)
                    } else if key.code == KeyCode::Char('q') {
                        is_exit(action)
                    } else {
                        action is None
                    }
                },
            },
        }
    }

    /// The architecture that was chosen.
    pub fn selected_arch(&self) -> (arch: Arch)
        ensures
            arch == self.arch(),
    {
        self.arch
    }

    /// Whether the page still waits for the catalog.
    pub fn is_loading(&self) -> (loading: bool)
        ensures
            loading == (self.list() is None),
    {
        self.list.is_none()
    }

    pub fn new(arch: Arch) -> (page: Self)
        ensures
            page.wf(),
            page.arch() == arch,
            page.list() is None,
    {
        OSSelection { arch, list: None }
    }

    pub fn handle_key(&mut self, key: &KeyEvent, catalog: &Catalog) -> (action: Option<Action>)
        requires
            old(self).wf(),
        ensures
            final(self).wf(),
            Self::handles(*old(self), *key, *catalog, *final(self), action),
    {
        if let Some(list) = &mut self.list {
            if key.is_char('q') && !list.is_searching() {
                Some(Action::Exit)
            } else if key.is_char('h') && !list.is_searching() {
                Some(Action::PrevPage)
            } else {
                match list.handle_key(key) {
                    Some(os) => Some(
                        Action::NextPage(
                            Page::ReleaseSelection(
                                ReleaseSelection::new(clone_configs(&os.releases)),
                            ),
                        ),
                    ),
                    None => None,
                }
            }
        } else {
            match catalog {
                Catalog::Ready(list) => {
                    self.list = Some(SearchableList::new(offered_list(list, &self.arch)));
                },
                Catalog::Failed(message) => {
                    let mut errors: Vec<String> = Vec::new();
                    errors.push(message.clone());
                    assert(views_of(errors@) =~= seq![message@]);
                    return Some(Action::NextPage(Page::Error(ErrorDisplay::new(errors))));
                },
                Catalog::Loading => {},
            }
            if key.is_char('h') {
                Some(Action::PrevPage)
            } else if key.is_char('q') {
                Some(Action::Exit)
            } else {
                None
            }
        }
    }

    /// What the page shows in `width` columns: the list, or nothing but a
    /// loading notice while there is none.
    pub fn draw(&self, width: usize) -> (view: Option<ListView>)
        requires
            self.wf(),
        ensures
            match self.list() {
                Some(list) => view is Some && list_shows(list, width, view.unwrap()),
                None => view is None,
            },
    {
        match &self.list {
            Some(list) => Some(list.draw(width)),
            None => None,
        }
    }

    pub fn keybinds(&self) -> (binds: Vec<KeyBind>)
        ensures
            bind_views(binds@) == match self.list() {
                Some(list) => list_binds(list.state().searching, true),
                None => seq![(seq!["q"], "Exit"), (seq!["h"], "Previous page")],
            },
    {
        match &self.list {
            Some(list) => list.keybinds(true),
            None => {
                let mut binds: Vec<KeyBind> = Vec::new();
                binds.push(KeyBind::single_key("q", "Exit"));
                binds.push(KeyBind::single_key("h", "Previous page"));
                assert(bind_views(binds@) =~= seq![
                    (seq!["q"], "Exit"),
                    (seq!["h"], "Previous page"),
                ]);
                binds
            },
        }
    }
}

} // verus!
