//! The wizard: a stack of pages, and what a key makes of it.

use vstd::prelude::*;

use crate::arch_selection::ArchSelection;
use crate::catalog::{config_views, Arch, Catalog, ConfigView, WebSource};
use crate::complete::CompletePage;
use crate::download::{fresh_unit, gauge_shows, DownloadError, DownloadPage, GaugeView};
use crate::download_options::{DownloadOption, DownloadOptions};
use crate::edition_selection::EditionSelection;
use crate::error_display::ErrorDisplay;
use crate::keybinds::{bind_views, footer_lines, FinishedKeybinds, KeyBind};
use crate::keys::{KeyCode, KeyEvent};
use crate::os_selection::OSSelection;
use crate::release_selection::{distinct, release_labels, ReleaseSelection};
use crate::searchable_list::{cleared, list_binds, list_shows, ListView};
use crate::text::{owned, push_text, views_of};
use crate::url_list::UrlList;

verus! {

/// What follows from a key.
pub enum Action {
    /// The program ends.
    Exit,
    /// The page is left for the one before it.
    PrevPage,
    /// A new page is entered.
    NextPage(Page),
}

/// A step of the wizard, with what it needs to go on.
pub enum Page {
    ArchSelection(ArchSelection),
    OSSelection(OSSelection),
    ReleaseSelection(ReleaseSelection),
    EditionSelection(EditionSelection),
    DownloadOptions(DownloadOptions),
    Download(DownloadPage),
    UrlList(UrlList),
    Complete(CompletePage),
    Error(ErrorDisplay),
}

/// What a page is entered with.
pub enum Seed {
    Arch,
    OS(Arch),
    Release(Seq<ConfigView>),
    Edition(Seq<ConfigView>),
    Options(ConfigView),
    Download(Seq<WebSource>),
    Urls(Seq<Seq<char>>),
    Complete,
    Error(Seq<Seq<char>>),
}

/// The action ends the program.
pub open spec fn is_exit(action: Option<Action>) -> bool {
    match action {
        Some(Action::Exit) => true,
        _ => false,
    }
}

/// The action goes back one page.
pub open spec fn is_prev(action: Option<Action>) -> bool {
    match action {
        Some(Action::PrevPage) => true,
        _ => false,
    }
}

/// The action enters the page that `seed` describes.
pub open spec fn opens(action: Option<Action>, seed: Seed) -> bool {
    match action {
        Some(Action::NextPage(page)) => page.wf() && page.is_fresh(seed),
        _ => false,
    }
}

/// What a page shows.
pub enum PageView {
    List(ListView),
    /// The notice that the catalog is loading.
    Loading,
    Gauges(Vec<GaugeView>),
    /// A message, centred.
    Message(String),
    /// Lines, centred: a heading, messages, an empty line and a prompt.
    Errors(Vec<String>),
}

impl Page {
    pub open spec fn wf(&self) -> bool {
        match self {
            Page::ArchSelection(p) => p.wf(),
            Page::OSSelection(p) => p.wf(),
            Page::ReleaseSelection(p) => p.wf(),
            Page::EditionSelection(p) => p.wf(),
            Page::DownloadOptions(p) => p.wf(),
            Page::UrlList(p) => p.wf(),
            _ => true,
        }
    }

    /// The page is as it is when it is entered with `seed`: its list holds
    /// what the seed gives, with no query and the cursor on the first item.
    pub open spec fn is_fresh(&self, seed: Seed) -> bool {
        match (self, seed) {
            (Page::ArchSelection(p), Seed::Arch) => p.list().items() == seq![
                Arch::X86_64,
                Arch::AArch64,
                Arch::Riscv64,
            ] && p.list().state() == cleared(p.list().items()),
            (Page::OSSelection(p), Seed::OS(arch)) => p.arch() == arch && p.list() is None,
            (Page::ReleaseSelection(p), Seed::Release(configs)) => p.configs() == configs
                && views_of(p.list().items()) == distinct(release_labels(configs))
                && p.list().state() == cleared(p.list().items()),
            (Page::EditionSelection(p), Seed::Edition(configs)) => config_views(p.list().items())
                == configs && p.list().state() == cleared(p.list().items()),
            (Page::DownloadOptions(p), Seed::Options(config)) => p.config() == config
                && p.list().items() == seq![DownloadOption::Download, DownloadOption::ListUrls]
                && p.list().state() == cleared(p.list().items()),
            (Page::Download(p), Seed::Download(sources)) => p.sources() == sources && p.units()
                == Seq::new(sources.len(), |i: int| fresh_unit()) && !p.has_failed(),
            (Page::UrlList(p), Seed::Urls(urls)) => views_of(p.list().items()) == urls
                && p.list().state() == cleared(p.list().items()),
            (Page::Complete(_), Seed::Complete) => true,
            (Page::Error(p), Seed::Error(messages)) => p.errors() == messages,
            _ => false,
        }
    }

    /// `after` and `action` are what `key` makes of `before`, given what the
    /// catalog provider has delivered: each page by its own rule.
    pub open spec fn handles(
        before: Self,
        key: KeyEvent,
        catalog: Catalog,
        after: Self,
        action: Option<Action>,
    ) -> bool {
        match (before, after) {
            (Page::ArchSelection(b), Page::ArchSelection(a)) => ArchSelection::handles(
                b,
                key,
                a,
                action,
            ),
            (Page::OSSelection(b), Page::OSSelection(a)) => OSSelection::handles(
                b,
                key,
                catalog,
                a,
                action,
            ),
            (Page::ReleaseSelection(b), Page::ReleaseSelection(a)) => ReleaseSelection::handles(
                b,
                key,
                a,
                action,
            ),
            (Page::EditionSelection(b), Page::EditionSelection(a)) => EditionSelection::handles(
                b,
                key,
                a,
                action,
            ),
            (Page::DownloadOptions(b), Page::DownloadOptions(a)) => DownloadOptions::handles(
                b,
                key,
                a,
                action,
            ),
            (Page::Download(b), Page::Download(a)) => DownloadPage::handles(b, a, action),
            (Page::UrlList(b), Page::UrlList(a)) => UrlList::handles(b, key, a, action),
            (Page::Complete(_), Page::Complete(_)) => if key.code == KeyCode::Null {
                action is None
            } else {
                is_exit(action)
            },
            (Page::Error(b), Page::Error(a)) => a.errors() == b.errors() && if key.code
                == KeyCode::Null {
                action is None
            } else {
                is_exit(action)
            },
            _ => false,
        }
    }

    /// The page's name in the title.
    pub open spec fn name(&self) -> &'static str {
        match self {
            Page::ArchSelection(_) => "Arch",
            Page::OSSelection(_) => "OS",
            Page::ReleaseSelection(_) => "Release",
            Page::EditionSelection(_) => "Edition",
            Page::DownloadOptions(_) => "Download Options",
            Page::Download(_) => "Download",
            Page::UrlList(_) => "URLs",
            Page::Complete(_) => "Complete",
            Page::Error(_) => "Error",
        }
    }

    /// The page's key bindings.
    pub open spec fn binds(&self) -> Seq<(Seq<&'static str>, &'static str)> {
        match self {
            Page::ArchSelection(p) => list_binds(p.list().state().searching, false),
            Page::OSSelection(p) => match p.list() {
                Some(list) => list_binds(list.state().searching, true),
                None => seq![(seq!["q"], "Exit"), (seq!["h"], "Previous page")],
            },
            Page::ReleaseSelection(p) => list_binds(p.list().state().searching, true),
            Page::EditionSelection(p) => list_binds(p.list().state().searching, true),
            Page::DownloadOptions(p) => list_binds(p.list().state().searching, true),
            Page::Download(p) => if p.has_failed() {
                seq![(seq!["Any key"], "Exit downloads")]
            } else {
                Seq::empty()
            },
            Page::UrlList(p) => list_binds(p.list().state().searching, true),
            Page::Complete(_) => seq![(seq!["Any key"], "Exit")],
            Page::Error(_) => seq![(seq!["Any key"], "Exit")],
        }
    }

    /// `view` is what the page shows in `width` columns.
    pub open spec fn shows(&self, width: usize, view: PageView) -> bool {
        match (self, view) {
            (Page::ArchSelection(p), PageView::List(v)) => list_shows(p.list(), width, v),
            (Page::OSSelection(p), PageView::List(v)) => p.list() is Some && list_shows(
                p.list().unwrap(),
                width,
                v,
            ),
            (Page::OSSelection(p), PageView::Loading) => p.list() is None,
            (Page::ReleaseSelection(p), PageView::List(v)) => list_shows(p.list(), width, v),
            (Page::EditionSelection(p), PageView::List(v)) => list_shows(p.list(), width, v),
            (Page::DownloadOptions(p), PageView::List(v)) => list_shows(p.list(), width, v),
            (Page::Download(p), PageView::Gauges(v)) => v@.len() == p.units().len() && forall|
                i: int,
            |
                0 <= i < p.units().len() ==> gauge_shows(p.units()[i], #[trigger] v@[i]),
            (Page::UrlList(p), PageView::List(v)) => list_shows(p.list(), width, v),
            (Page::Complete(_), PageView::Message(m)) => m@
                == "Complete! Press any key to exit."@,
            (Page::Error(p), PageView::Errors(lines)) => views_of(lines@) == seq!["Error:"@]
                + p.errors() + seq![Seq::<char>::empty(), "Press any key to exit."@],
            _ => false,
        }
    }

    pub fn draw(&self, width: usize) -> (view: PageView)
        requires
            self.wf(),
        ensures
            self.shows(width, view),
    {
        match self {
            Page::ArchSelection(p) => PageView::List(p.draw(width)),
            Page::OSSelection(p) => match p.draw(width) {
                Some(view) => PageView::List(view),
                None => PageView::Loading,
            },
            Page::ReleaseSelection(p) => PageView::List(p.draw(width)),
            Page::EditionSelection(p) => PageView::List(p.draw(width)),
            Page::DownloadOptions(p) => PageView::List(p.draw(width)),
            Page::Download(p) => PageView::Gauges(p.draw()),
            Page::UrlList(p) => PageView::List(p.draw(width)),
            Page::Complete(p) => PageView::Message(p.draw()),
            Page::Error(p) => PageView::Errors(p.draw()),
        }
    }

    pub fn handle_key(&mut self, key: &KeyEvent, catalog: &Catalog) -> (action: Option<Action>)
        requires
            old(self).wf(),
        ensures
            final(self).wf(),
            Self::handles(*old(self), *key, *catalog, *final(self), action),
    {
        match self {
            Page::ArchSelection(p) => p.handle_key(key),
            Page::OSSelection(p) => p.handle_key(key, catalog),
            Page::ReleaseSelection(p) => p.handle_key(key),
            Page::EditionSelection(p) => p.handle_key(key),
            Page::DownloadOptions(p) => p.handle_key(key),
            Page::Download(p) => p.handle_key(key),
            Page::UrlList(p) => p.handle_key(key),
            Page::Complete(p) => p.handle_key(key),
            Page::Error(p) => p.handle_key(key),
        }
    }

    pub fn page_name(&self) -> (name: &'static str)
        ensures
            name == self.name(),
    {
        match self {
            Page::ArchSelection(_) => "Arch",
            Page::OSSelection(_) => "OS",
            Page::ReleaseSelection(_) => "Release",
            Page::EditionSelection(_) => "Edition",
            Page::DownloadOptions(_) => "Download Options",
            Page::Download(_) => "Download",
            Page::UrlList(_) => "URLs",
            Page::Complete(_) => "Complete",
            Page::Error(_) => "Error",
        }
    }

    pub fn keybinds(&self) -> (binds: Vec<KeyBind>)
        ensures
            bind_views(binds@) == self.binds(),
    {
        match self {
            Page::ArchSelection(p) => p.keybinds(),
            Page::OSSelection(p) => p.keybinds(),
            Page::ReleaseSelection(p) => p.keybinds(),
            Page::EditionSelection(p) => p.keybinds(),
            Page::DownloadOptions(p) => p.keybinds(),
            Page::Download(p) => p.keybinds(),
            Page::UrlList(p) => p.keybinds(),
            Page::Complete(p) => p.keybinds(),
            Page::Error(p) => p.keybinds(),
        }
    }
}

/// The stack after `action` is applied to it: going back drops the last page
/// unless it is the only one, entering a page adds it, and anything else
/// leaves the stack as it is.
pub open spec fn applied(stack: Seq<Page>, action: Option<Action>) -> Seq<Page> {
    match action {
        Some(Action::PrevPage) => if stack.len() > 1 {
            stack.drop_last()
        } else {
            stack
        },
        Some(Action::NextPage(page)) => stack.push(page),
        _ => stack,
    }
}

/// The trail of the first `n` page names: what leads to the current page.
pub open spec fn trail(names: Seq<&'static str>, n: nat) -> Seq<char>
    decreases n,
{
    if n == 0 {
        ": Start -> "@
    } else {
        trail(names, (n - 1) as nat) + names[n - 1]@ + " -> "@
    }
}

/// A run of the title in one style.
pub struct TitleSpan {
    pub content: String,
    pub bold: bool,
}

/// What a title span says.
pub open spec fn title_view(spans: Seq<TitleSpan>) -> Seq<(Seq<char>, bool)> {
    spans.map_values(|s: TitleSpan| (s.content@, s.bold))
}

/// What the wizard shows: the title of the frame, the page, and the footer
/// with the page's key bindings.
pub struct Screen {
    pub title: Vec<TitleSpan>,
    pub page: PageView,
    pub footer: FinishedKeybinds,
}

pub struct App {
    page_stack: Vec<Page>,
}

impl App {
    /// The pages that were entered and not left, the current one last.
    pub closed spec fn pages(&self) -> Seq<Page> {
        self.page_stack@
    }

    /// The names of the pages, in order.
    pub open spec fn names(&self) -> Seq<&'static str> {
        self.pages().map_values(|p: Page| p.name())
    }

    /// There is a current page, and every page is well formed.
    pub open spec fn wf(&self) -> bool {
        &&& self.pages().len() > 0
        &&& forall|i: int| 0 <= i < self.pages().len() ==> (#[trigger] self.pages()[i]).wf()
    }

    /// `after` and `exit` are what `key` makes of the stack `before`: the
    /// current page handles the key, and its action is applied.
    pub open spec fn handles(
        before: Seq<Page>,
        key: KeyEvent,
        catalog: Catalog,
        after: Seq<Page>,
        exit: bool,
    ) -> bool {
        exists|top: Page, action: Option<Action>|
            {
                &&& #[trigger] Page::handles(before.last(), key, catalog, top, action)
                &&& after == applied(before.drop_last().push(top), action)
                &&& exit == is_exit(action)
            }
    }

    /// The title of the frame: the program's name, the trail of the pages
    /// before the current one, and the current page's name.
    pub open spec fn title_spans(&self) -> Seq<(Seq<char>, bool)> {
        seq![
            (" "@, false),
            ("QuickOSDL"@, true),
            (trail(self.names(), (self.names().len() - 1) as nat), false),
            (self.names().last()@, true),
            (" "@, false),
        ]
    }

    pub fn new() -> (app: Self)
        ensures
            app.wf(),
            app.pages().len() == 1,
            app.pages()[0].is_fresh(Seed::Arch),
    {
        let mut page_stack: Vec<Page> = Vec::new();
        page_stack.push(Page::ArchSelection(ArchSelection::new()));
        App { page_stack }
    }

    pub fn current_page(&self) -> (page: &Page)
        requires
            self.wf(),
        ensures
            *page == self.pages().last(),
    {
        &self.page_stack[self.page_stack.len() - 1]
    }

    /// The number of pages on the stack.
    pub fn depth(&self) -> (depth: usize)
        ensures
            depth == self.pages().len(),
    {
        self.page_stack.len()
    }

    /// The page at `index`, counted from the first page.
    pub fn page(&self, index: usize) -> (page: Option<&Page>)
        ensures
            index < self.pages().len() ==> page == Some(&self.pages()[index as int]),
            index >= self.pages().len() ==> page is None,
    {
        if index < self.page_stack.len() {
            Some(&self.page_stack[index])
        } else {
            None
        }
    }

    /// Leaves the current page, unless it is the only one.
    pub fn pop_page(&mut self)
        ensures
            final(self).pages() == applied(old(self).pages(), Some(Action::PrevPage)),
            old(self).wf() ==> final(self).wf(),
    {
        if self.page_stack.len() > 1 {
            let _ = self.page_stack.pop();
        }
    }

    pub fn push_page(&mut self, page: Page)
        ensures
            final(self).pages() == old(self).pages().push(page),
            old(self).wf() && page.wf() ==> final(self).wf(),
    {
        self.page_stack.push(page);
    }

    pub fn title(&self) -> (spans: Vec<TitleSpan>)
        requires
            self.wf(),
        ensures
            title_view(spans@) == self.title_spans(),
    {
        let count: usize = self.page_stack.len();
        let mut navigation = owned(": Start -> ");
        let mut i: usize = 0;
        while i < count - 1
            invariant
                count == self.page_stack@.len(),
                count > 0,
                i <= count - 1,
                navigation@ == trail(self.names(), i as nat),
            decreases count - i,
        {
            push_text(&mut navigation, self.page_stack[i].page_name());
            push_text(&mut navigation, " -> ");
            i += 1;
        }
        let last = owned(self.page_stack[count - 1].page_name());
        let mut spans: Vec<TitleSpan> = Vec::new();
        spans.push(TitleSpan { content: owned(" "), bold: false });
        spans.push(TitleSpan { content: owned("QuickOSDL"), bold: true });
        spans.push(TitleSpan { content: navigation, bold: false });
        spans.push(TitleSpan { content: last, bold: true });
        spans.push(TitleSpan { content: owned(" "), bold: false });
        assert(title_view(spans@) =~= self.title_spans());
        spans
    }

    /// What the wizard shows in a frame whose inside is `width` columns
    /// wide.
    pub fn draw(&self, width: u16) -> (screen: Screen)
        requires
            self.wf(),
        ensures
            title_view(screen.title@) == self.title_spans(),
            exists|binds: Seq<KeyBind>|
                bind_views(binds) == self.pages().last().binds() && screen.footer.lines()
                    == #[trigger] footer_lines(binds, width),
            self.pages().last().shows(width as usize, screen.page),
    {
        let page = self.current_page();
        let keybinds = page.keybinds();
        let footer = FinishedKeybinds::new(keybinds, width);
        let view = page.draw(width as usize);
        Screen { title: self.title(), page: view, footer }
    }

    /// Records the byte counters of a unit of the batch on the current page,
    /// as they were read from its task. On any other page nothing changes.
    pub fn observe_download(&mut self, unit: usize, current_size: u64, total_size: u64)
        requires
            old(self).wf(),
        ensures
            final(self).wf(),
            final(self).pages().len() == old(self).pages().len(),
            final(self).pages().drop_last() == old(self).pages().drop_last(),
            match (old(self).pages().last(), final(self).pages().last()) {
                (Page::Download(before), Page::Download(after)) => DownloadPage::observed(
                    before,
                    unit,
                    current_size,
                    total_size,
                    after,
                ),
                (before, after) => after == before,
            },
    {
        let mut page = self.page_stack.pop().unwrap();
        match &mut page {
            Page::Download(batch) => batch.observe(unit, current_size, total_size),
            _ => {},
        }
        self.page_stack.push(page);
        assert(self.page_stack@.drop_last() =~= old(self).page_stack@.drop_last());
    }

    /// Takes over the result of the finished task of a unit of the batch on
    /// the current page. On any other page nothing changes.
    pub fn collect_download(&mut self, unit: usize, result: Result<(), DownloadError>)
        requires
            old(self).wf(),
        ensures
            final(self).wf(),
            final(self).pages().len() == old(self).pages().len(),
            final(self).pages().drop_last() == old(self).pages().drop_last(),
            match (old(self).pages().last(), final(self).pages().last()) {
                (Page::Download(before), Page::Download(after)) => DownloadPage::collects(
                    before,
                    unit,
                    result,
                    after,
                ),
                (before, after) => after == before,
            },
    {
        let mut page = self.page_stack.pop().unwrap();
        match &mut page {
            Page::Download(batch) => batch.collect(unit, result),
            _ => {},
        }
        self.page_stack.push(page);
        assert(self.page_stack@.drop_last() =~= old(self).page_stack@.drop_last());
    }

    /// Hands `key` to the current page and applies its action. Returns
    /// whether the program ends.
    pub fn handle_key(&mut self, key: &KeyEvent, catalog: &Catalog) -> (exit: bool)
        requires
            old(self).wf(),
        ensures
            final(self).wf(),
            Self::handles(old(self).pages(), *key, *catalog, final(self).pages(), exit),
    {
        let mut page = self.page_stack.pop().unwrap();
        let ghost before = page;
        let action = page.handle_key(key, catalog);
        let ghost taken = action;
        assert(Page::handles(before, *key, *catalog, page, taken));
        self.page_stack.push(page);
        let exit = match action {
            Some(Action::Exit) => true,
            Some(Action::PrevPage) => {
                self.pop_page();
                false
            },
            Some(Action::NextPage(next)) => {
                self.push_page(next);
                false
            },
            None => false,
        };
        assert(before == old(self).pages().last());
        assert(self.page_stack@ =~= applied(old(self).pages().drop_last().push(page), taken));
        assert(exit == is_exit(taken));
        assert(Page::handles(old(self).pages().last(), *key, *catalog, page, taken));
        exit
    }
}

} // verus!
