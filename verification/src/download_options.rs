//! The choice between downloading the files and listing their URLs.

use vstd::prelude::*;

use crate::app::{is_exit, is_prev, opens, Action, Page, Seed};
use crate::catalog::{Config, ConfigView, Source, WebSource};
use crate::download::DownloadPage;
use crate::keybinds::{bind_views, KeyBind};
use crate::keys::{KeyCode, KeyEvent};
use crate::searchable_list::{
    cleared, list_binds, list_confirms, list_shows, list_steps, ListView, SearchableItem,
    SearchableList,
};
use crate::text::{owned, views_of};
use crate::url_list::UrlList;

verus! {

/// What can be done with a configuration's files.
#[derive(Clone, Copy, Debug, PartialEq, Eq, Structural)]
pub enum DownloadOption {
    Download,
    ListUrls,
}

impl DownloadOption {
    /// The option's label.
    pub open spec fn label(&self) -> Seq<char> {
        match self {
            DownloadOption::Download => "Download now"@,
            DownloadOption::ListUrls => "List URLs"@,
        }
    }

    pub fn as_ref(&self) -> (label: &'static str)
        ensures
            label@ == self.label(),
    {
        match self {
            DownloadOption::Download => "Download now",
            DownloadOption::ListUrls => "List URLs",
        }
    }
}

impl SearchableItem for DownloadOption {
    open spec fn filter_text(&self) -> Seq<char> {
        self.label()
    }

    open spec fn rows(&self, width: usize) -> Seq<Seq<char>> {
        seq![self.label()]
    }

    fn to_list_item(&self, width: usize) -> (lines: Vec<String>) {
        let mut lines: Vec<String> = Vec::new();
        lines.push(owned(self.as_ref()));
        assert(views_of(lines@) =~= seq![self.label()]);
        lines
    }

    fn to_filter(&self) -> (text: String) {
        owned(self.as_ref())
    }
}

/// The network sources among the first `n` of `sources`, in order.
pub open spec fn web_among(sources: Seq<Source>, n: nat) -> Seq<WebSource>
    decreases n,
{
    if n == 0 {
        Seq::empty()
    } else {
        let before = web_among(sources, (n - 1) as nat);
        match sources[n - 1] {
            Source::Web(web) => before.push(web),
            Source::Other => before,
        }
    }
}

/// The files of a configuration that can be fetched over the network: those
/// of its ISO sources, then those of its image sources.
pub open spec fn web_sources(config: ConfigView) -> Seq<WebSource> {
    web_among(config.iso, config.iso.len()) + web_among(config.img, config.img.len())
}

/// The URLs of the sources, in order.
pub open spec fn urls_of(sources: Seq<WebSource>) -> Seq<Seq<char>> {
    sources.map_values(|s: WebSource| s.url@)
}

/// The page that an option opens for a configuration.
pub open spec fn option_opens(config: ConfigView, option: DownloadOption) -> Seed {
    match option {
        DownloadOption::Download => Seed::Download(web_sources(config)),
        DownloadOption::ListUrls => Seed::Urls(urls_of(web_sources(config))),
    }
}

/// Appends copies of the network sources among `sources` to `found`.
fn push_web_sources(found: &mut Vec<WebSource>, sources: &Vec<Source>)
    ensures
        final(found)@ == old(found)@ + web_among(sources@, sources@.len()),
{
    let mut i: usize = 0;
    while i < sources.len()
        invariant
            i <= sources@.len(),
            found@ == old(found)@ + web_among(sources@, i as nat),
        decreases sources@.len() - i,
    {
        match &sources[i] {
            Source::Web(web) => {
                found.push(web.clone());
            },
            Source::Other => {},
        }
        i += 1;
        assert(found@ =~= old(found)@ + web_among(sources@, i as nat));
    }
}

pub fn extract_sources(config: &Config) -> (sources: Vec<WebSource>)
    ensures
        sources@ == web_sources(config@),
{
    let mut sources: Vec<WebSource> = Vec::new();
    push_web_sources(&mut sources, &config.iso);
    push_web_sources(&mut sources, &config.img);
    assert(sources@ =~= web_sources(config@));
    sources
}

pub fn sources_to_urls(sources: Vec<WebSource>) -> (urls: Vec<String>)
    ensures
        views_of(urls@) == urls_of(sources@),
{
    let mut urls: Vec<String> = Vec::new();
    let mut i: usize = 0;
    while i < sources.len()
        invariant
            i <= sources@.len(),
            views_of(urls@) == urls_of(sources@).subrange(0, i as int),
        decreases sources@.len() - i,
    {
        let ghost before = urls@;
        let url = sources[i].url.clone();
        urls.push(url);
        assert(views_of(urls@) =~= views_of(before).push(url@));
        i += 1;
        assert(views_of(urls@) =~= urls_of(sources@).subrange(0, i as int));
    }
    assert(urls_of(sources@).subrange(0, i as int) =~= urls_of(sources@));
    urls
}

pub struct DownloadOptions {
    config: Config,
    list: SearchableList<DownloadOption>,
}

impl DownloadOptions {
    /// The configuration that was chosen.
    pub closed spec fn config(&self) -> ConfigView {
        self.config@
    }

    /// The list of the two options.
    pub closed spec fn list(&self) -> SearchableList<DownloadOption> {
        self.list
    }

    pub open spec fn wf(&self) -> bool {
        self.list().wf()
    }

    /// `after` and `action` are what `key` makes of `before`: `q` and `h`
    /// outside search end the program and go back; any other key goes to the
    /// list, and a confirmed option opens its page.
    pub open spec fn handles(before: Self, key: KeyEvent, after: Self, action: Option<Action>) -> bool {
        if key.code == KeyCode::Char('q') && !before.list().state().searching {
            is_exit(action) && after == before
        } else if key.code == KeyCode::Char('h') && !before.list().state().searching {
            is_prev(action) && after == before
        } else {
            &&& after.config() == before.config()
            &&& list_steps(before.list(), key, after.list())
            &&& match list_confirms(before.list(), key) {
                Some(i) => i < before.list().items().len() && opens(
                    action,
                    option_opens(before.config(), before.list().items()[i as int]),
                ),
                None => action is None,
            }
        }
    }

    pub fn new(config: Config) -> (page: Self)
        ensures
            page.wf(),
            page.config() == config@,
            page.list().items() == seq![DownloadOption::Download, DownloadOption::ListUrls],
            page.list().state() == cleared(page.list().items()),
    {
        let mut options: Vec<DownloadOption> = Vec::new();
        options.push(DownloadOption::Download);
        options.push(DownloadOption::ListUrls);
        DownloadOptions { config, list: SearchableList::new(options) }
    }

    pub fn handle_key(&mut self, key: &KeyEvent) -> (action: Option<Action>)
        requires
            old(self).wf(),
        ensures
            final(self).wf(),
            Self::handles(*old(self), *key, *final(self), action),
    {
        if key.is_char('q') && !self.list.is_searching() {
            return Some(Action::Exit);
        }
        if key.is_char('h') && !self.list.is_searching() {
            return Some(Action::PrevPage);
        }
        match self.list.handle_key(key) {
            Some(option) => match option {
                DownloadOption::Download => Some(
                    Action::NextPage(
                        Page::Download(DownloadPage::new(extract_sources(&self.config))),
                    ),
                ),
                DownloadOption::ListUrls => Some(
                    Action::NextPage(
                        Page::UrlList(
                            UrlList::new(sources_to_urls(extract_sources(&self.config))),
                        ),
                    ),
                ),
            },
            None => None,
        }
    }

    pub fn draw(&self, width: usize) -> (view: ListView)
        requires
            self.wf(),
        ensures
            list_shows(self.list(), width, view),
    {
        self.list.draw(width)
    }

    pub fn keybinds(&self) -> (binds: Vec<KeyBind>)
        ensures
            bind_views(binds@) == list_binds(self.list().state().searching, true),
    {
        self.list.keybinds(true)
    }
}

} // verus!
