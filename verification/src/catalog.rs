//! The records of the catalog of operating systems, as the wizard reads
//! them.

use vstd::prelude::*;

use crate::text::owned;

verus! {

/// The elements among the first `n` of `s` that `keep` holds of, in order.
pub open spec fn kept<A>(s: Seq<A>, keep: spec_fn(A) -> bool, n: nat) -> Seq<A>
    decreases n,
{
    if n == 0 {
        Seq::empty()
    } else {
        let before = kept(s, keep, (n - 1) as nat);
        if keep(s[n - 1]) {
            before.push(s[n - 1])
        } else {
            before
        }
    }
}

/// Keeping the elements that `keep` holds of, one after the other, filters
/// by `keep`.
pub proof fn lemma_kept_is_filter<A>(s: Seq<A>, keep: spec_fn(A) -> bool, n: nat)
    requires
        n <= s.len(),
    ensures
        kept(s, keep, n) == s.take(n as int).filter(keep),
        n == s.len() ==> kept(s, keep, n) == s.filter(keep),
    decreases n,
{
    if n == s.len() {
        assert(s.take(n as int) =~= s);
    }
    reveal(Seq::filter);
    if n > 0 {
        lemma_kept_is_filter(s, keep, (n - 1) as nat);
        assert(s.take(n as int).drop_last() =~= s.take(n - 1));
        assert(s.take(n as int).last() == s[n - 1]);
    } else {
        assert(s.take(0) =~= Seq::<A>::empty());
    }
}

/// A processor architecture that images are offered for.
#[derive(Clone, Copy, Debug, PartialEq, Eq, Structural)]
pub enum Arch {
    X86_64,
    AArch64,
    Riscv64,
}

impl Arch {
    /// The architecture's name.
    pub open spec fn name(&self) -> Seq<char> {
        match self {
            Arch::X86_64 => "x86_64"@,
            Arch::AArch64 => "aarch64"@,
            Arch::Riscv64 => "riscv64"@,
        }
    }

    pub fn to_string(&self) -> (text: String)
        ensures
            text@ == self.name(),
    {
        match self {
            Arch::X86_64 => owned("x86_64"),
            Arch::AArch64 => owned("aarch64"),
            Arch::Riscv64 => owned("riscv64"),
        }
    }

    /// Every architecture, in the order in which they are offered.
    pub fn all() -> (all: Vec<Arch>)
        ensures
            all@ == seq![Arch::X86_64, Arch::AArch64, Arch::Riscv64],
    {
        let mut all: Vec<Arch> = Vec::new();
        all.push(Arch::X86_64);
        all.push(Arch::AArch64);
        all.push(Arch::Riscv64);
        all
    }
}

/// A file that can be fetched over the network.
#[derive(Debug)]
pub struct WebSource {
    pub url: String,
    pub checksum: Option<String>,
    /// The name to save the file under, in place of the one in the URL.
    pub file_name: Option<String>,
}

/// A copy of an optional text.
pub fn clone_text(text: &Option<String>) -> (copy: Option<String>)
    ensures
        copy == *text,
{
    match text {
        Some(t) => Some(t.clone()),
        None => None,
    }
}

impl Clone for WebSource {
    fn clone(&self) -> (copy: Self)
        ensures
            copy == *self,
    {
        WebSource {
            url: self.url.clone(),
            checksum: clone_text(&self.checksum),
            file_name: clone_text(&self.file_name),
        }
    }
}

/// Where an image comes from.
#[derive(Debug)]
pub enum Source {
    Web(WebSource),
    /// Any source that is not fetched over the network.
    Other,
}

impl Clone for Source {
    fn clone(&self) -> (copy: Self)
        ensures
            copy == *self,
    {
        match self {
            Source::Web(web) => Source::Web(web.clone()),
            Source::Other => Source::Other,
        }
    }
}

/// What a configuration says of its disk images.
#[derive(Clone, Copy, Debug, PartialEq, Eq, Structural)]
pub enum DiskImages {
    /// It names none.
    Unspecified,
    /// It names one, and that one is the default descriptor.
    SingleDefault,
    /// Anything else.
    Custom,
}

/// One release of an operating system in one edition, for one architecture.
#[derive(Debug)]
pub struct Config {
    pub arch: Arch,
    pub release: String,
    pub edition: Option<String>,
    pub disk_images: DiskImages,
    pub iso: Vec<Source>,
    pub img: Vec<Source>,
}

/// A configuration as a mathematical value.
pub struct ConfigView {
    pub arch: Arch,
    pub release: Seq<char>,
    pub edition: Option<Seq<char>>,
    pub disk_images: DiskImages,
    pub iso: Seq<Source>,
    pub img: Seq<Source>,
}

/// The view of an optional text.
pub open spec fn text_view(text: Option<String>) -> Option<Seq<char>> {
    match text {
        Some(t) => Some(t@),
        None => None,
    }
}

impl View for Config {
    type V = ConfigView;

    open spec fn view(&self) -> ConfigView {
        ConfigView {
            arch: self.arch,
            release: self.release@,
            edition: text_view(self.edition),
            disk_images: self.disk_images,
            iso: self.iso@,
            img: self.img@,
        }
    }
}

/// A copy of a list of sources.
pub fn clone_sources(sources: &Vec<Source>) -> (copy: Vec<Source>)
    ensures
        copy@ == sources@,
{
    let mut copy: Vec<Source> = Vec::new();
    let mut i: usize = 0;
    while i < sources.len()
        invariant
            i <= sources@.len(),
            copy@ == sources@.subrange(0, i as int),
        decreases sources@.len() - i,
    {
        copy.push(sources[i].clone());
        assert(copy@ =~= sources@.subrange(0, i + 1));
        i += 1;
    }
    assert(sources@.subrange(0, i as int) =~= sources@);
    copy
}

impl Clone for Config {
    fn clone(&self) -> (copy: Self)
        ensures
            copy@ == self@,
    {
        Config {
            arch: self.arch,
            release: self.release.clone(),
            edition: clone_text(&self.edition),
            disk_images: self.disk_images,
            iso: clone_sources(&self.iso),
            img: clone_sources(&self.img),
        }
    }
}

/// The views of a sequence of configurations, in order.
pub open spec fn config_views(configs: Seq<Config>) -> Seq<ConfigView> {
    configs.map_values(|c: Config| c@)
}

/// An operating system and its releases.
#[derive(Debug)]
pub struct OS {
    pub name: String,
    pub pretty_name: String,
    pub description: Option<String>,
    pub releases: Vec<Config>,
}

/// An operating system as a mathematical value.
pub struct OSView {
    pub name: Seq<char>,
    pub pretty_name: Seq<char>,
    pub description: Option<Seq<char>>,
    pub releases: Seq<ConfigView>,
}

impl View for OS {
    type V = OSView;

    open spec fn view(&self) -> OSView {
        OSView {
            name: self.name@,
            pretty_name: self.pretty_name@,
            description: text_view(self.description),
            releases: config_views(self.releases@),
        }
    }
}

/// The views of a sequence of operating systems, in order.
pub open spec fn os_views(list: Seq<OS>) -> Seq<OSView> {
    list.map_values(|os: OS| os@)
}

/// A copy of a list of configurations.
pub fn clone_configs(configs: &Vec<Config>) -> (copy: Vec<Config>)
    ensures
        config_views(copy@) == config_views(configs@),
{
    let mut copy: Vec<Config> = Vec::new();
    let mut i: usize = 0;
    while i < configs.len()
        invariant
            i <= configs@.len(),
            config_views(copy@) == config_views(configs@).subrange(0, i as int),
        decreases configs@.len() - i,
    {
        let ghost before = copy@;
        let config = configs[i].clone();
        copy.push(config);
        assert(config_views(copy@) =~= config_views(before).push(config@));
        assert(config_views(copy@) =~= config_views(configs@).subrange(0, i + 1));
        i += 1;
    }
    assert(config_views(configs@).subrange(0, i as int) =~= config_views(configs@));
    copy
}

/// What the catalog provider has delivered so far.
#[derive(Debug)]
pub enum Catalog {
    /// The provider has not answered yet.
    Loading,
    /// The provider's list of operating systems.
    Ready(Vec<OS>),
    /// The provider failed; the text is its message.
    Failed(String),
}

} // verus!
