//! The bookkeeping of a batch of downloads: one unit per file, its status and
//! byte counters, and what the batch as a whole calls for.

use vstd::prelude::*;

use crate::app::{opens, Action, Page, Seed};
use crate::catalog::{text_view, WebSource};
use crate::complete::CompletePage;
use crate::error_display::ErrorDisplay;
use crate::keybinds::{bind_views, KeyBind};
use crate::keys::KeyEvent;
use crate::text::{decimal, digit, digit_char, push_char, push_decimal, push_text, views_of};

verus! {

/// The text of a byte count as `size::Size` displays it.
pub uninterp spec fn size_text(bytes: u64) -> Seq<char>;

/// Calls `size::Size::from_bytes` and formats the size with `{}`. The result
/// is named `size_text`: the choice of unit and the rounding take pages, and
/// depend on the byte count alone.
#[verifier::external_body]
fn format_size(bytes: u64) -> (text: String)
    ensures
        text@ == size_text(bytes),
{
    format!("{}", size::Size::from_bytes(bytes))
}

/// The last segment of the path of a URL, as `reqwest::Url` parses it; none
/// for a text that is no URL and for a URL that cannot be a base.
pub uninterp spec fn last_path_segment(url: Seq<char>) -> Option<Seq<char>>;

/// Parses the text with `reqwest::Url::parse` and calls `Url::path_segments`
/// on the URL. The result is the last segment that it yields, named
/// `last_path_segment`: how a URL is parsed takes pages, and depends on the
/// text alone.
#[verifier::external_body]
fn url_last_segment(url: &str) -> (segment: Option<String>)
    ensures
        text_view(segment) == last_path_segment(url@),
{
    let parsed = reqwest::Url::parse(url).ok()?;
    let segments = parsed.path_segments()?;
    segments.last().map(String::from)
}

/// The name that a file is saved under: the name that its source asks for,
/// else the last segment of the path of the URL that it came from.
pub open spec fn chosen_file_name(
    file_name: Option<Seq<char>>,
    segment: Option<Seq<char>>,
) -> Option<Seq<char>> {
    match file_name {
        Some(name) => Some(name),
        None => segment,
    }
}

/// The name to save a file under, given the name that its source asks for
/// and the last path segment of its URL.
pub fn choose_file_name(file_name: Option<String>, segment: Option<String>) -> (name: Option<
    String,
>)
    ensures
        text_view(name) == chosen_file_name(text_view(file_name), text_view(segment)),
{
    match file_name {
        Some(name) => Some(name),
        None => segment,
    }
}

/// The name to save the file of `source` under, when `final_url` is the URL
/// that the file was delivered from; none where the source names none and
/// the URL has no path segments.
pub fn resolve_file_name(source: &WebSource, final_url: &str) -> (name: Option<String>)
    ensures
        text_view(name) == chosen_file_name(
            text_view(source.file_name),
            last_path_segment(final_url@),
        ),
{
    match &source.file_name {
        Some(name) => Some(name.clone()),
        None => choose_file_name(None, url_last_segment(final_url)),
    }
}

/// Why a unit failed.
#[derive(Debug)]
pub enum DownloadError {
    /// The network transport failed; the text is its message.
    Network(String),
    /// The destination could not be created or written; the text is the
    /// message.
    Filesystem(String),
    /// The digest of what was received, then the digest that was expected.
    NonMatchingChecksum(String, String),
}

impl DownloadError {
    /// The message that is shown for this failure.
    pub open spec fn message(&self) -> Seq<char> {
        match self {
            DownloadError::Network(text) => text@,
            DownloadError::Filesystem(text) => text@,
            DownloadError::NonMatchingChecksum(actual, expected) => "Checksum "@ + actual@
                + " does not match expected value "@ + expected@,
        }
    }

    pub fn to_string(&self) -> (text: String)
        ensures
            text@ == self.message(),
    {
        match self {
            DownloadError::Network(text) => text.clone(),
            DownloadError::Filesystem(text) => text.clone(),
            DownloadError::NonMatchingChecksum(actual, expected) => {
                let mut text = String::from_str("Checksum ");
                push_text(&mut text, actual.as_str());
                push_text(&mut text, " does not match expected value ");
                push_text(&mut text, expected.as_str());
                text
            },
        }
    }
}

/// `verdict` is the right one for a finished stream whose digest is `actual`:
/// success if it equals `expected`, else a checksum mismatch that carries
/// both.
pub open spec fn is_verdict_on(
    verdict: Result<(), DownloadError>,
    actual: Seq<char>,
    expected: Seq<char>,
) -> bool {
    if actual == expected {
        verdict is Ok
    } else {
        match verdict {
            Err(DownloadError::NonMatchingChecksum(a, e)) => a@ == actual && e@ == expected,
            _ => false,
        }
    }
}

/// Compares the digest of what was received with the expected one, character
/// by character; they differ exactly when the result is a checksum mismatch
/// that carries both.
pub fn compare_digests(actual: String, expected: String) -> (verdict: Result<(), DownloadError>)
    ensures
        is_verdict_on(verdict, actual@, expected@),
{
    if actual != expected {
        return Err(DownloadError::NonMatchingChecksum(actual, expected));
    }
    Ok(())
}

#[derive(Debug)]
pub enum DownloadStatus {
    Failed(DownloadError),
    Complete,
    InProgress,
}

/// One file of the batch.
#[derive(Debug)]
pub struct Download {
    pub status: DownloadStatus,
    /// The bytes received so far, as last read from the task's counter.
    pub current_size: u64,
    /// The declared length of the file; 0 until it is known.
    pub total_size: u64,
    /// Whether the unit's task was told to stop.
    pub cancelled: bool,
}

/// The colours of a progress bar.
#[derive(Clone, Copy, Debug, PartialEq, Eq, Structural)]
pub enum GaugeColor {
    Red,
    Blue,
    Green,
    Black,
    White,
}

/// What is shown for one unit: a bar filled to `filled / whole`, with a label.
pub struct GaugeView {
    pub filled: u64,
    pub whole: u64,
    pub color: GaugeColor,
    pub label: String,
    pub label_color: GaugeColor,
}

/// The progress of `current` bytes out of `total` in hundredths of a percent,
/// rounded to the nearest; 0 while the total is unknown.
pub open spec fn hundredths(current: u64, total: u64) -> nat {
    if total == 0 {
        0
    } else {
        ((current as nat * 20000 + total as nat) / (2 * total as nat)) as nat
    }
}

/// A count of hundredths of a percent, written with two decimals and a
/// percent sign.
pub open spec fn percent_text(h: nat) -> Seq<char> {
    decimal(h / 100) + seq!['.', digit_char((h / 10) % 10), digit_char(h % 10), '%']
}

impl Download {
    /// The fraction of the bar that is filled, as numerator and denominator:
    /// nothing while the size is unknown, `current / total` while the size is
    /// known, all of it once the unit has settled.
    pub open spec fn progress(&self) -> (nat, nat) {
        if !(self.status is InProgress) {
            (1, 1)
        } else if self.total_size == 0 {
            (0, 1)
        } else {
            (self.current_size as nat, self.total_size as nat)
        }
    }

    /// The label on the unit's bar.
    pub open spec fn label(&self) -> Seq<char> {
        match self.status {
            DownloadStatus::Failed(e) => "Download Failed: "@ + e.message(),
            DownloadStatus::InProgress => percent_text(
                hundredths(self.current_size, self.total_size),
            ) + " ("@ + size_text(self.current_size) + "/"@ + size_text(self.total_size) + ")"@,
            DownloadStatus::Complete => "Download complete ("@ + size_text(self.current_size)
                + ")"@,
        }
    }

    /// A unit whose task has just been started.
    pub fn new() -> (unit: Self)
        ensures
            unit.status is InProgress,
            unit.current_size == 0,
            unit.total_size == 0,
            !unit.cancelled,
    {
        Download {
            status: DownloadStatus::InProgress,
            current_size: 0,
            total_size: 0,
            cancelled: false,
        }
    }

    /// Takes over the result of the unit's finished task. A unit that has
    /// settled keeps its status.
    pub fn collect(&mut self, result: Result<(), DownloadError>)
        ensures
            *final(self) == collected(*old(self), result),
    {
        if let DownloadStatus::InProgress = self.status {
            self.status = match result {
                Ok(_) => DownloadStatus::Complete,
                Err(e) => DownloadStatus::Failed(e),
            };
        }
    }

    /// The fraction of the bar that is filled.
    pub fn ratio(&self) -> (filled: (u64, u64))
        ensures
            (filled.0 as nat, filled.1 as nat) == self.progress(),
    {
        match self.status {
            DownloadStatus::InProgress => if self.total_size == 0 {
                (0, 1)
            } else {
                (self.current_size, self.total_size)
            },
            _ => (1, 1),
        }
    }

    /// The bar and label of the unit.
    pub fn gauge(&self) -> (view: GaugeView)
        ensures
            gauge_shows(*self, view),
    {
        let (filled, whole) = self.ratio();
        match &self.status {
            DownloadStatus::Failed(e) => {
                let mut label = String::from_str("Download Failed: ");
                let message = e.to_string();
                push_text(&mut label, message.as_str());
                GaugeView {
                    filled,
                    whole,
                    color: GaugeColor::Red,
                    label,
                    label_color: GaugeColor::Black,
                }
            },
            DownloadStatus::InProgress => {
                let mut label = percent_label(self.current_size, self.total_size);
                push_text(&mut label, " (");
                let current = format_size(self.current_size);
                push_text(&mut label, current.as_str());
                push_text(&mut label, "/");
                let total = format_size(self.total_size);
                push_text(&mut label, total.as_str());
                push_text(&mut label, ")");
                GaugeView {
                    filled,
                    whole,
                    color: GaugeColor::Blue,
                    label,
                    label_color: GaugeColor::White,
                }
            },
            DownloadStatus::Complete => {
                let mut label = String::from_str("Download complete (");
                let current = format_size(self.current_size);
                push_text(&mut label, current.as_str());
                push_text(&mut label, ")");
                GaugeView {
                    filled,
                    whole,
                    color: GaugeColor::Green,
                    label,
                    label_color: GaugeColor::Black,
                }
            },
        }
    }
}

/// The progress of `current` bytes out of `total`, as a percentage with two
/// decimals.
pub fn percent_label(current: u64, total: u64) -> (text: String)
    ensures
        text@ == percent_text(hundredths(current, total)),
{
    let h: u128 = if total == 0 {
        0
    } else {
        (current as u128 * 20000 + total as u128) / (2 * total as u128)
    };
    let mut text = String::new();
    push_decimal(&mut text, h / 100);
    push_char(&mut text, '.');
    push_char(&mut text, digit(((h / 10) % 10) as u8));
    push_char(&mut text, digit((h % 10) as u8));
    push_char(&mut text, '%');
    assert(text@ =~= percent_text(h as nat));
    text
}

/// While a unit is in progress, its fraction does not shrink from one
/// reading of its counters to the next: the byte counter does not go back,
/// and the total, once known, stays.
pub proof fn lemma_progress_grows(before: Download, after: Download)
    requires
        before.status is InProgress,
        after.status is InProgress,
        before.current_size <= after.current_size,
        before.total_size == 0 || after.total_size == before.total_size,
    ensures
        before.progress().0 * after.progress().1 <= after.progress().0 * before.progress().1,
{
    if before.total_size != 0 {
        let c1 = before.current_size as int;
        let c2 = after.current_size as int;
        let t = before.total_size as int;
        assert(c1 * t <= c2 * t) by (nonlinear_arith)
            requires
                c1 <= c2,
                t > 0,
        ;
    }
}

/// Once a unit is complete or failed, its fraction is exactly one.
pub proof fn lemma_progress_settles(unit: Download)
    requires
        !(unit.status is InProgress),
    ensures
        unit.progress() == (1nat, 1nat),
{
}

/// The message of every failed unit among the first `n` is among their
/// failure messages.
pub proof fn lemma_failure_is_reported(units: Seq<Download>, n: nat, failed: int)
    requires
        n <= units.len(),
        0 <= failed < n,
        units[failed].status is Failed,
    ensures
        failure_messages(units, n).contains(units[failed].status->Failed_0.message()),
    decreases n,
{
    let now = failure_messages(units, n);
    if failed == n - 1 {
        assert(now[now.len() - 1] == units[failed].status->Failed_0.message());
    } else {
        let before = failure_messages(units, (n - 1) as nat);
        lemma_failure_is_reported(units, (n - 1) as nat, failed);
        let k = choose|k: int|
            0 <= k < before.len() && before[k] == units[failed].status->Failed_0.message();
        assert(now[k] == units[failed].status->Failed_0.message());
    }
}

/// When a unit has failed, the next event tells every unit that is still in
/// progress to stop, and opens the error page with the messages of the
/// failed units, that unit's among them.
pub proof fn lemma_failure_stops_the_batch(
    before: DownloadPage,
    after: DownloadPage,
    action: Option<Action>,
    failed: int,
)
    requires
        DownloadPage::handles(before, after, action),
        0 <= failed < before.units().len(),
        before.units()[failed].status is Failed,
    ensures
        after.units().len() == before.units().len(),
        forall|i: int|
            0 <= i < before.units().len() && before.units()[i].status is InProgress ==> (
            #[trigger] after.units()[i]).cancelled,
        opens(action, Seed::Error(failure_messages(before.units(), before.units().len()))),
        failure_messages(before.units(), before.units().len()).contains(
            before.units()[failed].status->Failed_0.message(),
        ),
{
    lemma_failure_is_reported(before.units(), before.units().len(), failed);
}

/// A unit whose task has just been started.
pub open spec fn fresh_unit() -> Download {
    Download { status: DownloadStatus::InProgress, current_size: 0, total_size: 0, cancelled: false }
}

/// The messages of the failed units among the first `n`, in order.
pub open spec fn failure_messages(units: Seq<Download>, n: nat) -> Seq<Seq<char>>
    decreases n,
{
    if n == 0 {
        Seq::empty()
    } else {
        let before = failure_messages(units, (n - 1) as nat);
        match units[n - 1].status {
            DownloadStatus::Failed(e) => before.push(e.message()),
            _ => before,
        }
    }
}

/// No unit is in progress.
pub open spec fn all_settled(units: Seq<Download>) -> bool {
    forall|i: int| 0 <= i < units.len() ==> !((#[trigger] units[i]).status is InProgress)
}

/// The unit once its task is told to stop, if it is in progress.
pub open spec fn stopped(unit: Download) -> Download {
    Download { cancelled: unit.cancelled || unit.status is InProgress, ..unit }
}

/// `view` is the bar and label of `unit`.
pub open spec fn gauge_shows(unit: Download, view: GaugeView) -> bool {
    &&& (view.filled as nat, view.whole as nat) == unit.progress()
    &&& view.label@ == unit.label()
    &&& view.color == match unit.status {
        DownloadStatus::Failed(_) => GaugeColor::Red,
        DownloadStatus::InProgress => GaugeColor::Blue,
        DownloadStatus::Complete => GaugeColor::Green,
    }
    &&& view.label_color == if unit.status is InProgress {
        GaugeColor::White
    } else {
        GaugeColor::Black
    }
}

/// The page of a batch of downloads.
pub struct DownloadPage {
    has_failed_download: bool,
    downloads: Vec<Download>,
    sources: Vec<WebSource>,
}

impl DownloadPage {
    /// The units, one per file, in the order of the sources.
    pub closed spec fn units(&self) -> Seq<Download> {
        self.downloads@
    }

    /// The files to fetch.
    pub closed spec fn sources(&self) -> Seq<WebSource> {
        self.sources@
    }

    /// Whether the result of a failed task was collected.
    pub closed spec fn has_failed(&self) -> bool {
        self.has_failed_download
    }

    /// `after` and `action` are what the batch calls for in state `before`,
    /// whatever the key, the tick included: if a unit has failed, every unit
    /// in progress is told to stop and the error page opens with the failed
    /// units' messages; else if no unit is in progress, the page of
    /// completion opens; else nothing happens.
    pub open spec fn handles(before: Self, after: Self, action: Option<Action>) -> bool {
        let messages = failure_messages(before.units(), before.units().len());
        if messages.len() > 0 {
            &&& after.units() == before.units().map_values(|u: Download| stopped(u))
            &&& after.sources() == before.sources()
            &&& after.has_failed() == before.has_failed()
            &&& opens(action, Seed::Error(messages))
        } else if all_settled(before.units()) {
            after == before && opens(action, Seed::Complete)
        } else {
            after == before && action is None
        }
    }

    /// `after` is `before` with the byte counters of the unit at `index` as
    /// they were read; a unit that does not exist changes nothing.
    pub open spec fn observed(
        before: Self,
        index: usize,
        current_size: u64,
        total_size: u64,
        after: Self,
    ) -> bool {
        &&& after.sources() == before.sources()
        &&& after.has_failed() == before.has_failed()
        &&& after.units() == if index < before.units().len() {
            before.units().update(
                index as int,
                (Download { current_size, total_size, ..before.units()[index as int] }),
            )
        } else {
            before.units()
        }
    }

    /// `after` is `before` with the result of the task of the unit at
    /// `index` taken over; a unit that does not exist changes nothing.
    pub open spec fn collects(
        before: Self,
        index: usize,
        result: Result<(), DownloadError>,
        after: Self,
    ) -> bool {
        &&& after.sources() == before.sources()
        &&& if index < before.units().len() {
            &&& after.units() == before.units().update(
                index as int,
                collected(before.units()[index as int], result),
            )
            &&& after.has_failed() == (before.has_failed() || (before.units()[index as int].status
                is InProgress && result is Err))
        } else {
            &&& after.units() == before.units()
            &&& after.has_failed() == before.has_failed()
        }
    }

    /// A batch with one unit in progress for each source.
    pub fn new(sources: Vec<WebSource>) -> (page: Self)
        ensures
            page.sources() == sources@,
            page.units() == Seq::new(sources@.len(), |i: int| fresh_unit()),
            !page.has_failed(),
    {
        let mut downloads: Vec<Download> = Vec::new();
        let mut i: usize = 0;
        while i < sources.len()
            invariant
                i <= sources@.len(),
                downloads@ == Seq::new(i as nat, |i: int| fresh_unit()),
            decreases sources@.len() - i,
        {
            downloads.push(Download::new());
            i += 1;
            assert(downloads@ =~= Seq::new(i as nat, |i: int| fresh_unit()));
        }
        DownloadPage { has_failed_download: false, downloads, sources }
    }

    /// The number of units.
    pub fn len(&self) -> (len: usize)
        ensures
            len == self.units().len(),
    {
        self.downloads.len()
    }

    /// The source of the unit at `index`.
    pub fn source(&self, index: usize) -> (source: Option<&WebSource>)
        ensures
            index < self.sources().len() ==> source == Some(&self.sources()[index as int]),
            index >= self.sources().len() ==> source is None,
    {
        if index < self.sources.len() {
            Some(&self.sources[index])
        } else {
            None
        }
    }

    /// Whether the unit at `index` waits for the result of its task.
    pub fn is_in_progress(&self, index: usize) -> (waiting: bool)
        ensures
            waiting == (index < self.units().len() && self.units()[index as int].status
                is InProgress),
    {
        if index < self.downloads.len() {
            match self.downloads[index].status {
                DownloadStatus::InProgress => true,
                _ => false,
            }
        } else {
            false
        }
    }

    /// Whether the task of the unit at `index` was told to stop.
    pub fn is_cancelled(&self, index: usize) -> (cancelled: bool)
        ensures
            cancelled == (index < self.units().len() && self.units()[index as int].cancelled),
    {
        index < self.downloads.len() && self.downloads[index].cancelled
    }

    /// Records the byte counters of the unit at `index` as they were read
    /// from its task.
    pub fn observe(&mut self, index: usize, current_size: u64, total_size: u64)
        ensures
            Self::observed(*old(self), index, current_size, total_size, *final(self)),
    {
        if index < self.downloads.len() {
            let mut unit = self.downloads.remove(index);
            unit.current_size = current_size;
            unit.total_size = total_size;
            self.downloads.insert(index, unit);
            assert(self.downloads@ =~= old(self).downloads@.update(index as int, unit));
        }
    }

    /// Takes over the result of the finished task of the unit at `index`: a
    /// unit in progress becomes complete or failed, and a failure is
    /// remembered.
    pub fn collect(&mut self, index: usize, result: Result<(), DownloadError>)
        ensures
            Self::collects(*old(self), index, result, *final(self)),
    {
        if index < self.downloads.len() {
            let mut unit = self.downloads.remove(index);
            if let DownloadStatus::InProgress = unit.status {
                if result.is_err() {
                    self.has_failed_download = true;
                }
            }
            unit.collect(result);
            self.downloads.insert(index, unit);
            assert(self.downloads@ =~= old(self).downloads@.update(index as int, unit));
        }
    }

    /// The bars of the units, in order.
    pub fn draw(&self) -> (views: Vec<GaugeView>)
        ensures
            views@.len() == self.units().len(),
            forall|i: int|
                0 <= i < self.units().len() ==> gauge_shows(self.units()[i], #[trigger] views@[i]),
    {
        let mut views: Vec<GaugeView> = Vec::new();
        let mut i: usize = 0;
        while i < self.downloads.len()
            invariant
                i <= self.downloads@.len(),
                views@.len() == i,
                forall|j: int|
                    0 <= j < i ==> gauge_shows(self.downloads@[j], #[trigger] views@[j]),
            decreases self.downloads@.len() - i,
        {
            views.push(self.downloads[i].gauge());
            i += 1;
        }
        views
    }

    /// Whatever `key` is, says what the batch calls for after the last poll
    /// of its tasks.
    pub fn handle_key(&mut self, key: &KeyEvent) -> (action: Option<Action>)
        ensures
            Self::handles(*old(self), *final(self), action),
    {
        let mut all_complete = true;
        let mut errors: Vec<String> = Vec::new();
        let count: usize = self.downloads.len();
        let mut i: usize = 0;
        while i < count
            invariant
                i <= count,
                count == self.downloads@.len(),
                *self == *old(self),
                views_of(errors@) == failure_messages(self.downloads@, i as nat),
                all_complete == (forall|j: int|
                    0 <= j < i ==> !((#[trigger] self.downloads@[j]).status is InProgress)),
            decreases count - i,
        {
            match &self.downloads[i].status {
                DownloadStatus::Failed(e) => {
                    let ghost before = errors@;
                    let message = e.to_string();
                    errors.push(message);
                    assert(views_of(errors@) =~= views_of(before).push(message@));
                },
                DownloadStatus::InProgress => {
                    all_complete = false;
                },
                DownloadStatus::Complete => {},
            }
            i += 1;
        }
        if errors.len() > 0 {
            self.cancel_all();
            Some(Action::NextPage(Page::Error(ErrorDisplay::new(errors))))
        } else if all_complete {
            Some(Action::NextPage(Page::Complete(CompletePage::new())))
        } else {
            None
        }
    }

    /// Tells the task of every unit in progress to stop.
    fn cancel_all(&mut self)
        ensures
            final(self).units() == old(self).units().map_values(|u: Download| stopped(u)),
            final(self).sources() == old(self).sources(),
            final(self).has_failed() == old(self).has_failed(),
    {
        let count: usize = self.downloads.len();
        let mut i: usize = 0;
        while i < count
            invariant
                i <= count,
                count == self.downloads@.len(),
                count == old(self).downloads@.len(),
                self.sources == old(self).sources,
                self.has_failed_download == old(self).has_failed_download,
                forall|j: int| 0 <= j < i ==> self.downloads@[j] == stopped(old(self).downloads@[j]),
                forall|j: int| i <= j < count ==> self.downloads@[j] == old(self).downloads@[j],
            decreases count - i,
        {
            let mut unit = self.downloads.remove(i);
            if let DownloadStatus::InProgress = unit.status {
                unit.cancelled = true;
            }
            self.downloads.insert(i, unit);
            i += 1;
        }
        assert(self.downloads@ =~= old(self).downloads@.map_values(|u: Download| stopped(u)));
    }

    pub fn keybinds(&self) -> (binds: Vec<KeyBind>)
        ensures
            bind_views(binds@) == if self.has_failed() {
                seq![(seq!["Any key"], "Exit downloads")]
            } else {
                Seq::empty()
            },
    {
        let mut binds: Vec<KeyBind> = Vec::new();
        if self.has_failed_download {
            binds.push(KeyBind::single_key("Any key", "Exit downloads"));
            assert(bind_views(binds@) =~= seq![(seq!["Any key"], "Exit downloads")]);
        } else {
            assert(bind_views(binds@) =~= Seq::empty());
        }
        binds
    }
}

/// The unit once the result of its task is taken over: a unit in progress
/// becomes complete or failed, a settled unit stays as it is.
pub open spec fn collected(unit: Download, result: Result<(), DownloadError>) -> Download {
    Download {
        status: match unit.status {
            DownloadStatus::InProgress => match result {
                Ok(_) => DownloadStatus::Complete,
                Err(e) => DownloadStatus::Failed(e),
            },
            settled => settled,
        },
        ..unit
    }
}

} // verus!
