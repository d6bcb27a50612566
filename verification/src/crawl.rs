//! The crawl loop: the rows of a listing, one download after the other.
//!
//! Like the download engine, the crawl performs no input or output: it asks
//! for one [`CrawlAction`] at a time and takes the [`Event`] that answers it.
//! A download that fails is reported and left behind; only a malformed row
//! of the listing ends the crawl with an error.

use vstd::prelude::*;
use crate::download::{action_for, Action, ActionView, DownloadView, Event, EventView, Phase, PhaseView};
use crate::listing::{ListingError, Resolution, ResolutionView};

verus! {

/// The state of a crawl.
#[derive(Clone, Debug, PartialEq, Eq)]
pub struct Crawl {
    /// The output directory.
    pub root: String,
    /// What the rows of the listing came to.
    pub rows: Vec<Resolution>,
    /// The row that the crawl is at.
    pub position: usize,
    /// How far the download of that row has come; `None` before its first
    /// answer.
    pub progress: Option<Phase>,
}

/// The model of a [`Crawl`].
pub struct CrawlView {
    pub root: Seq<char>,
    pub rows: Seq<ResolutionView>,
    pub position: nat,
    pub progress: Option<PhaseView>,
}

impl View for Crawl {
    type V = CrawlView;

    open spec fn view(&self) -> CrawlView {
        CrawlView {
            root: self.root@,
            rows: self.rows.deep_view(),
            position: self.position as nat,
            progress: match self.progress {
                Some(phase) => Some(phase@),
                None => None,
            },
        }
    }
}

/// What the crawl asks its driver to do next.
#[derive(Clone, Debug, PartialEq, Eq)]
pub enum CrawlAction {
    /// Perform `action` for the entry of row `row`. A `Finish` is to be
    /// reported; any event acknowledges it.
    Entry { row: usize, action: Action },
    /// Report that row `row` has no link; any event acknowledges it.
    Skip { row: usize },
    /// Stop: with an error where the listing was malformed, else with
    /// success, however the downloads ended.
    Exit { fatal: Option<ListingError> },
}

/// The model of a [`CrawlAction`].
pub enum CrawlActionView {
    Entry { row: nat, action: ActionView },
    Skip { row: nat },
    Exit { fatal: Option<ListingError> },
}

impl View for CrawlAction {
    type V = CrawlActionView;

    open spec fn view(&self) -> CrawlActionView {
        match self {
            CrawlAction::Entry { row, action } => CrawlActionView::Entry {
                row: *row as nat,
                action: action@,
            },
            CrawlAction::Skip { row } => CrawlActionView::Skip { row: *row as nat },
            CrawlAction::Exit { fatal } => CrawlActionView::Exit { fatal: *fatal },
        }
    }
}

impl CrawlView {
    /// A crawl that has not asked for anything yet.
    pub open spec fn start(root: Seq<char>, rows: Seq<ResolutionView>) -> CrawlView {
        CrawlView { root, rows, position: 0, progress: None }
    }

    /// What the row at the current position came to; `None` past the last row.
    pub open spec fn here(self) -> Option<ResolutionView> {
        if self.position < self.rows.len() {
            Some(self.rows[self.position as int])
        } else {
            None
        }
    }

    /// The download of the current row, where that row is an entry.
    pub open spec fn download(self) -> Option<DownloadView> {
        match self.here() {
            Some(ResolutionView::Entry(entry)) => Some(
                DownloadView {
                    root: self.root,
                    status: entry.status,
                    phase: match self.progress {
                        Some(phase) => phase,
                        None => PhaseView::start(entry.url),
                    },
                },
            ),
            _ => None,
        }
    }

    /// The crawl at the next row, with nothing done for it yet.
    pub open spec fn next_row(self) -> CrawlView {
        CrawlView { position: self.position + 1, progress: None, ..self }
    }

    /// The action that the crawl is waiting on.
    pub open spec fn action(self) -> CrawlActionView {
        match self.here() {
            None => CrawlActionView::Exit { fatal: None },
            Some(ResolutionView::Fatal(error)) => CrawlActionView::Exit { fatal: Some(error) },
            Some(ResolutionView::Skip) => CrawlActionView::Skip { row: self.position },
            Some(ResolutionView::Entry(_)) => CrawlActionView::Entry {
                row: self.position,
                action: self.download()->0.action(),
            },
        }
    }

    /// The crawl after `event`.
    ///
    /// At the end and at a malformed row nothing changes any more. A skipped
    /// row and a finished download are left behind on any event. Otherwise
    /// the event goes to the download of the current row.
    pub open spec fn advance(self, event: EventView) -> CrawlView {
        match self.here() {
            None => self,
            Some(ResolutionView::Fatal(_)) => self,
            Some(ResolutionView::Skip) => self.next_row(),
            Some(ResolutionView::Entry(_)) => {
                let phase = self.download()->0.phase;
                if phase is Finished {
                    self.next_row()
                } else if phase.answers(event) {
                    CrawlView { progress: Some(phase.after(event)), ..self }
                } else {
                    self
                }
            },
        }
    }

    /// The crawl after a sequence of events.
    pub open spec fn run(self, events: Seq<EventView>) -> CrawlView
        decreases events.len(),
    {
        if events.len() == 0 {
            self
        } else {
            self.advance(events[0]).run(events.drop_first())
        }
    }
}

impl Crawl {
    /// A crawl over the resolved rows of a listing, into `root`.
    pub fn new(root: String, rows: Vec<Resolution>) -> (crawl: Crawl)
        ensures
            crawl@ == CrawlView::start(root@, rows.deep_view()),
    {
        Crawl { root, rows, position: 0, progress: None }
    }

    /// The action to perform now.
    pub fn action(&self) -> (action: CrawlAction)
        ensures
            action@ == self@.action(),
    {
        if self.position >= self.rows.len() {
            return CrawlAction::Exit { fatal: None };
        }
        assert(self@.rows[self.position as int] == self.rows[self.position as int]@);
        match &self.rows[self.position] {
            Resolution::Fatal(error) => CrawlAction::Exit { fatal: Some(*error) },
            Resolution::Skip => CrawlAction::Skip { row: self.position },
            Resolution::Entry(entry) => {
                let action = match &self.progress {
                    Some(phase) => action_for(&self.root, &entry.status, phase),
                    None => Action::Fetch { url: entry.url.clone() },
                };
                CrawlAction::Entry { row: self.position, action }
            },
        }
    }

    /// Takes the answer to the pending action and moves on.
    pub fn advance(self, event: Event) -> (next: Crawl)
        ensures
            next@ == self@.advance(event@),
    {
        let Crawl { root, rows, position, progress } = self;
        if position >= rows.len() {
            return Crawl { root, rows, position, progress };
        }
        assert(rows.deep_view()[position as int] == rows[position as int]@);
        match &rows[position] {
            Resolution::Fatal(_) => Crawl { root, rows, position, progress },
            Resolution::Skip => Crawl { root, rows, position: position + 1, progress: None },
            Resolution::Entry(entry) => {
                let fresh = progress.is_none();
                let phase = match progress {
                    Some(phase) => phase,
                    None => Phase::start(entry.url.clone()),
                };
                if phase.outcome().is_some() {
                    Crawl { root, rows, position: position + 1, progress: None }
                } else if phase.answers(&event) {
                    Crawl { root, rows, position, progress: Some(phase.advance(event)) }
                } else if fresh {
                    Crawl { root, rows, position, progress: None }
                } else {
                    Crawl { root, rows, position, progress: Some(phase) }
                }
            },
        }
    }
}

/// A crawl never jumps over a row and never goes back: an event leaves it at
/// its row or takes it to the next one, and to the next one only from a
/// skipped row or from an entry whose download is over. The listing and the
/// output directory stay as they are.
pub proof fn lemma_row_by_row(crawl: CrawlView, event: EventView)
    ensures
        crawl.advance(event).root == crawl.root,
        crawl.advance(event).rows == crawl.rows,
        crawl.advance(event).position == crawl.position || crawl.advance(event)
            == crawl.next_row(),
        crawl.advance(event).position != crawl.position ==> {
            ||| crawl.here() == Some(ResolutionView::Skip)
            ||| crawl.download() is Some && crawl.download()->0.phase is Finished
        },
        crawl.download() is Some ==> {
            ||| crawl.advance(event).position != crawl.position
            ||| crawl.advance(event).download() == Some(crawl.download()->0.advance(event))
        },
{
}

/// A failure stays with its entry. However the download of a row ended,
/// written, skipped or failed, the crawl goes on with the next row as if
/// nothing had happened: what it asks for there depends on the listing alone.
pub proof fn lemma_outcome_stays_local(crawl: CrawlView, event: EventView)
    requires
        crawl.download() is Some,
        crawl.download()->0.phase is Finished,
    ensures
        crawl.advance(event) == crawl.next_row(),
        crawl.advance(event).here() matches Some(ResolutionView::Entry(entry))
            ==> crawl.advance(event).action() == (CrawlActionView::Entry {
            row: crawl.position + 1,
            action: ActionView::Fetch { url: entry.url },
        }),
        crawl.advance(event).here() is None ==> crawl.advance(event).action() == (
        CrawlActionView::Exit { fatal: None }),
{
}

/// The crawl ends with an error exactly at a malformed row, with that row's
/// error, and with success exactly past the last row. No download decides
/// how the crawl ends.
pub proof fn lemma_exit(crawl: CrawlView)
    ensures
        crawl.action() is Exit <==> crawl.here() is None || crawl.here()->0 is Fatal,
        crawl.action() == (CrawlActionView::Exit { fatal: None }) <==> crawl.position
            >= crawl.rows.len(),
        forall|error: ListingError|
            crawl.action() == (CrawlActionView::Exit { fatal: Some(error) }) <==> crawl.here()
                == Some(ResolutionView::Fatal(error)),
{
}

/// A malformed row ends the crawl: whatever events follow, the crawl stays
/// at that row and asks for nothing but to stop with the row's error. No row
/// after it is ever reached.
pub proof fn lemma_fatal_row_ends_crawl(crawl: CrawlView, events: Seq<EventView>)
    requires
        crawl.here() is Some,
        crawl.here()->0 is Fatal,
    ensures
        crawl.run(events) == crawl,
        crawl.action() == (CrawlActionView::Exit { fatal: Some(crawl.here()->0->Fatal_0) }),
    decreases events.len(),
{
    if events.len() > 0 {
        lemma_fatal_row_ends_crawl(crawl, events.drop_first());
    }
}

/// Rows are reached in order: after any events the crawl stands at its old
/// row or further on, by at most one row for each event.
pub proof fn lemma_run_in_order(crawl: CrawlView, events: Seq<EventView>)
    ensures
        crawl.position <= crawl.run(events).position <= crawl.position + events.len(),
        crawl.run(events).rows == crawl.rows,
        crawl.run(events).root == crawl.root,
    decreases events.len(),
{
    if events.len() > 0 {
        lemma_row_by_row(crawl, events[0]);
        lemma_run_in_order(crawl.advance(events[0]), events.drop_first());
    }
}

/// Appending an event to a run is advancing once more.
proof fn lemma_run_push(crawl: CrawlView, events: Seq<EventView>, event: EventView)
    ensures
        crawl.run(events.push(event)) == crawl.run(events).advance(event),
    decreases events.len(),
{
    let longer = events.push(event);
    assert(crawl.run(longer) == crawl.advance(longer[0]).run(longer.drop_first()));
    if events.len() == 0 {
        assert(longer.drop_first() =~= events);
        assert(crawl.advance(event).run(events) == crawl.advance(event));
        assert(crawl.run(events) == crawl);
    } else {
        assert(longer.drop_first() =~= events.drop_first().push(event));
        lemma_run_push(crawl.advance(events[0]), events.drop_first(), event);
    }
}

/// Every row up to the one that the crawl has come to was reached, and
/// reached with nothing done for it yet, whatever happened to the rows
/// before it: whichever downloads failed, the crawl stood at each row in
/// turn, and where that row is an entry, asked for its address to be
/// fetched.
pub proof fn lemma_every_row_is_reached(
    root: Seq<char>,
    rows: Seq<ResolutionView>,
    events: Seq<EventView>,
    row: nat,
) -> (n: nat)
    requires
        row <= CrawlView::start(root, rows).run(events).position,
    ensures
        n <= events.len(),
        CrawlView::start(root, rows).run(events.take(n as int)) == (CrawlView {
            root,
            rows,
            position: row,
            progress: None,
        }),
        rows.len() > row ==> (rows[row as int] matches ResolutionView::Entry(entry)
            ==> CrawlView::start(root, rows).run(events.take(n as int)).action() == (
        CrawlActionView::Entry { row, action: ActionView::Fetch { url: entry.url } })),
    decreases events.len(),
{
    let start = CrawlView::start(root, rows);
    if events.len() == 0 {
        assert(events.take(0) =~= events);
        0
    } else {
        let before = events.drop_last();
        let last = events.last();
        assert(before.push(last) =~= events);
        lemma_run_push(start, before, last);
        lemma_run_in_order(start, before);
        lemma_row_by_row(start.run(before), last);
        if row <= start.run(before).position {
            let n = lemma_every_row_is_reached(root, rows, before, row);
            assert(before.take(n as int) =~= events.take(n as int));
            n
        } else {
            assert(events.take(events.len() as int) =~= events);
            events.len()
        }
    }
}

/// No row behind a malformed row is ever reached.
pub proof fn lemma_never_past_fatal(crawl: CrawlView, events: Seq<EventView>, row: nat)
    requires
        crawl.position <= row < crawl.rows.len(),
        crawl.rows[row as int] is Fatal,
    ensures
        crawl.run(events).position <= row,
    decreases events.len(),
{
    if events.len() > 0 {
        lemma_row_by_row(crawl, events[0]);
        lemma_never_past_fatal(crawl.advance(events[0]), events.drop_first(), row);
    }
}

} // verus!
