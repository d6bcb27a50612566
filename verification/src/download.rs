//! The download engine: one listing entry, from its address to a file on disk.
//!
//! The engine performs no input or output. It holds the state of one download,
//! asks for one [`Action`] at a time and takes the [`Event`] that answers it.
//! Whoever drives it performs the actions: requests, reads and file
//! operations.

use vstd::prelude::*;
use crate::error::{DownloadError, StoreStep};
use crate::header::{attachment_name, content_disposition_to_filename, names_attachment};
use crate::landing::{find_download_link, landing_link};
use crate::response::{classify, is_success, kind_of, success, Header, HeaderView, Kind, Response, ResponseView};

verus! {

/// How a download ended.
#[derive(Clone, Copy, Debug, PartialEq, Eq, Structural)]
pub enum Outcome {
    /// The file was stored under its final path.
    Written,
    /// A file was already there; nothing was read or written.
    Skipped,
    /// No file was stored.
    Failed(DownloadError),
}

/// Where a file goes: `<root>/<status>/<filename>`.
#[derive(Clone, Debug, PartialEq, Eq)]
pub struct Target {
    /// The output directory.
    pub root: String,
    /// The entry's status, which names the subdirectory.
    pub status: String,
    /// The name taken from the content-disposition header.
    pub filename: String,
}

/// The model of a [`Target`].
pub struct TargetView {
    pub root: Seq<char>,
    pub status: Seq<char>,
    pub filename: Seq<char>,
}

impl View for Target {
    type V = TargetView;

    open spec fn view(&self) -> TargetView {
        TargetView { root: self.root@, status: self.status@, filename: self.filename@ }
    }
}

/// What a download is waiting for.
#[derive(Clone, Debug, PartialEq, Eq)]
pub enum Phase {
    /// The head of the response from `url`; `landed` once a landing page has led here.
    Fetching { url: String, landed: bool },
    /// The text of the landing page that was just fetched.
    ReadingPage,
    /// Whether a file named `filename` is already stored.
    Probing { filename: String },
    /// The end of one step of storing the body as `filename`.
    Storing { filename: String, step: StoreStep },
    /// Nothing: the download is over.
    Finished { outcome: Outcome },
}

/// The model of a [`Phase`].
pub enum PhaseView {
    Fetching { url: Seq<char>, landed: bool },
    ReadingPage,
    Probing { filename: Seq<char> },
    Storing { filename: Seq<char>, step: StoreStep },
    Finished { outcome: Outcome },
}

impl View for Phase {
    type V = PhaseView;

    open spec fn view(&self) -> PhaseView {
        match self {
            Phase::Fetching { url, landed } => PhaseView::Fetching { url: url@, landed: *landed },
            Phase::ReadingPage => PhaseView::ReadingPage,
            Phase::Probing { filename } => PhaseView::Probing { filename: filename@ },
            Phase::Storing { filename, step } => PhaseView::Storing {
                filename: filename@,
                step: *step,
            },
            Phase::Finished { outcome } => PhaseView::Finished { outcome: *outcome },
        }
    }
}

/// What happened outside, in answer to an [`Action`].
#[derive(Clone, Debug, PartialEq, Eq)]
pub enum Event {
    /// The head of a response has arrived.
    Response(Response),
    /// The body of the response, read as text.
    Page(String),
    /// Whether the target exists.
    Exists(bool),
    /// The step of storing succeeded.
    Done,
    /// The action failed.
    Failed,
}

/// The model of an [`Event`].
pub enum EventView {
    Response(ResponseView),
    Page(Seq<char>),
    Exists(bool),
    Done,
    Failed,
}

impl View for Event {
    type V = EventView;

    open spec fn view(&self) -> EventView {
        match self {
            Event::Response(response) => EventView::Response(response@),
            Event::Page(html) => EventView::Page(html@),
            Event::Exists(found) => EventView::Exists(*found),
            Event::Done => EventView::Done,
            Event::Failed => EventView::Failed,
        }
    }
}

/// What the engine asks its driver to do next.
#[derive(Clone, Debug, PartialEq, Eq)]
pub enum Action {
    /// Request `url` and report the head of the response.
    Fetch { url: String },
    /// Read the body of the last response as text.
    ReadPage,
    /// Report whether the target exists.
    Probe { target: Target },
    /// Perform one step of storing the body of the last response.
    Store { step: StoreStep, target: Target },
    /// Nothing more; the download ended with `outcome`.
    Finish { outcome: Outcome },
}

/// The model of an [`Action`].
pub enum ActionView {
    Fetch { url: Seq<char> },
    ReadPage,
    Probe { target: TargetView },
    Store { step: StoreStep, target: TargetView },
    Finish { outcome: Outcome },
}

impl View for Action {
    type V = ActionView;

    open spec fn view(&self) -> ActionView {
        match self {
            Action::Fetch { url } => ActionView::Fetch { url: url@ },
            Action::ReadPage => ActionView::ReadPage,
            Action::Probe { target } => ActionView::Probe { target: target@ },
            Action::Store { step, target } => ActionView::Store { step: *step, target: target@ },
            Action::Finish { outcome } => ActionView::Finish { outcome: *outcome },
        }
    }
}

/// The state of one download.
#[derive(Clone, Debug, PartialEq, Eq)]
pub struct Download {
    /// The output directory.
    pub root: String,
    /// The status of the entry.
    pub status: String,
    /// What the download is waiting for.
    pub phase: Phase,
}

/// The model of a [`Download`].
pub struct DownloadView {
    pub root: Seq<char>,
    pub status: Seq<char>,
    pub phase: PhaseView,
}

impl View for Download {
    type V = DownloadView;

    open spec fn view(&self) -> DownloadView {
        DownloadView { root: self.root@, status: self.status@, phase: self.phase@ }
    }
}

/// The phase that ends a download without a file.
pub open spec fn failed(error: DownloadError) -> PhaseView {
    PhaseView::Finished { outcome: Outcome::Failed(error) }
}

/// The phase that follows the head of a response.
///
/// A status outside the success codes ends the download. Otherwise the
/// content type decides: a binary type leads to the existence check, under
/// the name that the content-disposition header gives; HTML leads to reading
/// the landing page, but only once.
pub open spec fn dispatch(response: ResponseView, landed: bool) -> PhaseView {
    if !is_success(response.status) {
        failed(DownloadError::Status(response.status))
    } else {
        match kind_of(response.content_type) {
            Err(error) => failed(error),
            Ok(Kind::Landing) => if landed {
                failed(DownloadError::TooManyHops)
            } else {
                PhaseView::ReadingPage
            },
            Ok(Kind::Binary) => match response.content_disposition {
                HeaderView::Absent => failed(DownloadError::NoContentDisposition),
                HeaderView::Opaque => failed(DownloadError::UnsupportedContentDisposition),
                HeaderView::Text(value) => if names_attachment(value) {
                    PhaseView::Probing { filename: attachment_name(value) }
                } else {
                    failed(DownloadError::UnsupportedContentDisposition)
                },
            },
        }
    }
}

/// The phase that follows a landing page, given the address that it leads
/// to or the reason why it leads nowhere.
pub open spec fn follow(link: Result<Seq<char>, DownloadError>) -> PhaseView {
    match link {
        Ok(url) => PhaseView::Fetching { url, landed: true },
        Err(error) => failed(error),
    }
}

/// The step that follows `step`; none follows the commit.
pub open spec fn step_after(step: StoreStep) -> Option<StoreStep> {
    match step {
        StoreStep::CreateDir => Some(StoreStep::CreateTemp),
        StoreStep::CreateTemp => Some(StoreStep::Copy),
        StoreStep::Copy => Some(StoreStep::Commit),
        StoreStep::Commit => None,
    }
}

/// How far a phase is from the start of a download.
pub open spec fn rank(phase: PhaseView) -> nat {
    match phase {
        PhaseView::Fetching { landed, .. } => if landed { 2 } else { 0 },
        PhaseView::ReadingPage => 1,
        PhaseView::Probing { .. } => 3,
        PhaseView::Storing { step, .. } => match step {
            StoreStep::CreateDir => 4,
            StoreStep::CreateTemp => 5,
            StoreStep::Copy => 6,
            StoreStep::Commit => 7,
        },
        PhaseView::Finished { .. } => 8,
    }
}

impl PhaseView {
    /// The phase that a download starts in.
    pub open spec fn start(url: Seq<char>) -> PhaseView {
        PhaseView::Fetching { url, landed: false }
    }

    /// Whether `event` is an answer to the action that this phase waits on.
    pub open spec fn answers(self, event: EventView) -> bool {
        match self {
            PhaseView::Fetching { .. } => event is Response || event is Failed,
            PhaseView::ReadingPage => event is Page || event is Failed,
            PhaseView::Probing { .. } => event is Exists,
            PhaseView::Storing { .. } => event is Done || event is Failed,
            PhaseView::Finished { .. } => false,
        }
    }

    /// The phase after `event`, where `event` answers.
    pub open spec fn after(self, event: EventView) -> PhaseView {
        match self {
            PhaseView::Fetching { landed, .. } => match event {
                EventView::Response(response) => dispatch(response, landed),
                _ => failed(DownloadError::Fetch),
            },
            PhaseView::ReadingPage => match event {
                EventView::Page(html) => follow(landing_link(html)),
                _ => failed(DownloadError::PageUnreadable),
            },
            PhaseView::Probing { filename } => if event == EventView::Exists(true) {
                PhaseView::Finished { outcome: Outcome::Skipped }
            } else {
                PhaseView::Storing { filename, step: StoreStep::CreateDir }
            },
            PhaseView::Storing { filename, step } => match event {
                EventView::Done => match step_after(step) {
                    Some(next) => PhaseView::Storing { filename, step: next },
                    None => PhaseView::Finished { outcome: Outcome::Written },
                },
                _ => failed(DownloadError::Store(step)),
            },
            PhaseView::Finished { .. } => self,
        }
    }

    /// The phase after `event`. An event that does not answer changes
    /// nothing.
    pub open spec fn advance(self, event: EventView) -> PhaseView {
        if self.answers(event) {
            self.after(event)
        } else {
            self
        }
    }
}

impl DownloadView {
    /// A download that has not asked for anything yet.
    pub open spec fn start(root: Seq<char>, status: Seq<char>, url: Seq<char>) -> DownloadView {
        DownloadView { root, status, phase: PhaseView::start(url) }
    }

    /// Where a file named `filename` goes.
    pub open spec fn target(self, filename: Seq<char>) -> TargetView {
        TargetView { root: self.root, status: self.status, filename }
    }

    /// The action that the download is waiting on.
    pub open spec fn action(self) -> ActionView {
        match self.phase {
            PhaseView::Fetching { url, .. } => ActionView::Fetch { url },
            PhaseView::ReadingPage => ActionView::ReadPage,
            PhaseView::Probing { filename } => ActionView::Probe { target: self.target(filename) },
            PhaseView::Storing { filename, step } => ActionView::Store {
                step,
                target: self.target(filename),
            },
            PhaseView::Finished { outcome } => ActionView::Finish { outcome },
        }
    }

    /// The download after `event`. An event that does not answer the pending
    /// action changes nothing.
    pub open spec fn advance(self, event: EventView) -> DownloadView {
        DownloadView { phase: self.phase.advance(event), ..self }
    }

    /// The download after a sequence of events.
    pub open spec fn run(self, events: Seq<EventView>) -> DownloadView
        decreases events.len(),
    {
        if events.len() == 0 {
            self
        } else {
            self.advance(events[0]).run(events.drop_first())
        }
    }
}

/// The phase that follows the head of a response; see the spec function of
/// the same name.
pub fn dispatch_response(response: &Response, landed: bool) -> (phase: Phase)
    ensures
        phase@ == dispatch(response@, landed),
{
    if !success(response.status) {
        return Phase::Finished { outcome: Outcome::Failed(DownloadError::Status(response.status)) };
    }
    match classify(&response.content_type) {
        Err(error) => Phase::Finished { outcome: Outcome::Failed(error) },
        Ok(Kind::Landing) => if landed {
            Phase::Finished { outcome: Outcome::Failed(DownloadError::TooManyHops) }
        } else {
            Phase::ReadingPage
        },
        Ok(Kind::Binary) => match &response.content_disposition {
            Header::Absent => Phase::Finished {
                outcome: Outcome::Failed(DownloadError::NoContentDisposition),
            },
            Header::Opaque => Phase::Finished {
                outcome: Outcome::Failed(DownloadError::UnsupportedContentDisposition),
            },
            Header::Text(value) => match content_disposition_to_filename(value.as_str()) {
                Ok(name) => Phase::Probing { filename: name.to_owned() },
                Err(error) => Phase::Finished { outcome: Outcome::Failed(error) },
            },
        },
    }
}

/// The phase that follows a landing page, given what was found on it.
pub fn follow_link(link: Result<String, DownloadError>) -> (phase: Phase)
    ensures
        phase@ == follow(
            match link {
                Ok(url) => Ok(url@),
                Err(error) => Err(error),
            },
        ),
{
    match link {
        Ok(url) => Phase::Fetching { url, landed: true },
        Err(error) => Phase::Finished { outcome: Outcome::Failed(error) },
    }
}

/// The step that follows `step`.
pub fn next_step(step: StoreStep) -> (next: Option<StoreStep>)
    ensures
        next == step_after(step),
{
    match step {
        StoreStep::CreateDir => Some(StoreStep::CreateTemp),
        StoreStep::CreateTemp => Some(StoreStep::Copy),
        StoreStep::Copy => Some(StoreStep::Commit),
        StoreStep::Commit => None,
    }
}

impl Phase {
    /// The phase that a download of `url` starts in.
    pub fn start(url: String) -> (phase: Phase)
        ensures
            phase@ == PhaseView::start(url@),
    {
        Phase::Fetching { url, landed: false }
    }

    /// Whether `event` answers the action that this phase waits on.
    pub fn answers(&self, event: &Event) -> (r: bool)
        ensures
            r == self@.answers(event@),
    {
        match self {
            Phase::Fetching { .. } => match event {
                Event::Response(_) => true,
                Event::Failed => true,
                _ => false,
            },
            Phase::ReadingPage => match event {
                Event::Page(_) => true,
                Event::Failed => true,
                _ => false,
            },
            Phase::Probing { .. } => match event {
                Event::Exists(_) => true,
                _ => false,
            },
            Phase::Storing { .. } => match event {
                Event::Done => true,
                Event::Failed => true,
                _ => false,
            },
            Phase::Finished { .. } => false,
        }
    }

    /// Takes the answer to the pending action and moves on.
    pub fn advance(self, event: Event) -> (next: Phase)
        ensures
            next@ == self@.advance(event@),
    {
        match self {
            Phase::Fetching { url, landed } => match event {
                Event::Response(response) => dispatch_response(&response, landed),
                Event::Failed => Phase::Finished { outcome: Outcome::Failed(DownloadError::Fetch) },
                _ => Phase::Fetching { url, landed },
            },
            Phase::ReadingPage => match event {
                Event::Page(html) => follow_link(find_download_link(html.as_str())),
                Event::Failed => Phase::Finished {
                    outcome: Outcome::Failed(DownloadError::PageUnreadable),
                },
                _ => Phase::ReadingPage,
            },
            Phase::Probing { filename } => match event {
                Event::Exists(true) => Phase::Finished { outcome: Outcome::Skipped },
                Event::Exists(false) => Phase::Storing { filename, step: StoreStep::CreateDir },
                _ => Phase::Probing { filename },
            },
            Phase::Storing { filename, step } => match event {
                Event::Done => match next_step(step) {
                    Some(next) => Phase::Storing { filename, step: next },
                    None => Phase::Finished { outcome: Outcome::Written },
                },
                Event::Failed => Phase::Finished {
                    outcome: Outcome::Failed(DownloadError::Store(step)),
                },
                _ => Phase::Storing { filename, step },
            },
            Phase::Finished { outcome } => Phase::Finished { outcome },
        }
    }

    /// The outcome, once the download is over.
    pub fn outcome(&self) -> (outcome: Option<Outcome>)
        ensures
            outcome == match self@ {
                PhaseView::Finished { outcome } => Some(outcome),
                _ => None,
            },
    {
        match self {
            Phase::Finished { outcome } => Some(*outcome),
            _ => None,
        }
    }
}

/// The action that a download into `<root>/<status>/` waits on in `phase`.
pub fn action_for(root: &String, status: &String, phase: &Phase) -> (action: Action)
    ensures
        action@ == (DownloadView { root: root@, status: status@, phase: phase@ }).action(),
{
    match phase {
        Phase::Fetching { url, .. } => Action::Fetch { url: url.clone() },
        Phase::ReadingPage => Action::ReadPage,
        Phase::Probing { filename } => Action::Probe {
            target: Target {
                root: root.clone(),
                status: status.clone(),
                filename: filename.clone(),
            },
        },
        Phase::Storing { filename, step } => Action::Store {
            step: *step,
            target: Target {
                root: root.clone(),
                status: status.clone(),
                filename: filename.clone(),
            },
        },
        Phase::Finished { outcome } => Action::Finish { outcome: *outcome },
    }
}

impl Download {
    /// A download of `url` into `<root>/<status>/`.
    pub fn new(root: String, status: String, url: String) -> (download: Download)
        ensures
            download@ == DownloadView::start(root@, status@, url@),
    {
        Download { root, status, phase: Phase::start(url) }
    }

    /// The action to perform now.
    pub fn action(&self) -> (action: Action)
        ensures
            action@ == self@.action(),
    {
        action_for(&self.root, &self.status, &self.phase)
    }

    /// The outcome, once the download is over.
    pub fn outcome(&self) -> (outcome: Option<Outcome>)
        ensures
            outcome == match self@.phase {
                PhaseView::Finished { outcome } => Some(outcome),
                _ => None,
            },
    {
        self.phase.outcome()
    }

    /// Takes the answer to the pending action and moves on.
    pub fn advance(self, event: Event) -> (next: Download)
        ensures
            next@ == self@.advance(event@),
    {
        let Download { root, status, phase } = self;
        Download { root, status, phase: phase.advance(event) }
    }
}

/// How many of `events` answer the action pending when they arrive.
pub open spec fn answered(download: DownloadView, events: Seq<EventView>) -> nat
    decreases events.len(),
{
    if events.len() == 0 {
        0
    } else {
        let rest = answered(download.advance(events[0]), events.drop_first());
        if download.phase.answers(events[0]) {
            rest + 1
        } else {
            rest
        }
    }
}

/// An event that answers the pending action moves the download strictly
/// forward; any other event leaves it as it is. The directory and the status
/// never change.
pub proof fn lemma_advance_climbs(download: DownloadView, event: EventView)
    ensures
        download.phase.answers(event) ==> rank(download.advance(event).phase) > rank(
            download.phase,
        ),
        !download.phase.answers(event) ==> download.advance(event) == download,
        download.advance(event).root == download.root,
        download.advance(event).status == download.status,
        rank(download.advance(event).phase) <= 8,
{
}

/// Every download ends: each answered action raises the rank of the phase by
/// one at least, and no rank is above eight. So a download takes at most
/// eight actions, whatever the answers are.
pub proof fn lemma_run_climbs(download: DownloadView, events: Seq<EventView>)
    ensures
        rank(download.phase) + answered(download, events) <= rank(download.run(events).phase) <= 8,
        answered(download, events) == 0 ==> download.run(events) == download,
        download.run(events).root == download.root,
        download.run(events).status == download.status,
    decreases events.len(),
{
    if events.len() > 0 {
        lemma_advance_climbs(download, events[0]);
        lemma_run_climbs(download.advance(events[0]), events.drop_first());
    }
}

/// A finished download stays as it is and asks for nothing more.
pub proof fn lemma_finished_is_final(download: DownloadView, events: Seq<EventView>)
    requires
        download.phase is Finished,
    ensures
        download.run(events) == download,
        download.action() == (ActionView::Finish { outcome: download.phase->outcome }),
    decreases events.len(),
{
    if events.len() > 0 {
        lemma_finished_is_final(download, events.drop_first());
    }
}

/// A file that is already there is never fetched or written again: once the
/// existence check has found it, the download is over as `Skipped`, and no
/// later event makes the engine ask for a read or a store.
pub proof fn lemma_existing_file_is_kept(download: DownloadView, events: Seq<EventView>)
    requires
        download.phase is Probing,
    ensures
        download.advance(EventView::Exists(true)).run(events).action() == (ActionView::Finish {
            outcome: Outcome::Skipped,
        }),
{
    lemma_finished_is_final(download.advance(EventView::Exists(true)), events);
}

/// At most one landing page is followed: once a landing page has led to an
/// address, no page is read again, and no address but that one is fetched.
pub proof fn lemma_one_hop(download: DownloadView, events: Seq<EventView>)
    requires
        download.phase matches PhaseView::Fetching { landed, .. } && landed,
    ensures
        !(download.run(events).phase is ReadingPage),
        download.run(events).action() is Fetch ==> download.run(events) == download,
{
    lemma_run_climbs(download, events);
}

/// Storing keeps its order. The first step is asked only after the existence
/// check found nothing; each later step only after the step before it
/// succeeded, for the same file name; and a download counts as written only
/// after the commit succeeded. So the final path is named in a commit only
/// when the whole body has been copied.
pub proof fn lemma_store_order(download: DownloadView, event: EventView)
    requires
        download.advance(event) != download,
    ensures
        download.advance(event).phase matches PhaseView::Storing { filename, step } ==> {
            if step == StoreStep::CreateDir {
                download.phase == (PhaseView::Probing { filename }) && event == EventView::Exists(
                    false,
                )
            } else {
                &&& event == EventView::Done
                &&& download.phase matches PhaseView::Storing { filename: before, step: earlier }
                &&& before == filename
                &&& step_after(earlier) == Some(step)
            }
        },
        download.advance(event).phase == (PhaseView::Finished { outcome: Outcome::Written }) ==> {
            &&& event == EventView::Done
            &&& download.phase matches PhaseView::Storing { step, .. }
            &&& step == StoreStep::Commit
        },
{
}

/// Without a name there is no file: a response whose content-disposition
/// header does not name an attachment never leads to the existence check or
/// to a store, whatever else it carries.
pub proof fn lemma_no_name_no_file(download: DownloadView, response: ResponseView)
    requires
        download.phase is Fetching,
        !(response.content_disposition matches HeaderView::Text(value) && names_attachment(value)),
    ensures
        !(download.advance(EventView::Response(response)).phase is Probing),
        !(download.advance(EventView::Response(response)).phase is Storing),
{
}

} // verus!
