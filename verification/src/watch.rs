//! Change-triggered re-extraction: which extraction runs a batch of
//! debounced change notifications calls for, and how a watch proceeds.

use vstd::prelude::*;
use crate::config::{JobView, WatchState, YankConfig};
use crate::text::text_views;
use crate::yank::YankError;

verus! {

/// The kind of a change notification, as far as a watch tells kinds apart.
#[derive(Debug, Clone, Copy, PartialEq, Eq, Structural)]
pub enum ChangeKind {
    /// A change of unknown kind.
    Any,
    /// A file was read, opened or closed.
    Access,
    /// A file or directory was created.
    Create,
    /// Content, name or metadata changed.
    Modify,
    /// A file or directory was removed.
    Remove,
    /// A notification about something else.
    Other,
}

impl ChangeKind {
    /// Whether a change of this kind calls for a run: creations and
    /// modifications do, nothing else does.
    pub open spec fn spec_triggers(self) -> bool {
        self == ChangeKind::Create || self == ChangeKind::Modify
    }

    /// Whether a change of this kind calls for a run: creations and
    /// modifications do, nothing else does.
    #[verifier::when_used_as_spec(spec_triggers)]
    pub fn triggers(self) -> (r: bool)
        ensures
            r == self.spec_triggers(),
    {
        match self {
            ChangeKind::Create => true,
            ChangeKind::Modify => true,
            _ => false,
        }
    }
}

/// The debounce window, in seconds: notifications that arrive within it are
/// handed over as one batch.
pub const DEBOUNCE_SECONDS: u64 = 2;

/// What a change notification is.
pub struct EventView {
    pub kind: ChangeKind,
    pub paths: Seq<Seq<char>>,
}

/// One debounced change notification.
#[derive(Debug)]
pub struct ChangeEvent {
    /// What happened.
    pub kind: ChangeKind,
    /// The paths that it happened to.
    pub paths: Vec<String>,
}

impl View for ChangeEvent {
    type V = EventView;

    open spec fn view(&self) -> EventView {
        EventView { kind: self.kind, paths: text_views(self.paths@) }
    }
}

/// The notifications of a batch, each by its view.
pub open spec fn event_views(batch: Seq<ChangeEvent>) -> Seq<EventView> {
    batch.map_values(|e: ChangeEvent| e@)
}

/// The jobs of a list, each by its view.
pub open spec fn job_views(jobs: Seq<YankConfig>) -> Seq<JobView> {
    jobs.map_values(|j: YankConfig| j@)
}

/// The paths that a notification calls to run on: its own, if its kind
/// calls for a run.
pub open spec fn event_paths(event: EventView) -> Seq<Seq<char>> {
    if event.kind.triggers() {
        event.paths
    } else {
        Seq::empty()
    }
}

/// The paths that the notifications of a batch call to run on, in the order
/// of the batch, repetitions included.
pub open spec fn triggering_paths(batch: Seq<EventView>) -> Seq<Seq<char>>
    decreases batch.len(),
{
    if batch.len() == 0 {
        Seq::empty()
    } else {
        triggering_paths(batch.drop_last()) + event_paths(batch.last())
    }
}

/// A list of paths without its repetitions: each path stays where it first
/// occurs.
pub open spec fn distinct(paths: Seq<Seq<char>>) -> Seq<Seq<char>>
    decreases paths.len(),
{
    if paths.len() == 0 {
        Seq::empty()
    } else {
        let front = distinct(paths.drop_last());
        if front.contains(paths.last()) {
            front
        } else {
            front.push(paths.last())
        }
    }
}

/// The paths on which a batch calls for a run, each once.
pub open spec fn changed_paths(batch: Seq<EventView>) -> Seq<Seq<char>> {
    distinct(triggering_paths(batch))
}

/// The job that a change of `path` calls for: a run inside the watch, into
/// a folder named after the blueprint, collated.
pub open spec fn job_for(path: Seq<char>) -> JobView {
    JobView { file_name: path, folder: true, watch: WatchState::Watching, collate: true }
}

/// The jobs that a batch calls for: one for each changed path.
pub open spec fn jobs_of(batch: Seq<EventView>) -> Seq<JobView> {
    changed_paths(batch).map_values(|p: Seq<char>| job_for(p))
}

/// Whether `path` is among `paths`.
fn holds_path(paths: &Vec<String>, path: &String) -> (r: bool)
    ensures
        r == text_views(paths@).contains(path@),
{
    let mut i: usize = 0;
    while i < paths.len()
        invariant
            i <= paths.len(),
            forall|j: int| 0 <= j < i ==> text_views(paths@)[j] != path@,
        decreases paths.len() - i,
    {
        if paths[i] == *path {
            assert(text_views(paths@)[i as int] == path@);
            return true;
        }
        i += 1;
    }
    false
}

/// The paths on which `batch` calls for a run: those of its creations and
/// modifications, each once, in the order in which they first occur.
pub fn paths_to_run(batch: &Vec<ChangeEvent>) -> (r: Vec<String>)
    ensures
        text_views(r@) == changed_paths(event_views(batch@)),
{
    let ghost events = event_views(batch@);
    let mut r: Vec<String> = Vec::new();
    let mut i: usize = 0;
    while i < batch.len()
        invariant
            i <= batch.len(),
            events == event_views(batch@),
            text_views(r@) == distinct(triggering_paths(events.take(i as int))),
        decreases batch.len() - i,
    {
        let event = &batch[i];
        let ghost before = triggering_paths(events.take(i as int));
        assert(events.take(i as int + 1).drop_last() =~= events.take(i as int));
        if event.kind.triggers() {
            let mut j: usize = 0;
            while j < event.paths.len()
                invariant
                    j <= event.paths.len(),
                    text_views(r@) == distinct(before + event@.paths.take(j as int)),
                decreases event.paths.len() - j,
            {
                assert((before + event@.paths.take(j as int + 1)).drop_last() =~= before
                    + event@.paths.take(j as int));
                if !holds_path(&r, &event.paths[j]) {
                    r.push(event.paths[j].clone());
                }
                j += 1;
            }
            assert(event@.paths.take(j as int) =~= event@.paths);
        }
        i += 1;
    }
    assert(events.take(i as int) =~= events);
    r
}

/// The jobs that `batch` calls for: one for each changed path, each a run
/// inside the watch, into a folder, collated.
pub fn jobs_for_batch(batch: &Vec<ChangeEvent>) -> (r: Vec<YankConfig>)
    ensures
        job_views(r@) == jobs_of(event_views(batch@)),
{
    let paths = paths_to_run(batch);
    let ghost want = jobs_of(event_views(batch@));
    let mut r: Vec<YankConfig> = Vec::new();
    let mut i: usize = 0;
    while i < paths.len()
        invariant
            i <= paths.len(),
            want == text_views(paths@).map_values(|p: Seq<char>| job_for(p)),
            job_views(r@) == want.take(i as int),
        decreases paths.len() - i,
    {
        let ghost prior = job_views(r@);
        let job = YankConfig {
            file_name: paths[i].clone(),
            folder: true,
            watch: WatchState::Watching,
            disable_collate: false,
        };
        r.push(job);
        assert(job_views(r@) =~= prior.push(job@));
        i += 1;
    }
    r
}

/// The jobs that a single notification calls for.
pub fn handle_event(event: &ChangeEvent) -> (r: Vec<YankConfig>)
    ensures
        job_views(r@) == jobs_of(seq![event@]),
{
    let mut batch: Vec<ChangeEvent> = Vec::new();
    batch.push(ChangeEvent { kind: event.kind, paths: event.paths.clone() });
    assert(event_views(batch@) =~= seq![event@]);
    jobs_for_batch(&batch)
}

/// What a watch is told.
#[derive(Debug)]
pub enum WatchEvent {
    /// Subscribing to the path succeeded, or failed.
    Subscribed(bool),
    /// A batch of debounced change notifications arrived.
    Changes(Vec<ChangeEvent>),
    /// The notification mechanism reported errors in place of a batch.
    Errors,
}

/// What a watch is to do next.
#[derive(Debug)]
pub enum WatchAction {
    /// Wait for the next batch.
    Wait,
    /// Run these jobs one after the other, each to its end, then wait.
    Run(Vec<YankConfig>),
    /// Give up: the watch could not be set up.
    Fail(YankError),
}

/// What a watch message is.
pub enum WatchEventView {
    Subscribed(bool),
    Changes(Seq<EventView>),
    Errors,
}

impl View for WatchEvent {
    type V = WatchEventView;

    open spec fn view(&self) -> WatchEventView {
        match self {
            WatchEvent::Subscribed(ok) => WatchEventView::Subscribed(*ok),
            WatchEvent::Changes(batch) => WatchEventView::Changes(event_views(batch@)),
            WatchEvent::Errors => WatchEventView::Errors,
        }
    }
}

/// What a watch action is.
pub enum WatchActionView {
    Wait,
    Run(Seq<JobView>),
    Fail(YankError),
}

impl View for WatchAction {
    type V = WatchActionView;

    open spec fn view(&self) -> WatchActionView {
        match self {
            WatchAction::Wait => WatchActionView::Wait,
            WatchAction::Run(jobs) => WatchActionView::Run(job_views(jobs@)),
            WatchAction::Fail(e) => WatchActionView::Fail(*e),
        }
    }
}

/// The state of a watch after `event`, and what it is to do. A requested
/// watch begins once it is subscribed and is over if it cannot be; a
/// running watch runs the jobs of each batch and outlasts reported errors.
/// Whatever else it is told, a watch stays as it is and waits.
pub open spec fn watch_step(state: WatchState, event: WatchEventView) -> (
    WatchState,
    WatchActionView,
) {
    match (state, event) {
        (WatchState::Requested, WatchEventView::Subscribed(true)) => (
            WatchState::Watching,
            WatchActionView::Wait,
        ),
        (WatchState::Requested, WatchEventView::Subscribed(false)) => (
            WatchState::Disabled,
            WatchActionView::Fail(YankError::WatchSetupError),
        ),
        (WatchState::Watching, WatchEventView::Changes(batch)) => (
            WatchState::Watching,
            WatchActionView::Run(jobs_of(batch)),
        ),
        _ => (state, WatchActionView::Wait),
    }
}

/// Takes one message to a watch in state `state`: gives the state after it
/// and what to do.
pub fn watch_event(state: WatchState, event: &WatchEvent) -> (r: (WatchState, WatchAction))
    ensures
        (r.0, r.1@) == watch_step(state, event@),
{
    match state {
        WatchState::Requested => match event {
            WatchEvent::Subscribed(ok) => {
                if *ok {
                    (WatchState::Watching, WatchAction::Wait)
                } else {
                    (WatchState::Disabled, WatchAction::Fail(YankError::WatchSetupError))
                }
            },
            _ => (state, WatchAction::Wait),
        },
        WatchState::Watching => match event {
            WatchEvent::Changes(batch) => (
                WatchState::Watching,
                WatchAction::Run(jobs_for_batch(batch)),
            ),
            _ => (state, WatchAction::Wait),
        },
        WatchState::Disabled => (state, WatchAction::Wait),
    }
}

} // verus!
