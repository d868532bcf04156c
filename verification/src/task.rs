//! The work on one track, as a machine that is told what happened and says
//! what to do next: look the track up, search for it, see whether its
//! lyrics file exists, write it.

use vstd::prelude::*;
use crate::candidate::CandidateView;
use crate::outcome::{ResolutionOutcome, ResolutionOutcomeView, SkipReason, Via};
use crate::path::{TrackLocation, TrackLocationView, names_of, sidecar_of, sidecar_path};
use crate::query::{LyricsQuery, LyricsQueryView, exact_url, fuzzy_url, query_for};
use crate::reply::{
    ExactReply,
    ExactReplyView,
    FuzzyReply,
    FuzzyReplyView,
    exact_verdict,
    exact_verdict_of,
    fuzzy_verdict,
    fuzzy_verdict_of,
};

verus! {

/// Whether the lyrics file is to be written: always where none exists, and
/// over an existing one only where that is asked for.
pub open spec fn should_write(present: bool, overwrite: bool) -> bool {
    !present || overwrite
}

/// Decides whether the lyrics file is to be written.
pub fn persist_decision(present: bool, overwrite: bool) -> (write: bool)
    ensures
        write == should_write(present, overwrite),
{
    !present || overwrite
}

/// Where the work on a track stands.
#[derive(Clone, Debug, PartialEq, Eq)]
pub enum TaskState {
    /// The exact lookup has been asked for.
    AwaitingExact,
    /// The search has been asked for.
    AwaitingFuzzy,
    /// Lyrics are chosen; whether their file exists has been asked.
    AwaitingProbe { text: String, via: Via },
    /// The lyrics file is being written.
    AwaitingWrite { text: String, via: Via },
    /// The outcome has been reported.
    Finished,
}

/// What a `TaskState` holds, as plain values.
pub enum TaskStateView {
    AwaitingExact,
    AwaitingFuzzy,
    AwaitingProbe { text: Seq<char>, via: Via },
    AwaitingWrite { text: Seq<char>, via: Via },
    Finished,
}

impl View for TaskState {
    type V = TaskStateView;

    open spec fn view(&self) -> TaskStateView {
        match *self {
            TaskState::AwaitingExact => TaskStateView::AwaitingExact,
            TaskState::AwaitingFuzzy => TaskStateView::AwaitingFuzzy,
            TaskState::AwaitingProbe { text, via } => TaskStateView::AwaitingProbe { text: text@, via },
            TaskState::AwaitingWrite { text, via } => TaskStateView::AwaitingWrite { text: text@, via },
            TaskState::Finished => TaskStateView::Finished,
        }
    }
}

/// What happened outside since the last action.
#[derive(Clone, Debug, PartialEq, Eq)]
pub enum Event {
    ExactReplied(ExactReply),
    FuzzyReplied(FuzzyReply),
    /// Whether the lyrics file is there already.
    SidecarProbed { present: bool },
    SidecarWritten,
}

/// What an `Event` holds, as plain values.
pub enum EventView {
    ExactReplied(ExactReplyView),
    FuzzyReplied(FuzzyReplyView),
    SidecarProbed { present: bool },
    SidecarWritten,
}

impl View for Event {
    type V = EventView;

    open spec fn view(&self) -> EventView {
        match *self {
            Event::ExactReplied(reply) => EventView::ExactReplied(reply@),
            Event::FuzzyReplied(reply) => EventView::FuzzyReplied(reply@),
            Event::SidecarProbed { present } => EventView::SidecarProbed { present },
            Event::SidecarWritten => EventView::SidecarWritten,
        }
    }
}

/// What is to be done next for a track.
#[derive(Clone, Debug, PartialEq, Eq)]
pub enum Action {
    /// Send a GET request to `url`; the reply is that of lookup `stage`.
    Request { url: String, stage: Via },
    /// See whether a file exists at `path`.
    ProbeSidecar { path: Vec<String> },
    /// Create or truncate the file at `path` and write `text` to it.
    WriteSidecar { path: Vec<String>, text: String },
    /// The work is over.
    Report(ResolutionOutcome),
}

/// What an `Action` holds, as plain values.
pub enum ActionView {
    Request { url: Seq<char>, stage: Via },
    ProbeSidecar { path: Seq<Seq<char>> },
    WriteSidecar { path: Seq<Seq<char>>, text: Seq<char> },
    Report(ResolutionOutcomeView),
}

impl View for Action {
    type V = ActionView;

    open spec fn view(&self) -> ActionView {
        match *self {
            Action::Request { url, stage } => ActionView::Request { url: url@, stage },
            Action::ProbeSidecar { path } => ActionView::ProbeSidecar { path: names_of(path@) },
            Action::WriteSidecar { path, text } => ActionView::WriteSidecar {
                path: names_of(path@),
                text: text@,
            },
            Action::Report(outcome) => ActionView::Report(outcome@),
        }
    }
}

/// The work on one track: what is known of the track, and where the work
/// stands.
#[derive(Clone, Debug, PartialEq, Eq)]
pub struct ResolutionTask {
    pub music_dir: Vec<String>,
    pub location: TrackLocation,
    pub query: LyricsQuery,
    pub allow_plain: bool,
    pub overwrite: bool,
    pub state: TaskState,
}

/// What a `ResolutionTask` holds, as plain values.
pub struct ResolutionTaskView {
    pub music_dir: Seq<Seq<char>>,
    pub location: TrackLocationView,
    pub query: LyricsQueryView,
    pub allow_plain: bool,
    pub overwrite: bool,
    pub state: TaskStateView,
}

impl View for ResolutionTask {
    type V = ResolutionTaskView;

    open spec fn view(&self) -> ResolutionTaskView {
        ResolutionTaskView {
            music_dir: names_of(self.music_dir@),
            location: self.location@,
            query: self.query@,
            allow_plain: self.allow_plain,
            overwrite: self.overwrite,
            state: self.state@,
        }
    }
}

impl ResolutionTaskView {
    /// The query is the one for the track, and the track's location is
    /// sound.
    pub open spec fn wf(self) -> bool {
        self.location.wf() && self.query == query_for(self.location, self.query.duration_seconds)
    }
}

/// The task for a track as it begins: waiting for the exact lookup.
pub open spec fn initial_task(
    music_dir: Seq<Seq<char>>,
    location: TrackLocationView,
    duration_seconds: nat,
    allow_plain: bool,
    overwrite: bool,
) -> ResolutionTaskView {
    ResolutionTaskView {
        music_dir,
        location,
        query: query_for(location, duration_seconds),
        allow_plain,
        overwrite,
        state: TaskStateView::AwaitingExact,
    }
}

/// The first action of a task: the exact lookup.
pub open spec fn initial_action(task: ResolutionTaskView) -> ActionView {
    ActionView::Request { url: exact_url(task.query), stage: Via::Exact }
}

/// The state that follows, and the action that is due, where `event`
/// happens to `task`. `None` where the task is not waiting for that event.
pub open spec fn transition(task: ResolutionTaskView, event: EventView) -> Option<
    (TaskStateView, ActionView),
> {
    let sidecar = sidecar_of(task.music_dir, task.location);
    match (task.state, event) {
        (TaskStateView::AwaitingExact, EventView::ExactReplied(reply)) => Some(
            match exact_verdict_of(reply, task.allow_plain) {
                Some(text) => (
                    TaskStateView::AwaitingProbe { text, via: Via::Exact },
                    ActionView::ProbeSidecar { path: sidecar },
                ),
                None => (
                    TaskStateView::AwaitingFuzzy,
                    ActionView::Request { url: fuzzy_url(task.query), stage: Via::Fuzzy },
                ),
            },
        ),
        (TaskStateView::AwaitingFuzzy, EventView::FuzzyReplied(reply)) => Some(
            match fuzzy_verdict_of(reply, task.allow_plain) {
                Ok(text) => (
                    TaskStateView::AwaitingProbe { text, via: Via::Fuzzy },
                    ActionView::ProbeSidecar { path: sidecar },
                ),
                Err(reason) => (
                    TaskStateView::Finished,
                    ActionView::Report(ResolutionOutcomeView::Failed { reason }),
                ),
            },
        ),
        (TaskStateView::AwaitingProbe { text, via }, EventView::SidecarProbed { present }) => Some(
            if should_write(present, task.overwrite) {
                (
                    TaskStateView::AwaitingWrite { text, via },
                    ActionView::WriteSidecar { path: sidecar, text },
                )
            } else {
                (
                    TaskStateView::Finished,
                    ActionView::Report(
                        ResolutionOutcomeView::Skipped { reason: SkipReason::AlreadyExists },
                    ),
                )
            },
        ),
        (TaskStateView::AwaitingWrite { text, via }, EventView::SidecarWritten) => Some(
            (TaskStateView::Finished, ActionView::Report(ResolutionOutcomeView::Saved { text, via })),
        ),
        _ => None,
    }
}

impl ResolutionTask {
    /// Begins the work on a track and says what to do first.
    pub fn start(
        music_dir: Vec<String>,
        location: TrackLocation,
        duration_seconds: u64,
        allow_plain: bool,
        overwrite: bool,
    ) -> (begun: (ResolutionTask, Action))
        ensures
            location@.wf() ==> begun.0@.wf(),
            begun.0@ == initial_task(
                names_of(music_dir@),
                location@,
                duration_seconds as nat,
                allow_plain,
                overwrite,
            ),
            begun.1@ == initial_action(begun.0@),
    {
        let query = LyricsQuery::new(&location, duration_seconds);
        let url = query.exact_search_url();
        let task = ResolutionTask {
            music_dir,
            location,
            query,
            allow_plain,
            overwrite,
            state: TaskState::AwaitingExact,
        };
        (task, Action::Request { url, stage: Via::Exact })
    }

    /// Takes in what happened and says what to do next. An event that the
    /// task is not waiting for is answered with `None` and changes nothing.
    pub fn step(&mut self, event: Event) -> (action: Option<Action>)
        ensures
            match transition(old(self)@, event@) {
                Some((state, due)) => {
                    &&& action matches Some(a) && a@ == due
                    &&& final(self)@ == (ResolutionTaskView { state, ..old(self)@ })
                },
                None => action is None && *final(self) == *old(self),
            },
    {
        let next: Option<(TaskState, Action)> = match event {
            Event::ExactReplied(reply) => match &self.state {
                TaskState::AwaitingExact => match exact_verdict(&reply, self.allow_plain) {
                    Some(text) => Some(
                        (
                            TaskState::AwaitingProbe { text, via: Via::Exact },
                            Action::ProbeSidecar {
                                path: sidecar_path(&self.music_dir, &self.location),
                            },
                        ),
                    ),
                    None => Some(
                        (
                            TaskState::AwaitingFuzzy,
                            Action::Request { url: self.query.fuzzy_search_url(), stage: Via::Fuzzy },
                        ),
                    ),
                },
                _ => None,
            },
            Event::FuzzyReplied(reply) => match &self.state {
                TaskState::AwaitingFuzzy => match fuzzy_verdict(&reply, self.allow_plain) {
                    Ok(text) => Some(
                        (
                            TaskState::AwaitingProbe { text, via: Via::Fuzzy },
                            Action::ProbeSidecar {
                                path: sidecar_path(&self.music_dir, &self.location),
                            },
                        ),
                    ),
                    Err(reason) => Some(
                        (TaskState::Finished, Action::Report(ResolutionOutcome::Failed { reason })),
                    ),
                },
                _ => None,
            },
            Event::SidecarProbed { present } => match &self.state {
                TaskState::AwaitingProbe { text, via } => if persist_decision(
                    present,
                    self.overwrite,
                ) {
                    Some(
                        (
                            TaskState::AwaitingWrite { text: text.clone(), via: *via },
                            Action::WriteSidecar {
                                path: sidecar_path(&self.music_dir, &self.location),
                                text: text.clone(),
                            },
                        ),
                    )
                } else {
                    Some(
                        (
                            TaskState::Finished,
                            Action::Report(
                                ResolutionOutcome::Skipped { reason: SkipReason::AlreadyExists },
                            ),
                        ),
                    )
                },
                _ => None,
            },
            Event::SidecarWritten => match &self.state {
                TaskState::AwaitingWrite { text, via } => Some(
                    (
                        TaskState::Finished,
                        Action::Report(ResolutionOutcome::Saved { text: text.clone(), via: *via }),
                    ),
                ),
                _ => None,
            },
        };
        match next {
            Some((state, action)) => {
                self.state = state;
                Some(action)
            },
            None => None,
        }
    }
}

/// A sound task stays sound: an event changes where the work stands and
/// nothing else.
pub proof fn lemma_step_keeps_the_track(task: ResolutionTaskView, event: EventView)
    requires
        task.wf(),
    ensures
        match transition(task, event) {
            Some((state, _)) => (ResolutionTaskView { state, ..task }).wf(),
            None => true,
        },
{
}

/// How many events a task in `state` can still take.
pub open spec fn steps_left(state: TaskStateView) -> nat {
    match state {
        TaskStateView::AwaitingExact => 4,
        TaskStateView::AwaitingFuzzy => 3,
        TaskStateView::AwaitingProbe { .. } => 2,
        TaskStateView::AwaitingWrite { .. } => 1,
        TaskStateView::Finished => 0,
    }
}

/// Where a lookup that is awaited gives `reply` without usable lyrics under
/// the task's policy, the search is asked for next. A record that has only
/// plain lyrics, while plain lyrics are not accepted, is such a reply; so
/// is every reply that is no record.
pub proof fn lemma_exact_falls_back(task: ResolutionTaskView, reply: ExactReplyView)
    requires
        task.state == TaskStateView::AwaitingExact,
        match reply {
            ExactReplyView::Found(c) => c.synced_lyrics is None && (task.allow_plain
                ==> c.plain_lyrics is None),
            _ => true,
        },
    ensures
        transition(task, EventView::ExactReplied(reply)) == Some(
            (
                TaskStateView::AwaitingFuzzy,
                ActionView::Request { url: fuzzy_url(task.query), stage: Via::Fuzzy },
            ),
        ),
{
}

/// A lookup that is awaited and returns a record with synced lyrics leads
/// to those lyrics, tagged as found by the exact lookup, whatever the
/// policy on plain lyrics is and whatever else the record holds.
pub proof fn lemma_exact_accepts_synced(task: ResolutionTaskView, c: CandidateView)
    requires
        task.state == TaskStateView::AwaitingExact,
        c.synced_lyrics is Some,
    ensures
        transition(task, EventView::ExactReplied(ExactReplyView::Found(c))) == Some(
            (
                TaskStateView::AwaitingProbe { text: c.synced_lyrics->0, via: Via::Exact },
                ActionView::ProbeSidecar { path: sidecar_of(task.music_dir, task.location) },
            ),
        ),
{
}

/// After the search nothing else is tried: a reply without usable lyrics
/// ends the task as failed, with the reason that the reply gives.
pub proof fn lemma_fuzzy_is_final(task: ResolutionTaskView, reply: FuzzyReplyView)
    requires
        task.state == TaskStateView::AwaitingFuzzy,
    ensures
        match transition(task, EventView::FuzzyReplied(reply)) {
            Some((state, due)) => match fuzzy_verdict_of(reply, task.allow_plain) {
                Ok(text) => state == (TaskStateView::AwaitingProbe { text, via: Via::Fuzzy }),
                Err(reason) => state == TaskStateView::Finished && due == ActionView::Report(
                    ResolutionOutcomeView::Failed { reason },
                ),
            },
            None => false,
        },
{
}

/// A lyrics file that exists is left alone unless overwriting is asked for:
/// no event then leads to a write, and the probe's answer ends the task as
/// skipped.
pub proof fn lemma_existing_sidecar_is_kept(task: ResolutionTaskView, event: EventView)
    requires
        !task.overwrite,
        event == (EventView::SidecarProbed { present: true }),
    ensures
        match transition(task, event) {
            Some((state, due)) => state == TaskStateView::Finished && due == ActionView::Report(
                ResolutionOutcomeView::Skipped { reason: SkipReason::AlreadyExists },
            ),
            None => true,
        },
{
}

/// Every event that a task takes brings it nearer to its end, so that no
/// lookup is made twice; and an outcome is reported exactly when the task
/// ends.
pub proof fn lemma_step_makes_progress(task: ResolutionTaskView, event: EventView)
    ensures
        match transition(task, event) {
            Some((state, due)) => {
                &&& steps_left(state) < steps_left(task.state)
                &&& due is Report <==> state == TaskStateView::Finished
            },
            None => true,
        },
{
}

/// A task that has ended takes no further event.
pub proof fn lemma_finished_is_final(task: ResolutionTaskView, event: EventView)
    requires
        task.state == TaskStateView::Finished,
    ensures
        transition(task, event) is None,
{
}

/// Lyrics are reported as saved only once their file has been written, and
/// then with the text that was written.
pub proof fn lemma_saved_follows_write(task: ResolutionTaskView, event: EventView)
    ensures
        match transition(task, event) {
            Some((_, ActionView::Report(ResolutionOutcomeView::Saved { text, via }))) => {
                &&& event == EventView::SidecarWritten
                &&& task.state == (TaskStateView::AwaitingWrite { text, via })
            },
            _ => true,
        },
{
}

} // verus!
