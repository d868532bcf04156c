//! A run over the whole library: which files become tasks, how outcomes
//! are counted, and what is printed.

use vstd::prelude::*;
use vstd::string::StringExecFns;
use crate::outcome::{ResolutionOutcome, ResolutionOutcomeView, Via};
use crate::path::{
    TrackLocation,
    TrackLocationView,
    has_audio_extension,
    is_audio_file,
    is_track_path,
    location_of,
    names_of,
    parse_song_path,
};
use crate::text::{decimal, decimal_string};

verus! {

/// The text of each component of each path.
pub open spec fn paths_of(files: Seq<Vec<String>>) -> Seq<Seq<Seq<char>>> {
    files.map_values(|f: Vec<String>| names_of(f@))
}

/// Each location as plain values.
pub open spec fn locations_of(locations: Seq<TrackLocation>) -> Seq<TrackLocationView> {
    locations.map_values(|l: TrackLocation| l@)
}

/// Whether a file becomes a task: it lies three levels below the root and
/// its name marks it as audio.
pub open spec fn is_track_file(file: Seq<Seq<char>>, root: Seq<Seq<char>>) -> bool {
    is_track_path(file, root) && has_audio_extension(file.last())
}

/// The tracks among `files`, in the order of `files`.
pub open spec fn planned(files: Seq<Seq<Seq<char>>>, root: Seq<Seq<char>>) -> Seq<
    TrackLocationView,
>
    decreases files.len(),
{
    if files.len() == 0 {
        Seq::empty()
    } else if is_track_file(files.last(), root) {
        planned(files.drop_last(), root).push(location_of(files.last(), root))
    } else {
        planned(files.drop_last(), root)
    }
}

/// The track that a file under the root stands for, if it is one.
pub fn track_of(file_path: &Vec<String>, music_dir: &Vec<String>) -> (location: Option<
    TrackLocation,
>)
    ensures
        location is Some <==> is_track_file(names_of(file_path@), names_of(music_dir@)),
        location matches Some(l) ==> l@ == location_of(names_of(file_path@), names_of(music_dir@)),
{
    if file_path.len() == 0 {
        return None;
    }
    let name = &file_path[file_path.len() - 1];
    assert(names_of(file_path@).last() == name@);
    if !is_audio_file(name.as_str()) {
        return None;
    }
    parse_song_path(file_path, music_dir)
}

/// Picks the files that become tasks, one location for each, in the order
/// in which the files were found.
pub fn plan_tasks(files: &Vec<Vec<String>>, music_dir: &Vec<String>) -> (locations: Vec<
    TrackLocation,
>)
    ensures
        locations_of(locations@) == planned(paths_of(files@), names_of(music_dir@)),
{
    let ghost all = paths_of(files@);
    let ghost root = names_of(music_dir@);
    let mut locations: Vec<TrackLocation> = Vec::new();
    let mut i: usize = 0;
    assert(all.take(0) =~= Seq::empty());
    while i < files.len()
        invariant
            i <= files.len(),
            all == paths_of(files@),
            root == names_of(music_dir@),
            locations_of(locations@) =~= planned(all.take(i as int), root),
        decreases files.len() - i,
    {
        let ghost before = locations_of(locations@);
        assert(all.take(i + 1).drop_last() =~= all.take(i as int));
        assert(all.take(i + 1).last() == names_of(files@[i as int]@));
        match track_of(&files[i], music_dir) {
            Some(location) => {
                locations.push(location);
                assert(locations_of(locations@) =~= before.push(location@));
            },
            None => {},
        }
        i += 1;
    }
    assert(all.take(files.len() as int) =~= all);
    locations
}

/// The counts of a run.
#[derive(Clone, Copy, Debug, PartialEq, Eq)]
pub struct RunSummary {
    succeeded: u64,
    failed: u64,
    total: u64,
}

/// What a `RunSummary` holds, as plain values.
pub struct RunSummaryView {
    pub succeeded: nat,
    pub failed: nat,
    pub total: nat,
}

impl View for RunSummary {
    type V = RunSummaryView;

    closed spec fn view(&self) -> RunSummaryView {
        RunSummaryView {
            succeeded: self.succeeded as nat,
            failed: self.failed as nat,
            total: self.total as nat,
        }
    }
}

/// Whether an outcome counts as a success. A track whose lyrics file was
/// there already has what the run is for, and counts as one.
pub open spec fn is_success(outcome: ResolutionOutcomeView) -> bool {
    !(outcome is Failed)
}

/// The counts after one more task, which succeeded or did not.
pub open spec fn counted(summary: RunSummaryView, success: bool) -> RunSummaryView {
    RunSummaryView {
        succeeded: if success {
            summary.succeeded + 1
        } else {
            summary.succeeded
        },
        failed: if success {
            summary.failed
        } else {
            summary.failed + 1
        },
        total: summary.total + 1,
    }
}

/// The counts of a run in which the tasks ended with `outcomes`.
pub open spec fn tally(outcomes: Seq<ResolutionOutcomeView>) -> RunSummaryView
    decreases outcomes.len(),
{
    if outcomes.len() == 0 {
        RunSummaryView { succeeded: 0, failed: 0, total: 0 }
    } else {
        counted(tally(outcomes.drop_last()), is_success(outcomes.last()))
    }
}

/// The lines that close a run's report, but for the time it took.
pub open spec fn summary_text(summary: RunSummaryView) -> Seq<Seq<char>> {
    seq![
        "Successful tasks: "@ + decimal(summary.succeeded),
        "Failed tasks: "@ + decimal(summary.failed),
        "Total tasks: "@ + decimal(summary.total),
    ]
}

impl RunSummary {
    /// Every task is counted once, as succeeded or as failed, and the counts
    /// fit their type.
    pub open spec fn wf(&self) -> bool {
        self@.succeeded + self@.failed == self@.total && self@.total <= u64::MAX
    }

    /// The counts before any task has ended.
    pub fn new() -> (summary: RunSummary)
        ensures
            summary.wf(),
            summary@ == tally(Seq::empty()),
    {
        RunSummary { succeeded: 0, failed: 0, total: 0 }
    }

    pub fn succeeded(&self) -> (n: u64)
        ensures
            n == self@.succeeded,
    {
        self.succeeded
    }

    pub fn failed(&self) -> (n: u64)
        ensures
            n == self@.failed,
    {
        self.failed
    }

    pub fn total(&self) -> (n: u64)
        ensures
            n == self@.total,
    {
        self.total
    }

    /// Counts the end of one task.
    pub fn record(&mut self, outcome: &ResolutionOutcome)
        requires
            old(self).wf(),
            old(self)@.total < u64::MAX,
        ensures
            final(self).wf(),
            final(self)@ == counted(old(self)@, is_success(outcome@)),
    {
        match outcome {
            ResolutionOutcome::Failed { .. } => {
                self.failed = self.failed + 1;
            },
            _ => {
                self.succeeded = self.succeeded + 1;
            },
        }
        self.total = self.total + 1;
    }

    /// Counts a task that broke off before it had an outcome, as failed.
    pub fn record_aborted(&mut self)
        requires
            old(self).wf(),
            old(self)@.total < u64::MAX,
        ensures
            final(self).wf(),
            final(self)@ == counted(old(self)@, false),
    {
        self.failed = self.failed + 1;
        self.total = self.total + 1;
    }

    /// The three lines on the counts that close a run's report.
    pub fn summary_lines(&self) -> (lines: Vec<String>)
        ensures
            names_of(lines@) == summary_text(self@),
    {
        let mut succeeded = String::new();
        succeeded.append("Successful tasks: ");
        succeeded.append(decimal_string(self.succeeded).as_str());
        let mut failed = String::new();
        failed.append("Failed tasks: ");
        failed.append(decimal_string(self.failed).as_str());
        let mut total = String::new();
        total.append("Total tasks: ");
        total.append(decimal_string(self.total).as_str());
        let mut lines: Vec<String> = Vec::new();
        lines.push(succeeded);
        lines.push(failed);
        lines.push(total);
        assert(names_of(lines@) =~= summary_text(self@));
        lines
    }
}

/// The name under which a lookup signs its lines in the report.
pub open spec fn step_name(stage: Via) -> Seq<char> {
    match stage {
        Via::Exact => "[exact_search]"@,
        Via::Fuzzy => "[fuzzy_search]"@,
    }
}

/// The line that announces a request.
pub open spec fn request_text(stage: Via, url: Seq<char>) -> Seq<char> {
    step_name(stage) + " requesting: "@ + url
}

/// The line that tells of a lyrics file that was written.
pub open spec fn saved_text(song_stem: Seq<char>, sidecar: Seq<char>) -> Seq<char> {
    "Saved lyrics for "@ + song_stem + " to "@ + sidecar
}

/// The line to print before a request is sent.
pub fn request_line(stage: Via, url: &str) -> (line: String)
    ensures
        line@ == request_text(stage, url@),
{
    let mut line = String::new();
    match stage {
        Via::Exact => line.append("[exact_search]"),
        Via::Fuzzy => line.append("[fuzzy_search]"),
    }
    line.append(" requesting: ");
    line.append(url);
    line
}

/// The line to print once the lyrics of `song_stem` stand in the file
/// `sidecar`.
pub fn saved_line(song_stem: &str, sidecar: &str) -> (line: String)
    ensures
        line@ == saved_text(song_stem@, sidecar@),
{
    let mut line = String::new();
    line.append("Saved lyrics for ");
    line.append(song_stem);
    line.append(" to ");
    line.append(sidecar);
    line
}

/// A file below the root is a track path exactly when three components
/// lead from the root to it: a file directly in the root, or one nested
/// deeper than artist and album, is none.
pub proof fn lemma_track_path_has_depth_three(root: Seq<Seq<char>>, below: Seq<Seq<char>>)
    ensures
        is_track_path(root + below, root) <==> below.len() == 3,
{
    assert((root + below).take(root.len() as int) =~= root);
}

/// A file that is no track path adds no task to a run, whatever its name.
pub proof fn lemma_misplaced_file_is_no_task(
    files: Seq<Seq<Seq<char>>>,
    file: Seq<Seq<char>>,
    root: Seq<Seq<char>>,
)
    requires
        !is_track_path(file, root),
    ensures
        planned(files.push(file), root) == planned(files, root),
{
    assert(files.push(file).drop_last() =~= files);
}

/// A run has at most one task for each file that was found.
pub proof fn lemma_plan_is_bounded(files: Seq<Seq<Seq<char>>>, root: Seq<Seq<char>>)
    ensures
        planned(files, root).len() <= files.len(),
    decreases files.len(),
{
    if files.len() > 0 {
        lemma_plan_is_bounded(files.drop_last(), root);
    }
}

/// Every outcome is counted once: the total is the number of tasks that
/// ended, and each of them is among the succeeded or among the failed.
pub proof fn lemma_tally_counts_every_task(outcomes: Seq<ResolutionOutcomeView>)
    ensures
        tally(outcomes).total == outcomes.len(),
        tally(outcomes).succeeded + tally(outcomes).failed == tally(outcomes).total,
    decreases outcomes.len(),
{
    if outcomes.len() > 0 {
        lemma_tally_counts_every_task(outcomes.drop_last());
    }
}

/// A run in which no task failed reports all of them as succeeded and none
/// as failed.
pub proof fn lemma_tally_of_successes(outcomes: Seq<ResolutionOutcomeView>)
    requires
        forall|i: int| 0 <= i < outcomes.len() ==> is_success(#[trigger] outcomes[i]),
    ensures
        tally(outcomes) == (RunSummaryView {
            succeeded: outcomes.len(),
            failed: 0,
            total: outcomes.len(),
        }),
    decreases outcomes.len(),
{
    if outcomes.len() > 0 {
        let before = outcomes.drop_last();
        assert forall|i: int| 0 <= i < before.len() implies is_success(#[trigger] before[i]) by {
            assert(before[i] == outcomes[i]);
        }
        lemma_tally_of_successes(before);
        assert(is_success(outcomes[outcomes.len() - 1]));
    }
}

/// The counts do not depend on which of two tasks ends first.
pub proof fn lemma_count_order_is_immaterial(summary: RunSummaryView, first: bool, second: bool)
    ensures
        counted(counted(summary, first), second) == counted(counted(summary, second), first),
{
}

} // verus!
