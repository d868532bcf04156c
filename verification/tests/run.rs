use lyricsrs::candidate::Candidate;
use lyricsrs::outcome::{FailReason, ResolutionOutcome, SkipReason, Via};
use lyricsrs::path::TrackLocation;
use lyricsrs::run::{plan_tasks, request_line, saved_line, track_of, RunSummary};
use lyricsrs::reply::{ExactReply, FuzzyReply};
use lyricsrs::task::{Action, Event, ResolutionTask};
use std::collections::BTreeMap;

const SONGS: [&str; 5] = [
    "Taylor Swift/THE TORTURED POETS DEPARTMENT: THE ANTHOLOGY/1. Fortnight (Ft. Post Malone).flac",
    "Taylor Swift/THE TORTURED POETS DEPARTMENT: THE ANTHOLOGY/2. The Tortured Poets Department.mp3",
    "Taylor Swift/THE TORTURED POETS DEPARTMENT: THE ANTHOLOGY/3. My Boy Only Breaks His Favorite Toys.m4a",
    "Taylor Swift/reputation/2. End Game.flac",
    "Lou Reed/The Best of Lou Reed/8. Perfect Day.m4a",
];

const BASE_DIR: &str = "Music";

fn parts(path: &str) -> Vec<String> {
    path.split('/').map(|s| s.to_string()).collect()
}

fn library() -> Vec<Vec<String>> {
    SONGS.iter().map(|song| parts(&format!("{}/{}", BASE_DIR, song))).collect()
}

fn record(title: &str, plain: Option<String>, synced: Option<String>) -> Candidate {
    Candidate {
        id: 1,
        name: title.to_string(),
        track_name: title.to_string(),
        artist_name: String::new(),
        album_name: String::new(),
        duration_seconds: 0,
        instrumental: false,
        plain_lyrics: plain,
        synced_lyrics: synced,
    }
}

/// A catalog that has lyrics for every track. The exact lookup finds the
/// tracks of Lou Reed; all others are found only by the search, as the
/// second record of its result. Where `synced` is false the catalog has
/// plain lyrics only.
fn catalog(url: &str, stage: Via, synced: bool) -> Event {
    let text = format!("lyrics from {}", url);
    let candidate = if synced {
        record("found", None, Some(text))
    } else {
        record("found", Some(text), None)
    };
    match stage {
        Via::Exact => {
            if url.contains("artist_name=Lou+Reed&") {
                Event::ExactReplied(ExactReply::Found(candidate))
            } else {
                Event::ExactReplied(ExactReply::NotFound)
            }
        }
        Via::Fuzzy => Event::FuzzyReplied(FuzzyReply::Found(vec![
            record("another", None, None),
            candidate,
        ])),
    }
}

/// Runs the library over `files`, with `disk` holding the lyrics files.
fn run(
    files: &Vec<Vec<String>>,
    allow_plain: bool,
    overwrite: bool,
    synced: bool,
    disk: &mut BTreeMap<String, String>,
) -> String {
    let root = parts(BASE_DIR);
    let mut summary = RunSummary::new();
    for location in plan_tasks(files, &root) {
        let (mut task, mut action) =
            ResolutionTask::start(root.clone(), location, 200, allow_plain, overwrite);
        let outcome = loop {
            let event = match action {
                Action::Request { url, stage } => catalog(&url, stage, synced),
                Action::ProbeSidecar { path } => {
                    Event::SidecarProbed { present: disk.contains_key(&path.join("/")) }
                }
                Action::WriteSidecar { path, text } => {
                    disk.insert(path.join("/"), text);
                    Event::SidecarWritten
                }
                Action::Report(outcome) => break outcome,
            };
            action = task.step(event).unwrap();
        };
        summary.record(&outcome);
    }
    summary.summary_lines().join("\n")
}

fn check_lrcs(disk: &BTreeMap<String, String>) -> bool {
    SONGS.iter().all(|song| {
        let stem = song.split_at(song.rfind(".").unwrap()).0;
        disk.contains_key(&format!("{}/{}.lrc", BASE_DIR, stem))
    })
}

#[test]
fn test_cli() {
    let mut disk = BTreeMap::new();
    let stdout_str = run(&library(), false, false, true, &mut disk);
    let to_find = format!(
        "Successful tasks: {}\nFailed tasks: 0\nTotal tasks: {}",
        SONGS.len(),
        SONGS.len()
    );
    assert!(stdout_str.contains(&to_find));
    assert!(check_lrcs(&disk));
    assert_eq!(disk.len(), SONGS.len());
}

#[test]
fn test_cli_plain_lyrics_allowed() {
    let mut disk = BTreeMap::new();
    let stdout_str = run(&library(), true, false, false, &mut disk);
    let to_find = format!(
        "Successful tasks: {}\nFailed tasks: 0\nTotal tasks: {}",
        SONGS.len(),
        SONGS.len()
    );
    assert!(stdout_str.contains(&to_find));
    assert!(check_lrcs(&disk));
}

#[test]
fn plain_lyrics_alone_fail_every_track_without_permission() {
    let mut disk = BTreeMap::new();
    let report = run(&library(), false, false, false, &mut disk);
    assert_eq!(report, "Successful tasks: 0\nFailed tasks: 5\nTotal tasks: 5");
    assert!(disk.is_empty());
}

#[test]
fn written_text_is_the_chosen_lyrics() {
    let mut disk = BTreeMap::new();
    run(&library(), false, false, true, &mut disk);
    assert_eq!(
        disk["Music/Lou Reed/The Best of Lou Reed/8. Perfect Day.lrc"],
        "lyrics from http://lrclib.net/api/get?track_name=Perfect+Day&artist_name=Lou+Reed&album_name=The+Best+of+Lou+Reed&duration=200"
    );
    assert_eq!(
        disk["Music/Taylor Swift/reputation/2. End Game.lrc"],
        "lyrics from http://lrclib.net/api/search?q=reputation+Taylor+Swift+End+Game"
    );
}

#[test]
fn second_run_leaves_the_files_of_the_first() {
    let mut disk = BTreeMap::new();
    run(&library(), false, false, true, &mut disk);
    let first = disk.clone();
    // The catalog now has other lyrics for every track.
    let report = run(&library(), true, false, false, &mut disk);
    assert_eq!(disk, first);
    assert_eq!(report, "Successful tasks: 5\nFailed tasks: 0\nTotal tasks: 5");
}

#[test]
fn second_run_with_overwrite_replaces_the_files() {
    let mut disk = BTreeMap::new();
    run(&library(), true, false, false, &mut disk);
    let first = disk.clone();
    let report = run(&library(), true, true, false, &mut disk);
    assert_eq!(disk, first);
    assert_eq!(report, "Successful tasks: 5\nFailed tasks: 0\nTotal tasks: 5");
    disk.insert(
        "Music/Taylor Swift/reputation/2. End Game.lrc".to_string(),
        "stale".to_string(),
    );
    run(&library(), true, true, false, &mut disk);
    assert_eq!(disk, first);
}

#[test]
fn misplaced_files_are_not_counted() {
    let mut files = library();
    files.push(parts("Music/in the root.mp3"));
    files.push(parts("Music/Lou Reed/in the artist directory.mp3"));
    files.push(parts("Music/Lou Reed/The Best of Lou Reed/CD1/four levels deep.mp3"));
    files.push(parts("Elsewhere/Lou Reed/The Best of Lou Reed/outside.mp3"));
    let mut disk = BTreeMap::new();
    let report = run(&files, false, false, true, &mut disk);
    assert_eq!(report, "Successful tasks: 5\nFailed tasks: 0\nTotal tasks: 5");
    assert_eq!(disk.len(), 5);
}

#[test]
fn files_that_are_no_audio_are_not_counted() {
    let mut files = library();
    files.push(parts("Music/Lou Reed/The Best of Lou Reed/cover.jpg"));
    files.push(parts("Music/Lou Reed/The Best of Lou Reed/8. Perfect Day.lrc"));
    files.push(parts("Music/Lou Reed/The Best of Lou Reed/LOUD.MP3"));
    assert_eq!(plan_tasks(&files, &parts("Music")).len(), 5);
}

#[test]
fn plan_keeps_the_order_of_the_files() {
    let files = vec![
        parts("Music/b/x/2.mp3"),
        parts("Music/readme.txt"),
        parts("Music/a/y/1.ogg"),
        parts("Music/a/y/z/3.ogg"),
    ];
    let planned = plan_tasks(&files, &parts("Music"));
    assert_eq!(
        planned,
        vec![
            TrackLocation {
                artist: "b".to_string(),
                album: "x".to_string(),
                song_stem: "2".to_string(),
                relative_audio_path: parts("b/x/2.mp3"),
            },
            TrackLocation {
                artist: "a".to_string(),
                album: "y".to_string(),
                song_stem: "1".to_string(),
                relative_audio_path: parts("a/y/1.ogg"),
            },
        ]
    );
}

#[test]
fn plan_of_no_files() {
    assert_eq!(plan_tasks(&Vec::new(), &parts("Music")), Vec::new());
}

#[test]
fn track_of_one_file() {
    let root = parts("Music");
    assert!(track_of(&parts("Music/a/b/c.wav"), &root).is_some());
    assert_eq!(track_of(&parts("Music/a/b/c.txt"), &root), None);
    assert_eq!(track_of(&parts("Music/a/c.wav"), &root), None);
    assert_eq!(track_of(&Vec::new(), &root), None);
    assert_eq!(track_of(&Vec::new(), &Vec::new()), None);
}

#[test]
fn summary_starts_at_zero() {
    let summary = RunSummary::new();
    assert_eq!((summary.succeeded(), summary.failed(), summary.total()), (0, 0, 0));
    assert_eq!(
        summary.summary_lines(),
        vec!["Successful tasks: 0", "Failed tasks: 0", "Total tasks: 0"]
    );
}

#[test]
fn summary_counts_each_outcome_once() {
    let mut summary = RunSummary::new();
    summary.record(&ResolutionOutcome::Saved { text: "a".to_string(), via: Via::Exact });
    summary.record(&ResolutionOutcome::Saved { text: "b".to_string(), via: Via::Fuzzy });
    summary.record(&ResolutionOutcome::Failed { reason: FailReason::NoLyrics });
    summary.record(&ResolutionOutcome::Failed { reason: FailReason::ParseError });
    summary.record(&ResolutionOutcome::Failed { reason: FailReason::TransportError });
    summary.record(&ResolutionOutcome::Skipped { reason: SkipReason::AlreadyExists });
    assert_eq!((summary.succeeded(), summary.failed(), summary.total()), (3, 3, 6));
    assert_eq!(
        summary.summary_lines(),
        vec!["Successful tasks: 3", "Failed tasks: 3", "Total tasks: 6"]
    );
}

#[test]
fn summary_counts_do_not_depend_on_the_order() {
    let saved = ResolutionOutcome::Saved { text: "a".to_string(), via: Via::Exact };
    let failed = ResolutionOutcome::Failed { reason: FailReason::NoLyrics };
    let mut one = RunSummary::new();
    one.record(&saved);
    one.record(&failed);
    let mut other = RunSummary::new();
    other.record(&failed);
    other.record(&saved);
    assert_eq!(one, other);
}

#[test]
fn aborted_task_counts_as_failed() {
    let mut summary = RunSummary::new();
    summary.record_aborted();
    assert_eq!((summary.succeeded(), summary.failed(), summary.total()), (0, 1, 1));
}

#[test]
fn summary_with_many_tasks() {
    let mut summary = RunSummary::new();
    for _ in 0..1234 {
        summary.record(&ResolutionOutcome::Saved { text: String::new(), via: Via::Exact });
    }
    assert_eq!(
        summary.summary_lines(),
        vec!["Successful tasks: 1234", "Failed tasks: 0", "Total tasks: 1234"]
    );
}

#[test]
fn report_lines() {
    assert_eq!(
        request_line(Via::Exact, "http://lrclib.net/api/get?track_name=Asja"),
        "[exact_search] requesting: http://lrclib.net/api/get?track_name=Asja"
    );
    assert_eq!(
        request_line(Via::Fuzzy, "http://lrclib.net/api/search?q=Asja"),
        "[fuzzy_search] requesting: http://lrclib.net/api/search?q=Asja"
    );
    assert_eq!(
        saved_line("01 - Asja", "Music/Kino/Noch/01 - Asja.lrc"),
        "Saved lyrics for 01 - Asja to Music/Kino/Noch/01 - Asja.lrc"
    );
}
