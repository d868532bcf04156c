//! Track identity from the place of an audio file under the library root.
//!
//! A path is held as the list of its components, outermost first.

use vstd::prelude::*;
use vstd::string::StringExecFns;
use crate::text::{chars_of, string_of};

verus! {

/// Where a track lies in the library: `root/artist/album/file`.
#[derive(Clone, Debug, PartialEq, Eq)]
pub struct TrackLocation {
    pub artist: String,
    pub album: String,
    /// The file name without its extension.
    pub song_stem: String,
    /// Artist, album and file name: the audio file's path below the root.
    pub relative_audio_path: Vec<String>,
}

/// What a `TrackLocation` holds, as plain values.
pub struct TrackLocationView {
    pub artist: Seq<char>,
    pub album: Seq<char>,
    pub song_stem: Seq<char>,
    pub relative_audio_path: Seq<Seq<char>>,
}

impl TrackLocationView {
    /// The path below the root is artist, album and a file name, and the
    /// song stem is that file name's.
    pub open spec fn wf(self) -> bool {
        &&& self.relative_audio_path.len() == 3
        &&& self.relative_audio_path[0] == self.artist
        &&& self.relative_audio_path[1] == self.album
        &&& stem_of(self.relative_audio_path[2]) == self.song_stem
    }
}

/// The text of each component of a path.
pub open spec fn names_of(path: Seq<String>) -> Seq<Seq<char>> {
    path.map_values(|s: String| s@)
}

impl View for TrackLocation {
    type V = TrackLocationView;

    open spec fn view(&self) -> TrackLocationView {
        TrackLocationView {
            artist: self.artist@,
            album: self.album@,
            song_stem: self.song_stem@,
            relative_audio_path: names_of(self.relative_audio_path@),
        }
    }
}

/// The index of the last `.` in `name`, or -1 where it has none.
pub open spec fn last_dot(name: Seq<char>) -> int
    decreases name.len(),
{
    if name.len() == 0 {
        -1
    } else if name.last() == '.' {
        name.len() - 1
    } else {
        last_dot(name.drop_last())
    }
}

/// A file name without its extension: what stands before the last `.`. A
/// name without a `.`, or whose only `.` is its first character, is its own
/// stem.
pub open spec fn stem_of(name: Seq<char>) -> Seq<char> {
    if last_dot(name) <= 0 {
        name
    } else {
        name.take(last_dot(name))
    }
}

/// Whether `s` ends with `suffix`.
pub open spec fn ends_with(s: Seq<char>, suffix: Seq<char>) -> bool {
    suffix.len() <= s.len() && s.skip(s.len() - suffix.len()) == suffix
}

/// The endings by which an audio file is known.
pub open spec fn audio_extensions() -> Seq<Seq<char>> {
    seq![
        ".mp3"@,
        ".flac"@,
        ".ogg"@,
        ".wav"@,
        ".aac"@,
        ".m4a"@,
        ".wma"@,
        ".opus"@,
        ".ape"@,
    ]
}

/// Whether a file name ends with one of the audio extensions, letter case
/// included.
pub open spec fn has_audio_extension(name: Seq<char>) -> bool {
    exists|i: int| 0 <= i < audio_extensions().len() && ends_with(name, #[trigger] audio_extensions()[i])
}

/// Whether `file` lies exactly three levels below `root`: in an album
/// directory, in an artist directory, in the root.
pub open spec fn is_track_path(file: Seq<Seq<char>>, root: Seq<Seq<char>>) -> bool {
    file.len() == root.len() + 3 && file.take(root.len() as int) == root
}

/// The location that a track path stands for.
pub open spec fn location_of(file: Seq<Seq<char>>, root: Seq<Seq<char>>) -> TrackLocationView {
    let n = root.len() as int;
    TrackLocationView {
        artist: file[n],
        album: file[n + 1],
        song_stem: stem_of(file[n + 2]),
        relative_audio_path: file.skip(n),
    }
}

/// The lyrics file that belongs to a track: beside the audio file, named by
/// the song stem with the extension `.lrc`.
pub open spec fn sidecar_of(root: Seq<Seq<char>>, location: TrackLocationView) -> Seq<Seq<char>> {
    root + seq![location.artist, location.album, location.song_stem + ".lrc"@]
}

fn tail_matches(chars: &Vec<char>, suffix: &str) -> (r: bool)
    ensures
        r == ends_with(chars@, suffix@),
{
    let tail = chars_of(suffix);
    let n = chars.len();
    let m = tail.len();
    if m > n {
        return false;
    }
    let start = n - m;
    let mut i: usize = 0;
    while i < m
        invariant
            i <= m,
            m == tail.len(),
            n == chars.len(),
            start == n - m,
            tail@ == suffix@,
            forall|j: int| 0 <= j < i ==> chars@[start + j] == tail@[j],
        decreases m - i,
    {
        if chars[start + i] != tail[i] {
            assert(chars@.skip(start as int)[i as int] != tail@[i as int]);
            return false;
        }
        i += 1;
    }
    assert(chars@.skip(start as int) =~= tail@);
    true
}

/// Whether the file name marks an audio file.
pub fn is_audio_file(name: &str) -> (r: bool)
    ensures
        r == has_audio_extension(name@),
{
    let chars = chars_of(name);
    let r = tail_matches(&chars, ".mp3") || tail_matches(&chars, ".flac") || tail_matches(
        &chars,
        ".ogg",
    ) || tail_matches(&chars, ".wav") || tail_matches(&chars, ".aac") || tail_matches(
        &chars,
        ".m4a",
    ) || tail_matches(&chars, ".wma") || tail_matches(&chars, ".opus") || tail_matches(
        &chars,
        ".ape",
    );
    proof {
        let exts = audio_extensions();
        if r {
            assert(ends_with(name@, exts[0]) || ends_with(name@, exts[1]) || ends_with(
                name@,
                exts[2],
            ) || ends_with(name@, exts[3]) || ends_with(name@, exts[4]) || ends_with(
                name@,
                exts[5],
            ) || ends_with(name@, exts[6]) || ends_with(name@, exts[7]) || ends_with(
                name@,
                exts[8],
            ));
        }
    }
    r
}

/// The file name without its extension.
pub fn file_stem(name: &str) -> (stem: String)
    ensures
        stem@ == stem_of(name@),
{
    let chars = chars_of(name);
    let mut end: usize = chars.len();
    assert(chars@.take(end as int) =~= chars@);
    while end > 0 && chars[end - 1] != '.'
        invariant
            end <= chars.len(),
            last_dot(chars@) == last_dot(chars@.take(end as int)),
        decreases end,
    {
        proof {
            assert(chars@.take(end as int).drop_last() =~= chars@.take(end - 1));
        }
        end -= 1;
    }
    // `end` is one past the last dot, or zero where there is none.
    if end <= 1 {
        return string_of(&chars);
    }
    let mut stem: Vec<char> = Vec::new();
    let mut i: usize = 0;
    while i < end - 1
        invariant
            i <= end - 1,
            end <= chars.len(),
            stem@ == chars@.take(i as int),
        decreases end - 1 - i,
    {
        stem.push(chars[i]);
        proof {
            assert(chars@.take(i as int).push(chars@[i as int]) =~= chars@.take(i + 1));
        }
        i += 1;
    }
    string_of(&stem)
}

/// Reads the track's identity off the path of an audio file. The file must
/// lie in an album directory, in an artist directory, in the library root:
/// a file at any other depth, or outside the root, has no location.
pub fn parse_song_path(file_path: &Vec<String>, music_dir: &Vec<String>) -> (location: Option<
    TrackLocation,
>)
    ensures
        location is Some <==> is_track_path(names_of(file_path@), names_of(music_dir@)),
        location matches Some(l) ==> l@ == location_of(names_of(file_path@), names_of(music_dir@))
            && l@.wf(),
{
    let ghost file = names_of(file_path@);
    let ghost root = names_of(music_dir@);
    let n = music_dir.len();
    if file_path.len() < 3 || file_path.len() - 3 != n {
        return None;
    }
    let mut i: usize = 0;
    while i < n
        invariant
            i <= n,
            n == music_dir.len(),
            file_path.len() == n + 3,
            file == names_of(file_path@),
            root == names_of(music_dir@),
            forall|j: int| 0 <= j < i ==> file[j] == root[j],
        decreases n - i,
    {
        if !(file_path[i] == music_dir[i]) {
            assert(file.take(n as int)[i as int] != root[i as int]);
            return None;
        }
        i += 1;
    }
    assert(file.take(n as int) =~= root);
    let artist = file_path[n].clone();
    let album = file_path[n + 1].clone();
    let song_stem = file_stem(file_path[n + 2].as_str());
    let mut relative_audio_path: Vec<String> = Vec::new();
    relative_audio_path.push(file_path[n].clone());
    relative_audio_path.push(file_path[n + 1].clone());
    relative_audio_path.push(file_path[n + 2].clone());
    assert(names_of(relative_audio_path@) =~= file.skip(n as int));
    Some(TrackLocation { artist, album, song_stem, relative_audio_path })
}

/// The path of the lyrics file for a track: in the album directory, named
/// by the song stem as the file has it, with the extension `.lrc`.
pub fn sidecar_path(music_dir: &Vec<String>, location: &TrackLocation) -> (path: Vec<String>)
    ensures
        names_of(path@) == sidecar_of(names_of(music_dir@), location@),
{
    let mut path: Vec<String> = Vec::new();
    let mut i: usize = 0;
    while i < music_dir.len()
        invariant
            i <= music_dir.len(),
            path.len() == i,
            forall|j: int| 0 <= j < i ==> path@[j]@ == music_dir@[j]@,
        decreases music_dir.len() - i,
    {
        path.push(music_dir[i].clone());
        i += 1;
    }
    let mut file_name = location.song_stem.clone();
    file_name.append(".lrc");
    path.push(location.artist.clone());
    path.push(location.album.clone());
    path.push(file_name);
    proof {
        let got = names_of(path@);
        let want = sidecar_of(names_of(music_dir@), location@);
        assert(got.len() == want.len());
        assert forall|j: int| 0 <= j < got.len() implies got[j] == want[j] by {
            assert(got[j] == path@[j]@);
        }
        assert(got =~= want);
    }
    path
}

/// The location of a track path names the file: the root followed by the
/// location's path below it is the file's path again, with artist and
/// album as the directories are named.
pub proof fn lemma_location_names_the_file(file: Seq<Seq<char>>, root: Seq<Seq<char>>)
    requires
        is_track_path(file, root),
    ensures
        location_of(file, root).wf(),
        root + location_of(file, root).relative_audio_path == file,
{
    let n = root.len() as int;
    assert(file.take(n) + file.skip(n) =~= file);
}

/// The lyrics file lies in the directory of the audio file, and its name is
/// the song stem followed by `.lrc`.
pub proof fn lemma_sidecar_is_beside_the_file(file: Seq<Seq<char>>, root: Seq<Seq<char>>)
    requires
        is_track_path(file, root),
    ensures
        sidecar_of(root, location_of(file, root)).len() == file.len(),
        sidecar_of(root, location_of(file, root)).drop_last() == file.drop_last(),
        sidecar_of(root, location_of(file, root)).last() == stem_of(file.last()) + ".lrc"@,
{
    let n = root.len() as int;
    let sidecar = sidecar_of(root, location_of(file, root));
    assert(file.take(n) + file.skip(n) =~= file);
    assert(sidecar.drop_last() =~= file.drop_last());
}

/// A stem holds the whole name or a proper start of it that ends before a
/// `.`; in the second case no `.` follows in the name.
pub proof fn lemma_stem_is_a_prefix(name: Seq<char>)
    ensures
        stem_of(name).len() <= name.len(),
        stem_of(name) == name.take(stem_of(name).len() as int),
        stem_of(name).len() < name.len() ==> {
            &&& name[stem_of(name).len() as int] == '.'
            &&& forall|i: int| stem_of(name).len() < i < name.len() ==> name[i] != '.'
        },
{
    lemma_last_dot(name);
    assert(name.take(name.len() as int) =~= name);
}

proof fn lemma_last_dot(name: Seq<char>)
    ensures
        -1 <= last_dot(name) < name.len(),
        last_dot(name) >= 0 ==> name[last_dot(name)] == '.',
        forall|i: int| last_dot(name) < i < name.len() ==> name[i] != '.',
    decreases name.len(),
{
    if name.len() > 0 && name.last() != '.' {
        let shorter = name.drop_last();
        lemma_last_dot(shorter);
        assert forall|i: int| last_dot(name) < i < name.len() implies name[i] != '.' by {
            if i < shorter.len() {
                assert(shorter[i] == name[i]);
            }
        }
    }
}

} // verus!
