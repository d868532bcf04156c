//! Catalog records and the policy that picks lyrics from them.

use vstd::prelude::*;

verus! {

/// One record of the lyrics catalog.
#[derive(Clone, Debug, PartialEq, Eq)]
pub struct Candidate {
    pub id: u64,
    pub name: String,
    pub track_name: String,
    pub artist_name: String,
    pub album_name: String,
    pub duration_seconds: u64,
    pub instrumental: bool,
    pub plain_lyrics: Option<String>,
    pub synced_lyrics: Option<String>,
}

/// What a `Candidate` holds, as plain values.
pub struct CandidateView {
    pub id: nat,
    pub name: Seq<char>,
    pub track_name: Seq<char>,
    pub artist_name: Seq<char>,
    pub album_name: Seq<char>,
    pub duration_seconds: nat,
    pub instrumental: bool,
    pub plain_lyrics: Option<Seq<char>>,
    pub synced_lyrics: Option<Seq<char>>,
}

/// The text of an optional string.
pub open spec fn text_of(s: Option<String>) -> Option<Seq<char>> {
    match s {
        Some(t) => Some(t@),
        None => None,
    }
}

impl View for Candidate {
    type V = CandidateView;

    open spec fn view(&self) -> CandidateView {
        CandidateView {
            id: self.id as nat,
            name: self.name@,
            track_name: self.track_name@,
            artist_name: self.artist_name@,
            album_name: self.album_name@,
            duration_seconds: self.duration_seconds as nat,
            instrumental: self.instrumental,
            plain_lyrics: text_of(self.plain_lyrics),
            synced_lyrics: text_of(self.synced_lyrics),
        }
    }
}

/// The records of a list, each as plain values, in the list's order.
pub open spec fn views_of(candidates: Seq<Candidate>) -> Seq<CandidateView> {
    candidates.map_values(|c: Candidate| c@)
}

/// The lyrics that one record offers: its synced lyrics where it has them,
/// else its plain lyrics where those are accepted.
pub open spec fn exact_choice(c: CandidateView, allow_plain: bool) -> Option<Seq<char>> {
    if c.synced_lyrics is Some {
        c.synced_lyrics
    } else if allow_plain {
        c.plain_lyrics
    } else {
        None
    }
}

/// The synced lyrics of the first record that has any.
pub open spec fn first_synced(cs: Seq<CandidateView>) -> Option<Seq<char>>
    decreases cs.len(),
{
    if cs.len() == 0 {
        None
    } else if cs[0].synced_lyrics is Some {
        cs[0].synced_lyrics
    } else {
        first_synced(cs.drop_first())
    }
}

/// The plain lyrics of the first record that has any.
pub open spec fn first_plain(cs: Seq<CandidateView>) -> Option<Seq<char>>
    decreases cs.len(),
{
    if cs.len() == 0 {
        None
    } else if cs[0].plain_lyrics is Some {
        cs[0].plain_lyrics
    } else {
        first_plain(cs.drop_first())
    }
}

/// The lyrics that an ordered list of records offers: the first synced
/// lyrics in it, else the first plain lyrics where those are accepted.
pub open spec fn fuzzy_choice(cs: Seq<CandidateView>, allow_plain: bool) -> Option<Seq<char>> {
    if first_synced(cs) is Some {
        first_synced(cs)
    } else if allow_plain {
        first_plain(cs)
    } else {
        None
    }
}

fn copy_of(s: &Option<String>) -> (out: Option<String>)
    ensures
        text_of(out) == text_of(*s),
{
    match s {
        Some(t) => Some(t.clone()),
        None => None,
    }
}

/// Picks the lyrics of the record that an exact lookup returned. `None`
/// means that the record has nothing acceptable and a broader search is due.
pub fn select_exact(candidate: &Candidate, allow_plain: bool) -> (choice: Option<String>)
    ensures
        text_of(choice) == exact_choice(candidate@, allow_plain),
{
    if candidate.synced_lyrics.is_some() {
        copy_of(&candidate.synced_lyrics)
    } else if allow_plain {
        copy_of(&candidate.plain_lyrics)
    } else {
        None
    }
}

/// Picks the lyrics out of the ordered result of a search. `None` means
/// that no record has anything acceptable.
pub fn select_fuzzy(candidates: &Vec<Candidate>, allow_plain: bool) -> (choice: Option<String>)
    ensures
        text_of(choice) == fuzzy_choice(views_of(candidates@), allow_plain),
{
    let ghost cs = views_of(candidates@);
    let n = candidates.len();
    let mut i: usize = 0;
    assert(cs.skip(0) =~= cs);
    while i < n
        invariant
            i <= n,
            n == candidates.len(),
            cs == views_of(candidates@),
            first_synced(cs) == first_synced(cs.skip(i as int)),
        decreases n - i,
    {
        assert(cs.skip(i as int)[0] == candidates[i as int]@);
        assert(cs.skip(i as int).drop_first() =~= cs.skip(i + 1));
        if candidates[i].synced_lyrics.is_some() {
            return copy_of(&candidates[i].synced_lyrics);
        }
        i += 1;
    }
    if !allow_plain {
        return None;
    }
    let mut j: usize = 0;
    assert(first_synced(cs) is None);
    while j < n
        invariant
            j <= n,
            n == candidates.len(),
            cs == views_of(candidates@),
            allow_plain,
            first_synced(cs) is None,
            first_plain(cs) == first_plain(cs.skip(j as int)),
        decreases n - j,
    {
        assert(cs.skip(j as int)[0] == candidates[j as int]@);
        assert(cs.skip(j as int).drop_first() =~= cs.skip(j + 1));
        if candidates[j].plain_lyrics.is_some() {
            return copy_of(&candidates[j].plain_lyrics);
        }
        j += 1;
    }
    None
}

/// A record that has synced lyrics is answered with them, whether or not
/// plain lyrics are accepted and whether or not it has plain lyrics too.
pub proof fn lemma_synced_takes_precedence(c: CandidateView, allow_plain: bool)
    requires
        c.synced_lyrics is Some,
    ensures
        exact_choice(c, allow_plain) == c.synced_lyrics,
        exact_choice(c, allow_plain) == exact_choice(c, !allow_plain),
{
}

/// A record without synced lyrics is answered with nothing unless plain
/// lyrics are accepted and it has them.
pub proof fn lemma_exact_declines(c: CandidateView, allow_plain: bool)
    requires
        c.synced_lyrics is None,
    ensures
        exact_choice(c, allow_plain) is None <==> !allow_plain || c.plain_lyrics is None,
{
}

/// Where record `k` is the first of the list with synced lyrics, the list
/// is answered with the synced lyrics of record `k`, whatever stands
/// before it and whether or not plain lyrics are accepted.
pub proof fn lemma_first_synced_wins(cs: Seq<CandidateView>, k: int, allow_plain: bool)
    requires
        0 <= k < cs.len(),
        cs[k].synced_lyrics is Some,
        forall|j: int| 0 <= j < k ==> cs[j].synced_lyrics is None,
    ensures
        fuzzy_choice(cs, allow_plain) == cs[k].synced_lyrics,
{
    lemma_first_synced_at(cs, k);
}

proof fn lemma_first_synced_at(cs: Seq<CandidateView>, k: int)
    requires
        0 <= k < cs.len(),
        cs[k].synced_lyrics is Some,
        forall|j: int| 0 <= j < k ==> cs[j].synced_lyrics is None,
    ensures
        first_synced(cs) == cs[k].synced_lyrics,
    decreases k,
{
    if k > 0 {
        let rest = cs.drop_first();
        assert forall|j: int| 0 <= j < k - 1 implies rest[j].synced_lyrics is None by {
            assert(rest[j] == cs[j + 1]);
        }
        assert(cs[0].synced_lyrics is None);
        assert(rest[k - 1] == cs[k]);
        lemma_first_synced_at(rest, k - 1);
    }
}

/// A list in which no record has synced lyrics offers none.
pub proof fn lemma_no_synced(cs: Seq<CandidateView>)
    requires
        forall|j: int| 0 <= j < cs.len() ==> cs[j].synced_lyrics is None,
    ensures
        first_synced(cs) is None,
    decreases cs.len(),
{
    if cs.len() > 0 {
        let rest = cs.drop_first();
        assert forall|j: int| 0 <= j < rest.len() implies rest[j].synced_lyrics is None by {
            assert(rest[j] == cs[j + 1]);
        }
        lemma_no_synced(rest);
    }
}

/// A list in which no record has plain lyrics offers none.
pub proof fn lemma_no_plain(cs: Seq<CandidateView>)
    requires
        forall|j: int| 0 <= j < cs.len() ==> cs[j].plain_lyrics is None,
    ensures
        first_plain(cs) is None,
    decreases cs.len(),
{
    if cs.len() > 0 {
        let rest = cs.drop_first();
        assert forall|j: int| 0 <= j < rest.len() implies rest[j].plain_lyrics is None by {
            assert(rest[j] == cs[j + 1]);
        }
        lemma_no_plain(rest);
    }
}

/// Where no record has synced lyrics and record `k` is the first with plain
/// lyrics, the list is answered with the plain lyrics of record `k` if
/// plain lyrics are accepted, and with nothing if they are not.
pub proof fn lemma_first_plain_is_the_fallback(cs: Seq<CandidateView>, k: int, allow_plain: bool)
    requires
        0 <= k < cs.len(),
        forall|j: int| 0 <= j < cs.len() ==> cs[j].synced_lyrics is None,
        cs[k].plain_lyrics is Some,
        forall|j: int| 0 <= j < k ==> cs[j].plain_lyrics is None,
    ensures
        allow_plain ==> fuzzy_choice(cs, allow_plain) == cs[k].plain_lyrics,
        !allow_plain ==> fuzzy_choice(cs, allow_plain) is None,
{
    lemma_no_synced(cs);
    lemma_first_plain_at(cs, k);
}

proof fn lemma_first_plain_at(cs: Seq<CandidateView>, k: int)
    requires
        0 <= k < cs.len(),
        cs[k].plain_lyrics is Some,
        forall|j: int| 0 <= j < k ==> cs[j].plain_lyrics is None,
    ensures
        first_plain(cs) == cs[k].plain_lyrics,
    decreases k,
{
    if k > 0 {
        let rest = cs.drop_first();
        assert forall|j: int| 0 <= j < k - 1 implies rest[j].plain_lyrics is None by {
            assert(rest[j] == cs[j + 1]);
        }
        assert(cs[0].plain_lyrics is None);
        assert(rest[k - 1] == cs[k]);
        lemma_first_plain_at(rest, k - 1);
    }
}

/// A list offers nothing exactly when no record in it has synced lyrics
/// and, where plain lyrics are accepted, none has plain lyrics either. The
/// empty list offers nothing.
pub proof fn lemma_fuzzy_declines(cs: Seq<CandidateView>, allow_plain: bool)
    ensures
        fuzzy_choice(cs, allow_plain) is None <==> (forall|j: int|
            0 <= j < cs.len() ==> (#[trigger] cs[j]).synced_lyrics is None && (allow_plain
                ==> cs[j].plain_lyrics is None)),
    decreases cs.len(),
{
    if cs.len() > 0 {
        let rest = cs.drop_first();
        lemma_fuzzy_declines(rest, allow_plain);
        if fuzzy_choice(cs, allow_plain) is None {
            assert forall|j: int| 0 <= j < cs.len() implies (#[trigger] cs[j]).synced_lyrics is None
                && (allow_plain ==> cs[j].plain_lyrics is None) by {
                if j > 0 {
                    assert(rest[j - 1] == cs[j]);
                }
            }
        }
        if forall|j: int|
            0 <= j < cs.len() ==> (#[trigger] cs[j]).synced_lyrics is None && (allow_plain
                ==> cs[j].plain_lyrics is None) {
            assert(forall|j: int| 0 <= j < cs.len() ==> cs[j].synced_lyrics is None);
            lemma_no_synced(cs);
            if allow_plain {
                assert(forall|j: int| 0 <= j < cs.len() ==> cs[j].plain_lyrics is None);
                lemma_no_plain(cs);
            }
        }
    }
}

} // verus!
