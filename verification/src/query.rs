//! Catalog queries: what is asked of the lyrics catalog for one track.

use vstd::prelude::*;
use vstd::string::StringExecFns;
use vstd::utf8::encode_utf8;
use crate::encode::{encode_component, query_encoded};
use crate::path::{TrackLocation, TrackLocationView};
use crate::text::{decimal, decimal_string};
use crate::title::{remove_numbered_prefix, without_numbered_prefix};

verus! {

/// What identifies a track to the catalog.
#[derive(Clone, Debug, PartialEq, Eq)]
pub struct LyricsQuery {
    /// The song stem without its track number.
    pub track_name: String,
    pub artist_name: String,
    pub album_name: String,
    pub duration_seconds: u64,
}

/// What a `LyricsQuery` holds, as plain values.
pub struct LyricsQueryView {
    pub track_name: Seq<char>,
    pub artist_name: Seq<char>,
    pub album_name: Seq<char>,
    pub duration_seconds: nat,
}

impl View for LyricsQuery {
    type V = LyricsQueryView;

    open spec fn view(&self) -> LyricsQueryView {
        LyricsQueryView {
            track_name: self.track_name@,
            artist_name: self.artist_name@,
            album_name: self.album_name@,
            duration_seconds: self.duration_seconds as nat,
        }
    }
}

/// The query for a track at `location` that plays for `duration_seconds`.
pub open spec fn query_for(location: TrackLocationView, duration_seconds: nat) -> LyricsQueryView {
    LyricsQueryView {
        track_name: without_numbered_prefix(location.song_stem),
        artist_name: location.artist,
        album_name: location.album,
        duration_seconds,
    }
}

/// A text as one component of a request's query.
pub open spec fn component(text: Seq<char>) -> Seq<char> {
    query_encoded(encode_utf8(text))
}

/// The request that looks a track up by title, artist, album and duration.
pub open spec fn exact_url(q: LyricsQueryView) -> Seq<char> {
    "http://lrclib.net/api/get"@ + "?track_name="@ + component(q.track_name) + "&artist_name="@
        + component(q.artist_name) + "&album_name="@ + component(q.album_name) + "&duration="@
        + decimal(q.duration_seconds)
}

/// The request that searches the catalog by free text: album, artist and
/// title, in this order, joined by `+`.
pub open spec fn fuzzy_url(q: LyricsQueryView) -> Seq<char> {
    "http://lrclib.net/api/search?q="@ + component(q.album_name) + "+"@ + component(q.artist_name)
        + "+"@ + component(q.track_name)
}

impl LyricsQuery {
    /// Builds the query for a track. The title sent to the catalog is the
    /// song stem without its track number.
    pub fn new(location: &TrackLocation, duration_seconds: u64) -> (query: LyricsQuery)
        ensures
            query@ == query_for(location@, duration_seconds as nat),
    {
        LyricsQuery {
            track_name: remove_numbered_prefix(location.song_stem.as_str()),
            artist_name: location.artist.clone(),
            album_name: location.album.clone(),
            duration_seconds,
        }
    }

    /// The address of the exact lookup for this query.
    pub fn exact_search_url(&self) -> (url: String)
        ensures
            url@ == exact_url(self@),
    {
        let mut url = String::new();
        url.append("http://lrclib.net/api/get");
        url.append("?track_name=");
        url.append(encode_component(self.track_name.as_str()).as_str());
        url.append("&artist_name=");
        url.append(encode_component(self.artist_name.as_str()).as_str());
        url.append("&album_name=");
        url.append(encode_component(self.album_name.as_str()).as_str());
        url.append("&duration=");
        url.append(decimal_string(self.duration_seconds).as_str());
        url
    }

    /// The address of the free-text search for this query.
    pub fn fuzzy_search_url(&self) -> (url: String)
        ensures
            url@ == fuzzy_url(self@),
    {
        let mut url = String::new();
        url.append("http://lrclib.net/api/search?q=");
        url.append(encode_component(self.album_name.as_str()).as_str());
        url.append("+");
        url.append(encode_component(self.artist_name.as_str()).as_str());
        url.append("+");
        url.append(encode_component(self.track_name.as_str()).as_str());
        url
    }
}

/// The search asks by album, artist and title alone: how long the track
/// plays does not enter it.
pub proof fn lemma_fuzzy_url_ignores_duration(q: LyricsQueryView, duration_seconds: nat)
    ensures
        fuzzy_url(LyricsQueryView { duration_seconds, ..q }) == fuzzy_url(q),
{
}

/// Both requests ask for the title without its track number, and for
/// artist and album as the directories are named.
pub proof fn lemma_query_names(location: TrackLocationView, duration_seconds: nat)
    ensures
        query_for(location, duration_seconds).track_name == without_numbered_prefix(
            location.song_stem,
        ),
        query_for(location, duration_seconds).artist_name == location.artist,
        query_for(location, duration_seconds).album_name == location.album,
        query_for(location, duration_seconds).duration_seconds == duration_seconds,
{
}

} // verus!
