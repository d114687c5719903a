//! What the worker asks `yt-dlp` for, and what it makes of the answer.

use vstd::prelude::*;
use vstd::string::*;

use crate::models::{SongInfo, SongInfoView};

verus! {

/// The metadata `yt-dlp` reports of a search hit; every field may be missing.
/// The duration is in whole seconds.
pub struct YtDlpInfo {
    pub title: Option<String>,
    pub uploader: Option<String>,
    pub channel: Option<String>,
    pub duration: Option<u64>,
    pub thumbnail: Option<String>,
    pub webpage_url: Option<String>,
}

pub struct YtDlpInfoView {
    pub title: Option<Seq<char>>,
    pub uploader: Option<Seq<char>>,
    pub channel: Option<Seq<char>>,
    pub duration: Option<u64>,
    pub thumbnail: Option<Seq<char>>,
    pub webpage_url: Option<Seq<char>>,
}

impl View for YtDlpInfo {
    type V = YtDlpInfoView;

    open spec fn view(&self) -> YtDlpInfoView {
        YtDlpInfoView {
            title: crate::models::opt_string_view(self.title),
            uploader: crate::models::opt_string_view(self.uploader),
            channel: crate::models::opt_string_view(self.channel),
            duration: self.duration,
            thumbnail: crate::models::opt_string_view(self.thumbnail),
            webpage_url: crate::models::opt_string_view(self.webpage_url),
        }
    }
}

/// The search `yt-dlp` runs for a query: its first YouTube hit.
pub open spec fn search_of(query: Seq<char>) -> Seq<char> {
    "ytsearch1:"@ + query
}

/// The track described by the metadata of the search `search` for `query`: a missing
/// title is the query, a missing artist is the uploader, else the channel, else
/// "Unknown Artist"; a missing duration is 0 and a missing page is the search itself.
pub open spec fn song_from_metadata(query: Seq<char>, search: Seq<char>, info: YtDlpInfoView) -> SongInfoView {
    SongInfoView {
        title: match info.title {
            Some(t) => t,
            None => query,
        },
        artist: match info.uploader {
            Some(a) => a,
            None => match info.channel {
                Some(c) => c,
                None => "Unknown Artist"@,
            },
        },
        duration: match info.duration {
            Some(d) => d,
            None => 0,
        },
        thumbnail: info.thumbnail,
        url: match info.webpage_url {
            Some(u) => u,
            None => search,
        },
    }
}

/// The `yt-dlp` search for `query`.
pub fn search_term(query: &str) -> (r: String)
    ensures
        r@ == search_of(query@),
{
    let mut r = String::from_str("ytsearch1:");
    r.append(query);
    r
}

/// The track described by the metadata `yt-dlp` reported for the search `search` of `query`.
pub fn song_info(query: &str, search: &str, info: YtDlpInfo) -> (r: SongInfo)
    ensures
        r@ == song_from_metadata(query@, search@, info@),
{
    let title = match info.title {
        Some(t) => t,
        None => String::from_str(query),
    };
    let artist = match info.uploader {
        Some(a) => a,
        None => match info.channel {
            Some(c) => c,
            None => String::from_str("Unknown Artist"),
        },
    };
    let duration = match info.duration {
        Some(d) => d,
        None => 0,
    };
    let url = match info.webpage_url {
        Some(u) => u,
        None => String::from_str(search),
    };
    SongInfo { title, artist, duration, thumbnail: info.thumbnail, url }
}

/// The arguments of the `yt-dlp` run that reads the metadata of a search's hit
/// without downloading it.
pub fn metadata_args(search: &str) -> (r: Vec<String>)
    ensures
        r@.map_values(|a: String| a@) == seq![
            "--no-playlist"@,
            "--dump-single-json"@,
            "--skip-download"@,
            search@,
        ],
{
    let mut r: Vec<String> = Vec::new();
    r.push(String::from_str("--no-playlist"));
    r.push(String::from_str("--dump-single-json"));
    r.push(String::from_str("--skip-download"));
    r.push(String::from_str(search));
    assert(r@.map_values(|a: String| a@) =~= seq![
        "--no-playlist"@,
        "--dump-single-json"@,
        "--skip-download"@,
        search@,
    ]);
    r
}

/// The arguments of the `yt-dlp` run that downloads a search's hit as a 192K mp3
/// to the path `output`.
pub fn download_args(output: &str, search: &str) -> (r: Vec<String>)
    ensures
        r@.map_values(|a: String| a@) == seq![
            "--no-playlist"@,
            "--extract-audio"@,
            "--audio-format"@,
            "mp3"@,
            "--audio-quality"@,
            "192K"@,
            "--output"@,
            output@,
            search@,
        ],
{
    let mut r: Vec<String> = Vec::new();
    r.push(String::from_str("--no-playlist"));
    r.push(String::from_str("--extract-audio"));
    r.push(String::from_str("--audio-format"));
    r.push(String::from_str("mp3"));
    r.push(String::from_str("--audio-quality"));
    r.push(String::from_str("192K"));
    r.push(String::from_str("--output"));
    r.push(String::from_str(output));
    r.push(String::from_str(search));
    assert(r@.map_values(|a: String| a@) =~= seq![
        "--no-playlist"@,
        "--extract-audio"@,
        "--audio-format"@,
        "mp3"@,
        "--audio-quality"@,
        "192K"@,
        "--output"@,
        output@,
        search@,
    ]);
    r
}

} // verus!
