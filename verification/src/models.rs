//! Requests and responses of the worker's HTTP API.

use vstd::prelude::*;

verus! {

/// A request to play a track in a chat.
pub struct PlayRequest {
    pub chat_id: i64,
    pub query: String,
    pub quality: Option<String>,
}

/// What is known of a track.
pub struct SongInfo {
    pub title: String,
    pub artist: String,
    pub duration: u64,
    pub thumbnail: Option<String>,
    pub url: String,
}

pub struct SongInfoView {
    pub title: Seq<char>,
    pub artist: Seq<char>,
    pub duration: u64,
    pub thumbnail: Option<Seq<char>>,
    pub url: Seq<char>,
}

pub open spec fn opt_string_view(s: Option<String>) -> Option<Seq<char>> {
    match s {
        Some(t) => Some(t@),
        None => None,
    }
}

impl View for SongInfo {
    type V = SongInfoView;

    open spec fn view(&self) -> SongInfoView {
        SongInfoView {
            title: self.title@,
            artist: self.artist@,
            duration: self.duration,
            thumbnail: opt_string_view(self.thumbnail),
            url: self.url@,
        }
    }
}

/// The answer to a play request: `"playing"` or `"queued"`, with the track.
pub struct PlayResponse {
    pub status: String,
    pub song: SongInfo,
}

pub struct PlayResponseView {
    pub status: Seq<char>,
    pub song: SongInfoView,
}

impl View for PlayResponse {
    type V = PlayResponseView;

    open spec fn view(&self) -> PlayResponseView {
        PlayResponseView { status: self.status@, song: self.song@ }
    }
}

/// One waiting track in a queue listing, with its 1-based position.
pub struct QueueItemResponse {
    pub position: usize,
    pub query: String,
}

/// A chat's queue as the API lists it.
pub struct QueueResponse {
    pub current: Option<String>,
    pub queue: Vec<QueueItemResponse>,
}

pub struct QueueResponseView {
    pub current: Option<Seq<char>>,
    pub queue: Seq<(usize, Seq<char>)>,
}

impl View for QueueResponse {
    type V = QueueResponseView;

    open spec fn view(&self) -> QueueResponseView {
        QueueResponseView {
            current: opt_string_view(self.current),
            queue: self.queue@.map_values(|item: QueueItemResponse| (item.position, item.query@)),
        }
    }
}

/// A refused request: the HTTP status code and the message sent as `detail`.
pub struct ApiError {
    pub status: u16,
    pub detail: String,
}

pub struct ApiErrorView {
    pub status: u16,
    pub detail: Seq<char>,
}

impl View for ApiError {
    type V = ApiErrorView;

    open spec fn view(&self) -> ApiErrorView {
        ApiErrorView { status: self.status, detail: self.detail@ }
    }
}

} // verus!
