//! `POST /play`: play a track in a chat, or queue it behind the current one.
//!
//! The handler alternates decisions and outside work (preparing the audio, starting
//! playback). Each decision is one step here, taken with the queues locked; the caller
//! performs what a step asks for and feeds its outcome to the next step.

use vstd::prelude::*;
use vstd::string::*;

use axum::http::HeaderMap;

use crate::auth::{authorized, is_authorized};
use crate::models::{
    ApiError, ApiErrorView, PlayRequest, PlayResponse, PlayResponseView, SongInfo, SongInfoView,
};
use crate::state::{
    drop_current, enqueue_request, start_current, ChatQueues, QueuesView,
};
use crate::text::{trim, trimmed};

verus! {

/// What the handler does next.
pub enum PlayStep {
    /// Answer the request.
    Respond(Result<PlayResponse, ApiError>),
    /// Prepare the audio of `query`, then call [`audio_prepared`].
    FetchAudio { chat_id: i64, query: String },
    /// Start playing `song` in the chat, then call [`playback_started`].
    StartPlayback { chat_id: i64, generation: u64, song: SongInfo },
}

pub enum PlayStepView {
    Respond(Result<PlayResponseView, ApiErrorView>),
    FetchAudio { chat_id: i64, query: Seq<char> },
    StartPlayback { chat_id: i64, generation: u64, song: SongInfoView },
}

impl View for PlayStep {
    type V = PlayStepView;

    open spec fn view(&self) -> PlayStepView {
        match self {
            PlayStep::Respond(Ok(r)) => PlayStepView::Respond(Ok(r@)),
            PlayStep::Respond(Err(e)) => PlayStepView::Respond(Err(e@)),
            PlayStep::FetchAudio { chat_id, query } => PlayStepView::FetchAudio {
                chat_id: *chat_id,
                query: query@,
            },
            PlayStep::StartPlayback { chat_id, generation, song } => PlayStepView::StartPlayback {
                chat_id: *chat_id,
                generation: *generation,
                song: song@,
            },
        }
    }
}

/// An error answer.
pub open spec fn api_error(status: u16, detail: Seq<char>) -> ApiErrorView {
    ApiErrorView { status, detail }
}

/// The track reported for a query that was queued: its query as title, no audio yet.
pub open spec fn queued_song(query: Seq<char>) -> SongInfoView {
    SongInfoView {
        title: query,
        artist: "Waiting in queue"@,
        duration: 0,
        thumbnail: None,
        url: Seq::empty(),
    }
}

/// A play request arrives. Unauthorized requests get 401 and a blank query gets 400, both
/// without touching the queues. Otherwise the trimmed query waits behind the current track
/// (answered `"queued"`), or, where nothing is current, its audio is to be prepared.
pub open spec fn on_play_request(
    s: QueuesView,
    authorized: bool,
    chat_id: i64,
    raw_query: Seq<char>,
) -> (QueuesView, PlayStepView) {
    let query = trim(raw_query);
    if !authorized {
        (s, PlayStepView::Respond(Err(api_error(401, "Unauthorized"@))))
    } else if query.len() == 0 {
        (s, PlayStepView::Respond(Err(api_error(400, "No search query supplied"@))))
    } else {
        let (s2, position) = enqueue_request(s, chat_id, query);
        match position {
            Some(_) => (
                s2,
                PlayStepView::Respond(
                    Ok(PlayResponseView { status: "queued"@, song: queued_song(query) }),
                ),
            ),
            None => (s2, PlayStepView::FetchAudio { chat_id, query }),
        }
    }
}

/// The audio of `query` was prepared, or preparing it failed with `message`. On failure the
/// answer is 502 and the queues stay as they are; otherwise the query becomes current and
/// playback is to start under the chat's present generation.
pub open spec fn on_audio(
    s: QueuesView,
    chat_id: i64,
    query: Seq<char>,
    audio: Result<SongInfoView, Seq<char>>,
) -> (QueuesView, PlayStepView) {
    match audio {
        Err(message) => (
            s,
            PlayStepView::Respond(Err(api_error(502, "Could not prepare this song: "@ + message))),
        ),
        Ok(song) => {
            let (s2, generation) = start_current(s, chat_id, query);
            (s2, PlayStepView::StartPlayback { chat_id, generation, song })
        },
    }
}

/// Playback of `song`, started under `generation`, began or failed with `message`. On
/// failure the track stops being current (unless the lifecycle changed meanwhile) and the
/// answer is 502; otherwise the answer is `"playing"` with the track.
pub open spec fn on_playback(
    s: QueuesView,
    chat_id: i64,
    generation: u64,
    song: SongInfoView,
    outcome: Result<(), Seq<char>>,
) -> (QueuesView, PlayStepView) {
    match outcome {
        Err(message) => (
            drop_current(s, chat_id, generation),
            PlayStepView::Respond(Err(api_error(502, "Could not start playback: "@ + message))),
        ),
        Ok(_) => (s, PlayStepView::Respond(Ok(PlayResponseView { status: "playing"@, song }))),
    }
}

fn error(status: u16, detail: String) -> (r: ApiError)
    ensures
        r@ == api_error(status, detail@),
{
    ApiError { status, detail }
}

fn prefixed(prefix: &str, message: String) -> (r: String)
    ensures
        r@ == prefix@ + message@,
{
    let mut r = String::from_str(prefix);
    r.append(message.as_str());
    r
}

/// A play request arrives with `headers`; `secret` is the worker's secret.
pub fn play(queues: &mut ChatQueues, headers: &HeaderMap, secret: &str, request: PlayRequest) -> (r: PlayStep)
    ensures
        (final(queues)@, r@) == on_play_request(
            old(queues)@,
            is_authorized(*headers, secret@),
            request.chat_id,
            request.query@,
        ),
{
    if !authorized(headers, secret) {
        return PlayStep::Respond(Err(error(401, String::from_str("Unauthorized"))));
    }
    let chat_id = request.chat_id;
    let query = trimmed(request.query.as_str());
    if query.as_str().unicode_len() == 0 {
        return PlayStep::Respond(Err(error(400, String::from_str("No search query supplied"))));
    }
    let title = query.clone();
    match queues.enqueue_request(chat_id, query.clone()) {
        Some(_) => {
            let song = SongInfo {
                title,
                artist: String::from_str("Waiting in queue"),
                duration: 0,
                thumbnail: None,
                url: String::new(),
            };
            PlayStep::Respond(Ok(PlayResponse { status: String::from_str("queued"), song }))
        },
        None => PlayStep::FetchAudio { chat_id, query },
    }
}

pub open spec fn audio_view(audio: Result<SongInfo, String>) -> Result<SongInfoView, Seq<char>> {
    match audio {
        Ok(song) => Ok(song@),
        Err(message) => Err(message@),
    }
}

pub open spec fn outcome_view(outcome: Result<(), String>) -> Result<(), Seq<char>> {
    match outcome {
        Ok(()) => Ok(()),
        Err(message) => Err(message@),
    }
}

/// The audio of `query` is ready, or preparing it failed with a message.
pub fn audio_prepared(
    queues: &mut ChatQueues,
    chat_id: i64,
    query: String,
    audio: Result<SongInfo, String>,
) -> (r: PlayStep)
    ensures
        (final(queues)@, r@) == on_audio(old(queues)@, chat_id, query@, audio_view(audio)),
{
    match audio {
        Err(message) => PlayStep::Respond(
            Err(error(502, prefixed("Could not prepare this song: ", message))),
        ),
        Ok(song) => {
            let generation = queues.start_current(chat_id, query);
            PlayStep::StartPlayback { chat_id, generation, song }
        },
    }
}

/// Playback of `song`, started under `generation`, began, or failed with a message.
pub fn playback_started(
    queues: &mut ChatQueues,
    chat_id: i64,
    generation: u64,
    song: SongInfo,
    outcome: Result<(), String>,
) -> (r: PlayStep)
    ensures
        (final(queues)@, r@) == on_playback(
            old(queues)@,
            chat_id,
            generation,
            song@,
            outcome_view(outcome),
        ),
{
    match outcome {
        Err(message) => {
            queues.drop_current(chat_id, generation);
            PlayStep::Respond(Err(error(502, prefixed("Could not start playback: ", message))))
        },
        Ok(()) => PlayStep::Respond(Ok(PlayResponse { status: String::from_str("playing"), song })),
    }
}

} // verus!
