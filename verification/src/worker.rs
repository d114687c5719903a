//! The worker's reactions to voice-chat events: resetting a chat's queue when its voice
//! chat ends, and moving on to the next queued track when one finishes.
//!
//! Moving on alternates decisions with outside work (preparing audio, starting playback).
//! Each decision is one step of [`play_next`], taken with the queues locked; the caller
//! performs what a step asks for and feeds the outcome back as the next event.

use vstd::prelude::*;

use crate::models::{SongInfo, SongInfoView};
use crate::state::{
    drop_current, reset_chat, same_generation, still_current, take_next, ChatQueues, QueuesView,
};

verus! {

/// What happened since the last step of moving on to the next track.
pub enum NextEvent {
    /// Start: the current track ended, or the last attempt is to be retried.
    Begin,
    /// Preparing the audio of the track taken under `generation` failed.
    AudioFailed { generation: u64 },
    /// The audio of the track taken under `generation` is ready as `song`.
    AudioReady { generation: u64, song: SongInfo },
    /// Starting playback of the track taken under `generation` failed.
    PlaybackFailed { generation: u64 },
}

pub enum NextEventView {
    Begin,
    AudioFailed { generation: u64 },
    AudioReady { generation: u64, song: SongInfoView },
    PlaybackFailed { generation: u64 },
}

impl View for NextEvent {
    type V = NextEventView;

    open spec fn view(&self) -> NextEventView {
        match self {
            NextEvent::Begin => NextEventView::Begin,
            NextEvent::AudioFailed { generation } => NextEventView::AudioFailed {
                generation: *generation,
            },
            NextEvent::AudioReady { generation, song } => NextEventView::AudioReady {
                generation: *generation,
                song: song@,
            },
            NextEvent::PlaybackFailed { generation } => NextEventView::PlaybackFailed {
                generation: *generation,
            },
        }
    }
}

/// What the caller does next.
pub enum NextStep {
    /// Nothing more to do.
    Stop,
    /// Take the next track: feed [`NextEvent::Begin`].
    Retry,
    /// Prepare the audio of `query`, taken under `generation`.
    Extract { query: String, generation: u64 },
    /// Start playing `song`, the audio prepared for the track taken under `generation`.
    Play { generation: u64, song: SongInfo },
}

pub enum NextStepView {
    Stop,
    Retry,
    Extract { query: Seq<char>, generation: u64 },
    Play { generation: u64, song: SongInfoView },
}

impl View for NextStep {
    type V = NextStepView;

    open spec fn view(&self) -> NextStepView {
        match self {
            NextStep::Stop => NextStepView::Stop,
            NextStep::Retry => NextStepView::Retry,
            NextStep::Extract { query, generation } => NextStepView::Extract {
                query: query@,
                generation: *generation,
            },
            NextStep::Play { generation, song } => NextStepView::Play {
                generation: *generation,
                song: song@,
            },
        }
    }
}

/// One step of moving on to the next track of `chat_id`.
/// - `Begin`: the next waiting query becomes current and is to be prepared; with no
///   queue, or nothing waiting, stop (nothing is current afterwards where there is a queue).
/// - A failure under `generation`: where the lifecycle is unchanged, the track stops being
///   current and the next one is tried; otherwise stop and leave everything as it is.
/// - `AudioReady` under `generation`: play exactly the prepared song where the lifecycle
///   is unchanged and the track is still current; otherwise stop.
pub open spec fn next_step(s: QueuesView, chat_id: i64, event: NextEventView) -> (QueuesView, NextStepView) {
    match event {
        NextEventView::Begin => {
            let (s2, next) = take_next(s, chat_id);
            match next {
                Some((query, generation)) => (s2, NextStepView::Extract { query, generation }),
                None => (s2, NextStepView::Stop),
            }
        },
        NextEventView::AudioFailed { generation } | NextEventView::PlaybackFailed { generation } => {
            if same_generation(s, chat_id, generation) {
                (drop_current(s, chat_id, generation), NextStepView::Retry)
            } else {
                (s, NextStepView::Stop)
            }
        },
        NextEventView::AudioReady { generation, song } => {
            if still_current(s, chat_id, generation) {
                (s, NextStepView::Play { generation, song })
            } else {
                (s, NextStepView::Stop)
            }
        },
    }
}

/// One step of moving on to the next track of `chat_id`.
pub fn play_next(queues: &mut ChatQueues, chat_id: i64, event: NextEvent) -> (r: NextStep)
    ensures
        (final(queues)@, r@) == next_step(old(queues)@, chat_id, event@),
{
    match event {
        NextEvent::Begin => match queues.take_next(chat_id) {
            Some((query, generation)) => NextStep::Extract { query, generation },
            None => NextStep::Stop,
        },
        NextEvent::AudioFailed { generation } | NextEvent::PlaybackFailed { generation } => {
            if queues.drop_current(chat_id, generation) {
                NextStep::Retry
            } else {
                NextStep::Stop
            }
        },
        NextEvent::AudioReady { generation, song } => {
            if queues.still_current(chat_id, generation) {
                NextStep::Play { generation, song }
            } else {
                NextStep::Stop
            }
        },
    }
}

/// The voice-chat events the worker reacts to.
pub enum CallSignal {
    /// The voice chat was ended for everyone.
    Ended,
    /// The worker was removed from, or otherwise left, the voice chat.
    Left,
    /// The current track reached its end.
    StreamEnded,
    /// Anything else.
    Other,
}

/// The queues after `signal` in `chat_id`: ending or leaving resets the chat's queue.
pub open spec fn after_signal(s: QueuesView, chat_id: i64, signal: CallSignal) -> QueuesView {
    match signal {
        CallSignal::Ended | CallSignal::Left => reset_chat(s, chat_id),
        _ => s,
    }
}

/// Reacts to a voice-chat event; returns whether to move on to the next track.
pub fn call_event(queues: &mut ChatQueues, chat_id: i64, signal: CallSignal) -> (advance: bool)
    requires
        (signal is Ended || signal is Left) && old(queues)@.contains_key(chat_id)
            ==> old(queues)@[chat_id].generation < u64::MAX,
    ensures
        final(queues)@ == after_signal(old(queues)@, chat_id, signal),
        advance == (signal is StreamEnded),
{
    match signal {
        CallSignal::Ended | CallSignal::Left => {
            queues.reset(chat_id);
            false
        },
        CallSignal::StreamEnded => true,
        CallSignal::Other => false,
    }
}

} // verus!
