//! Properties of the queue logic as a whole.

use vstd::prelude::*;

use crate::auth::{bearer_prefix, credentials_accepted, header_text, is_visible_ascii};
use crate::routes::play::{on_audio, on_play_request, on_playback, PlayStepView};
use crate::routes::queue::listing_of;
use crate::models::SongInfoView;
use crate::state::{
    enqueue_request, queue_or_empty, same_generation, ChatQueueView, QueuesView,
};
use crate::text::trim;
use crate::worker::{after_signal, next_step, CallSignal, NextEventView, NextStepView};

verus! {

/// `s2` holds every chat of `s`, and every chat other than `chat_id` has the same queue.
pub open spec fn only_chat_changed(s: QueuesView, s2: QueuesView, chat_id: i64) -> bool {
    &&& forall|d: i64| s.contains_key(d) ==> #[trigger] s2.contains_key(d)
    &&& forall|d: i64|
        d != chat_id ==> (#[trigger] s2.contains_key(d) == s.contains_key(d)) && (s.contains_key(d)
            ==> s2[d] == s[d])
}

/// Every chat of `s` keeps its generation in `s2`.
pub open spec fn generations_kept(s: QueuesView, s2: QueuesView) -> bool {
    forall|d: i64| #[trigger] s.contains_key(d) ==> s2.contains_key(d) && s2[d].generation == s[d].generation
}

/// A play request, and each later step of its handler, touches only the requesting chat's
/// queue, never removes a queue, and never changes a generation.
pub proof fn law_play_steps_are_local(
    s: QueuesView,
    authorized: bool,
    chat_id: i64,
    raw_query: Seq<char>,
    query: Seq<char>,
    audio: Result<SongInfoView, Seq<char>>,
    generation: u64,
    song: SongInfoView,
    outcome: Result<(), Seq<char>>,
)
    ensures
        only_chat_changed(s, on_play_request(s, authorized, chat_id, raw_query).0, chat_id),
        generations_kept(s, on_play_request(s, authorized, chat_id, raw_query).0),
        only_chat_changed(s, on_audio(s, chat_id, query, audio).0, chat_id),
        generations_kept(s, on_audio(s, chat_id, query, audio).0),
        only_chat_changed(s, on_playback(s, chat_id, generation, song, outcome).0, chat_id),
        generations_kept(s, on_playback(s, chat_id, generation, song, outcome).0),
{
}

/// Moving on to the next track touches only that chat's queue, never removes a queue,
/// and never changes a generation.
pub proof fn law_next_steps_are_local(s: QueuesView, chat_id: i64, event: NextEventView)
    ensures
        only_chat_changed(s, next_step(s, chat_id, event).0, chat_id),
        generations_kept(s, next_step(s, chat_id, event).0),
{
}

/// When a voice chat ends or the worker leaves it, the chat's queue is emptied, nothing is
/// current, and its generation grows by one; nothing else changes.
pub proof fn law_end_resets_chat(s: QueuesView, chat_id: i64, signal: CallSignal)
    requires
        signal is Ended || signal is Left,
        s.contains_key(chat_id),
        s[chat_id].generation < u64::MAX,
    ensures
        ({
            let s2 = after_signal(s, chat_id, signal);
            &&& s2.contains_key(chat_id)
            &&& s2[chat_id].current is None
            &&& s2[chat_id].queue.len() == 0
            &&& s2[chat_id].generation == s[chat_id].generation + 1
            &&& only_chat_changed(s, s2, chat_id)
        }),
{
}

/// Work begun under a generation that is no longer the chat's cannot start playback or
/// change the queue: a late audio or playback outcome stops and leaves the queues as they are.
pub proof fn law_stale_work_is_ignored(
    s: QueuesView,
    chat_id: i64,
    generation: u64,
    song: SongInfoView,
    message: Seq<char>,
)
    requires
        !same_generation(s, chat_id, generation),
    ensures
        next_step(s, chat_id, NextEventView::AudioReady { generation, song }) == (s, NextStepView::Stop),
        next_step(s, chat_id, NextEventView::AudioFailed { generation }) == (s, NextStepView::Stop),
        next_step(s, chat_id, NextEventView::PlaybackFailed { generation }) == (s, NextStepView::Stop),
        on_playback(s, chat_id, generation, song, Err(message)).0 == s,
{
}

/// Once the voice chat has ended (or the worker left), no track prepared before can start:
/// every outcome of work begun under the old generation is ignored.
pub proof fn law_end_cancels_pending_work(
    s: QueuesView,
    chat_id: i64,
    signal: CallSignal,
    song: SongInfoView,
    message: Seq<char>,
)
    requires
        signal is Ended || signal is Left,
        s.contains_key(chat_id),
        s[chat_id].generation < u64::MAX,
    ensures
        ({
            let s2 = after_signal(s, chat_id, signal);
            let g = s[chat_id].generation;
            &&& next_step(s2, chat_id, NextEventView::AudioReady { generation: g, song }) == (s2, NextStepView::Stop)
            &&& next_step(s2, chat_id, NextEventView::AudioFailed { generation: g }) == (s2, NextStepView::Stop)
            &&& next_step(s2, chat_id, NextEventView::PlaybackFailed { generation: g }) == (s2, NextStepView::Stop)
            &&& on_playback(s2, chat_id, g, song, Err(message)).0 == s2
        }),
{
    law_stale_work_is_ignored(after_signal(s, chat_id, signal), chat_id, s[chat_id].generation, song, message);
}

/// An unauthorized request is answered 401 and a blank query 400; neither changes the queues.
pub proof fn law_refused_requests_change_nothing(
    s: QueuesView,
    authorized: bool,
    chat_id: i64,
    raw_query: Seq<char>,
)
    requires
        !authorized || trim(raw_query).len() == 0,
    ensures
        ({
            let (s2, step) = on_play_request(s, authorized, chat_id, raw_query);
            &&& s2 == s
            &&& step matches PlayStepView::Respond(Err(e)) && e.status == (if authorized {
                400u16
            } else {
                401u16
            })
        }),
{
}

/// An accepted request never interrupts the track that is current: it is queued where
/// a track is current, and only started where none is.
pub proof fn law_requests_never_interrupt(s: QueuesView, chat_id: i64, raw_query: Seq<char>)
    requires
        trim(raw_query).len() > 0,
    ensures
        ({
            let (s2, step) = on_play_request(s, true, chat_id, raw_query);
            let before = queue_or_empty(s, chat_id);
            &&& s2.contains_key(chat_id)
            &&& s2[chat_id].current == before.current
            &&& s2[chat_id].generation == before.generation
            &&& (before.current is Some <==> (step matches PlayStepView::Respond(Ok(r)) && r.status == "queued"@))
            &&& (before.current is None <==> (step matches PlayStepView::FetchAudio { .. }))
        }),
{
}

/// The position reported for a queued query is where the queue listing shows it: last,
/// at that 1-based position.
pub proof fn law_queued_position_is_listed(s: QueuesView, chat_id: i64, query: Seq<char>)
    requires
        queue_or_empty(s, chat_id).current is Some,
    ensures
        ({
            let (s2, position) = enqueue_request(s, chat_id, query);
            let listing = listing_of(s2[chat_id]).queue;
            &&& (position matches Some(p) && p == listing.len() && listing[p - 1] == (p as usize, query))
        }),
{
}

/// The chat's queue after accepted requests for each of `raws`, in order.
pub open spec fn request_all(s: QueuesView, chat_id: i64, raws: Seq<Seq<char>>) -> QueuesView
    decreases raws.len(),
{
    if raws.len() == 0 {
        s
    } else {
        on_play_request(request_all(s, chat_id, raws.drop_last()), true, chat_id, raws.last()).0
    }
}

/// The queries that `count` successive moves to the next track make current, in order
/// (stopping where nothing waits).
pub open spec fn advance_all(s: QueuesView, chat_id: i64, count: nat) -> Seq<Seq<char>>
    decreases count,
{
    if count == 0 {
        Seq::empty()
    } else {
        match next_step(s, chat_id, NextEventView::Begin) {
            (s2, NextStepView::Extract { query, .. }) => seq![query] + advance_all(s2, chat_id, (count - 1) as nat),
            _ => Seq::empty(),
        }
    }
}

proof fn lemma_request_all(s: QueuesView, chat_id: i64, raws: Seq<Seq<char>>)
    requires
        queue_or_empty(s, chat_id).current is Some,
        forall|i: int| 0 <= i < raws.len() ==> trim(#[trigger] raws[i]).len() > 0,
    ensures
        ({
            let s2 = request_all(s, chat_id, raws);
            let before = queue_or_empty(s, chat_id);
            &&& s2.contains_key(chat_id)
            &&& s2[chat_id] == ChatQueueView {
                queue: before.queue + raws.map_values(|r: Seq<char>| trim(r)),
                ..before
            }
        }),
    decreases raws.len(),
{
    if raws.len() > 0 {
        let init = raws.drop_last();
        assert forall|i: int| 0 <= i < init.len() implies trim(#[trigger] init[i]).len() > 0 by {
            assert(init[i] == raws[i]);
        }
        lemma_request_all(s, chat_id, init);
        let before = queue_or_empty(s, chat_id);
        assert(trim(raws[raws.len() - 1]).len() > 0);
        assert(before.queue + raws.map_values(|r: Seq<char>| trim(r)) =~= (before.queue
            + init.map_values(|r: Seq<char>| trim(r))).push(trim(raws.last())));
    } else {
        assert(queue_or_empty(s, chat_id).queue + raws.map_values(|r: Seq<char>| trim(r))
            =~= queue_or_empty(s, chat_id).queue);
    }
}

proof fn lemma_advance_all(s: QueuesView, chat_id: i64, count: nat)
    requires
        s.contains_key(chat_id),
        count <= s[chat_id].queue.len(),
    ensures
        advance_all(s, chat_id, count) == s[chat_id].queue.take(count as int),
    decreases count,
{
    if count > 0 {
        let (s2, _) = next_step(s, chat_id, NextEventView::Begin);
        lemma_advance_all(s2, chat_id, (count - 1) as nat);
        assert(seq![s[chat_id].queue[0]] + s[chat_id].queue.drop_first().take(count - 1)
            =~= s[chat_id].queue.take(count as int));
    } else {
        assert(s[chat_id].queue.take(0) =~= Seq::<Seq<char>>::empty());
    }
}

/// Queries requested while a track plays are played in the order they were requested:
/// moving on to the next track as often as there were requests makes each trimmed query
/// current in turn.
pub proof fn law_requests_play_in_order(s: QueuesView, chat_id: i64, raws: Seq<Seq<char>>)
    requires
        queue_or_empty(s, chat_id).current is Some,
        queue_or_empty(s, chat_id).queue.len() == 0,
        forall|i: int| 0 <= i < raws.len() ==> trim(#[trigger] raws[i]).len() > 0,
    ensures
        advance_all(request_all(s, chat_id, raws), chat_id, raws.len()) == raws.map_values(
            |r: Seq<char>| trim(r),
        ),
{
    lemma_request_all(s, chat_id, raws);
    let s2 = request_all(s, chat_id, raws);
    assert(queue_or_empty(s, chat_id).queue + raws.map_values(|r: Seq<char>| trim(r))
        =~= raws.map_values(|r: Seq<char>| trim(r)));
    lemma_advance_all(s2, chat_id, raws.len());
    assert(s2[chat_id].queue.take(raws.len() as int) =~= s2[chat_id].queue);
}

/// A request carrying exactly `Bearer <secret>` is accepted, where the secret is made of
/// bytes a header value can hold as text.
pub proof fn law_bearer_secret_is_accepted(secret: Seq<u8>)
    requires
        forall|i: int| 0 <= i < secret.len() ==> is_visible_ascii(#[trigger] secret[i]),
    ensures
        credentials_accepted(
            Some(seq![66u8, 101u8, 97u8, 114u8, 101u8, 114u8, 32u8] + secret),
            secret.map_values(|b: u8| b as char),
        ),
{
    let prefix = seq![66u8, 101u8, 97u8, 114u8, 101u8, 114u8, 32u8];
    let bytes = prefix + secret;
    let want = bearer_prefix() + secret.map_values(|b: u8| b as char);
    assert forall|i: int| 0 <= i < bytes.len() implies is_visible_ascii(#[trigger] bytes[i]) by {
        if i >= 7 {
            assert(bytes[i] == secret[i - 7]);
        }
    }
    assert(bytes.map_values(|b: u8| b as char) =~= want);
    assert(header_text(bytes) == Some(want));
}

/// How an attempt to play a track turns out.
pub enum TrackOutcome {
    /// Its audio cannot be prepared.
    PrepareFails,
    /// Its audio is prepared, but playback does not start.
    PlaybackFails,
    /// Its audio is prepared and plays.
    Plays,
}

/// Moving on to the next track, with nothing else touching the queues, where the i-th track
/// taken turns out as `outcomes[i]` and each prepared audio is `song`: the queues afterwards,
/// and the query and song handed to playback that started, if any.
pub open spec fn run_next(
    s: QueuesView,
    chat_id: i64,
    outcomes: Seq<TrackOutcome>,
    song: SongInfoView,
) -> (QueuesView, Option<(Seq<char>, SongInfoView)>)
    decreases outcomes.len(),
{
    match next_step(s, chat_id, NextEventView::Begin) {
        (s1, NextStepView::Extract { query, generation }) => {
            if outcomes.len() == 0 {
                (s1, None)
            } else {
                let (s3, after) = match outcomes[0] {
                    TrackOutcome::PrepareFails => next_step(
                        s1,
                        chat_id,
                        NextEventView::AudioFailed { generation },
                    ),
                    _ => match next_step(s1, chat_id, NextEventView::AudioReady { generation, song }) {
                        (s2, NextStepView::Play { song: played, .. }) => if outcomes[0] is Plays {
                            (s2, NextStepView::Play { generation, song: played })
                        } else {
                            next_step(s2, chat_id, NextEventView::PlaybackFailed { generation })
                        },
                        other => other,
                    },
                };
                match after {
                    NextStepView::Play { song: played, .. } => (s3, Some((query, played))),
                    NextStepView::Retry => run_next(s3, chat_id, outcomes.drop_first(), song),
                    _ => (s3, None),
                }
            }
        },
        (s1, _) => (s1, None),
    }
}

/// The index of the first track that plays.
pub open spec fn first_playing(outcomes: Seq<TrackOutcome>) -> Option<nat>
    decreases outcomes.len(),
{
    if outcomes.len() == 0 {
        None
    } else if outcomes[0] is Plays {
        Some(0)
    } else {
        match first_playing(outcomes.drop_first()) {
            Some(k) => Some(k + 1),
            None => None,
        }
    }
}

/// Moving on to the next track skips every waiting track whose audio cannot be prepared or
/// whose playback does not start, in queue order, until one plays: that one is current, it is
/// played with exactly the audio prepared for it, and the tracks after it still wait. Where
/// none plays, the queue ends empty with nothing current. The generation stays, and no other
/// chat is touched.
pub proof fn law_failing_tracks_are_skipped(
    s: QueuesView,
    chat_id: i64,
    outcomes: Seq<TrackOutcome>,
    song: SongInfoView,
)
    requires
        s.contains_key(chat_id),
        outcomes.len() == s[chat_id].queue.len(),
    ensures
        ({
            let (s2, played) = run_next(s, chat_id, outcomes, song);
            let q = s[chat_id].queue;
            let g = s[chat_id].generation;
            match first_playing(outcomes) {
                Some(k) => {
                    &&& k < q.len()
                    &&& played == Some((q[k as int], song))
                    &&& s2 == s.insert(
                        chat_id,
                        ChatQueueView { current: Some(q[k as int]), queue: q.skip(k + 1 as int), generation: g },
                    )
                },
                None => {
                    &&& played is None
                    &&& s2 == s.insert(
                        chat_id,
                        ChatQueueView { current: None, queue: Seq::empty(), generation: g },
                    )
                },
            }
        }),
    decreases outcomes.len(),
{
    let q = s[chat_id].queue;
    let g = s[chat_id].generation;
    if outcomes.len() == 0 {
        assert(q =~= Seq::<Seq<char>>::empty());
        let x = ChatQueueView { current: None, ..s[chat_id] };
        assert(x == ChatQueueView { current: None, queue: Seq::<Seq<char>>::empty(), generation: g });
    } else {
        let s_next = s.insert(chat_id, ChatQueueView { current: None, queue: q.drop_first(), generation: g });
        if !(outcomes[0] is Plays) {
            let (s1, _) = next_step(s, chat_id, NextEventView::Begin);
            let (s3, after) = if outcomes[0] is PrepareFails {
                next_step(s1, chat_id, NextEventView::AudioFailed { generation: g })
            } else {
                next_step(
                    next_step(s1, chat_id, NextEventView::AudioReady { generation: g, song }).0,
                    chat_id,
                    NextEventView::PlaybackFailed { generation: g },
                )
            };
            assert(s3 =~= s_next);
            assert(after == NextStepView::Retry);
            law_failing_tracks_are_skipped(s_next, chat_id, outcomes.drop_first(), song);
            let rest = outcomes.drop_first();
            match first_playing(rest) {
                Some(k) => {
                    assert(q.drop_first()[k as int] == q[k + 1 as int]);
                    assert(q.drop_first().skip(k + 1 as int) =~= q.skip(k + 2 as int));
                    assert(s_next.insert(
                        chat_id,
                        ChatQueueView {
                            current: Some(q.drop_first()[k as int]),
                            queue: q.drop_first().skip(k + 1 as int),
                            generation: g,
                        },
                    ) =~= s.insert(
                        chat_id,
                        ChatQueueView { current: Some(q[k + 1 as int]), queue: q.skip(k + 2 as int), generation: g },
                    ));
                },
                None => {
                    assert(s_next.insert(
                        chat_id,
                        ChatQueueView { current: None, queue: Seq::empty(), generation: g },
                    ) =~= s.insert(
                        chat_id,
                        ChatQueueView { current: None, queue: Seq::empty(), generation: g },
                    ));
                },
            }
        } else {
            assert(q.drop_first() =~= q.skip(1));
        }
    }
}

} // verus!
