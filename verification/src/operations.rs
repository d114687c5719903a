//! What each operation does, stated over its inputs and results.

use vstd::prelude::*;

use crate::auth::{credentials_accepted, is_visible_ascii};
use crate::downloader::{search_of, song_from_metadata, YtDlpInfoView};
use crate::models::{ApiErrorView, PlayResponseView, QueueResponseView, SongInfoView};
use crate::routes::play::{on_audio, on_play_request, on_playback, PlayStepView};
use crate::routes::queue::on_queue_request;
use crate::state::{ChatQueueView, QueuesView};
use crate::text::{is_white_space, trim, trim_end, trim_start};
use crate::worker::{after_signal, next_step, CallSignal, NextEventView, NextStepView};

verus! {

/// When the audio of a track taken under generation `g` is ready and that track is still
/// current in an unchanged lifecycle, playback is asked for exactly the prepared song, under
/// the same `g`, and the queues stay as they are. Should that playback fail, the report
/// under `g` clears the current track (keeping the waiting ones and the generation), and the
/// next waiting track, if any, is then taken under `g`.
pub proof fn law_ready_audio_plays_under_its_generation(
    s: QueuesView,
    chat_id: i64,
    g: u64,
    song: SongInfoView,
)
    requires
        s.contains_key(chat_id),
        s[chat_id].generation == g,
        s[chat_id].current is Some,
    ensures
        ({
            let (s2, step) = next_step(s, chat_id, NextEventView::AudioReady { generation: g, song });
            &&& s2 == s
            &&& step matches NextStepView::Play { generation: pg, song: ps }
            &&& pg == g
            &&& ps == song
            &&& ({
                let (s3, after) = next_step(s2, chat_id, NextEventView::PlaybackFailed { generation: pg });
                &&& after is Retry
                &&& s3 == s.insert(
                    chat_id,
                    ChatQueueView { current: None, queue: s[chat_id].queue, generation: g },
                )
                &&& ({
                    let (s4, next) = next_step(s3, chat_id, NextEventView::Begin);
                    if s[chat_id].queue.len() > 0 {
                        &&& next == NextStepView::Extract { query: s[chat_id].queue[0], generation: g }
                        &&& s4[chat_id].current == Some(s[chat_id].queue[0])
                        &&& s4[chat_id].queue == s[chat_id].queue.drop_first()
                    } else {
                        &&& next is Stop
                        &&& s4[chat_id].current is None
                    }
                })
            })
        }),
{
}

/// A request whose audio is prepared as `song` starts playback of exactly that song (in every
/// field), in the same chat, under the chat's generation, with the query current and the
/// waiting tracks untouched; once playback starts the answer is `"playing"` with that song.
/// A failed preparation is answered 502 with the message and changes nothing.
pub proof fn law_prepared_song_is_played(
    s: QueuesView,
    chat_id: i64,
    query: Seq<char>,
    song: SongInfoView,
    message: Seq<char>,
)
    ensures
        ({
            let (s2, step) = on_audio(s, chat_id, query, Ok(song));
            let g: u64 = if s.contains_key(chat_id) { s[chat_id].generation } else { 0 };
            let waiting = if s.contains_key(chat_id) { s[chat_id].queue } else { Seq::empty() };
            &&& step == PlayStepView::StartPlayback { chat_id, generation: g, song }
            &&& s2.contains_key(chat_id)
            &&& s2[chat_id] == ChatQueueView { current: Some(query), queue: waiting, generation: g }
            &&& on_playback(s2, chat_id, g, song, Ok(())) == (
                s2,
                PlayStepView::Respond(Ok(PlayResponseView { status: "playing"@, song })),
            )
        }),
        on_audio(s, chat_id, query, Err(message)) == (
            s,
            PlayStepView::Respond(
                Err(ApiErrorView { status: 502, detail: "Could not prepare this song: "@ + message }),
            ),
        ),
{
}

/// A playback that fails is answered 502 with the message; it clears the current track
/// only where the chat's generation is still the one it started under.
pub proof fn law_failed_playback_answer(
    s: QueuesView,
    chat_id: i64,
    g: u64,
    song: SongInfoView,
    message: Seq<char>,
)
    ensures
        ({
            let (s2, step) = on_playback(s, chat_id, g, song, Err(message));
            &&& step == PlayStepView::Respond(
                Err(ApiErrorView { status: 502, detail: "Could not start playback: "@ + message }),
            )
            &&& s2 == if s.contains_key(chat_id) && s[chat_id].generation == g {
                s.insert(chat_id, ChatQueueView { current: None, ..s[chat_id] })
            } else {
                s
            }
        }),
{
}

/// A request without the right credentials is answered 401 "Unauthorized", and one whose
/// query is blank once trimmed is answered 400 "No search query supplied"; neither
/// changes the queues.
pub proof fn law_refused_request_answers(s: QueuesView, authorized: bool, chat_id: i64, raw_query: Seq<char>)
    ensures
        !authorized ==> on_play_request(s, authorized, chat_id, raw_query) == (
            s,
            PlayStepView::Respond(Err(ApiErrorView { status: 401, detail: "Unauthorized"@ })),
        ),
        authorized && trim(raw_query).len() == 0 ==> on_play_request(
            s,
            authorized,
            chat_id,
            raw_query,
        ) == (
            s,
            PlayStepView::Respond(
                Err(ApiErrorView { status: 400, detail: "No search query supplied"@ }),
            ),
        ),
{
}

/// An accepted request (authorized, non-blank once trimmed) is queued behind a current track,
/// answered `"queued"` with a placeholder named after the trimmed query; with nothing
/// current its trimmed query is to be prepared and nothing is queued.
pub proof fn law_accepted_request(s: QueuesView, chat_id: i64, raw_query: Seq<char>)
    requires
        trim(raw_query).len() > 0,
    ensures
        ({
            let (s2, step) = on_play_request(s, true, chat_id, raw_query);
            let query = trim(raw_query);
            let waiting = if s.contains_key(chat_id) { s[chat_id].queue } else { Seq::empty() };
            let g: u64 = if s.contains_key(chat_id) { s[chat_id].generation } else { 0 };
            &&& s2.contains_key(chat_id)
            &&& s2[chat_id].generation == g
            &&& if s.contains_key(chat_id) && s[chat_id].current is Some {
                &&& s2[chat_id].current == s[chat_id].current
                &&& s2[chat_id].queue == waiting.push(query)
                &&& step == PlayStepView::Respond(
                    Ok(
                        PlayResponseView {
                            status: "queued"@,
                            song: SongInfoView {
                                title: query,
                                artist: "Waiting in queue"@,
                                duration: 0,
                                thumbnail: None,
                                url: Seq::empty(),
                            },
                        },
                    ),
                )
            } else {
                &&& s2[chat_id].current is None
                &&& s2[chat_id].queue == waiting
                &&& step == PlayStepView::FetchAudio { chat_id, query }
            }
        }),
{
}

/// A stream ending, or any event other than the voice chat ending or the worker leaving,
/// leaves the queues exactly as they were; so moving on afterwards takes the first
/// waiting track.
pub proof fn law_non_ending_signals_change_nothing(s: QueuesView, chat_id: i64, signal: CallSignal)
    requires
        !(signal is Ended || signal is Left),
    ensures
        after_signal(s, chat_id, signal) == s,
        ({
            let next = next_step(after_signal(s, chat_id, signal), chat_id, NextEventView::Begin).1;
            s.contains_key(chat_id) && s[chat_id].queue.len() > 0 ==> (next == NextStepView::Extract {
                query: s[chat_id].queue[0],
                generation: s[chat_id].generation,
            })
        }),
{
}

/// A queue listing shows the chat's current query whatever waits, and every waiting query in
/// order with its 1-based position; a chat without a queue lists nothing, and an
/// unauthorized request is answered 401.
pub proof fn law_queue_listing(s: QueuesView, authorized: bool, chat_id: i64)
    ensures
        ({
            let answer = on_queue_request(s, authorized, chat_id);
            if !authorized {
                answer == Err::<QueueResponseView, ApiErrorView>(
                    ApiErrorView { status: 401, detail: "Unauthorized"@ },
                )
            } else if !s.contains_key(chat_id) {
                answer == Ok::<QueueResponseView, ApiErrorView>(
                    QueueResponseView { current: None, queue: Seq::empty() },
                )
            } else {
                &&& (answer matches Ok(v))
                &&& answer->Ok_0.current == s[chat_id].current
                &&& answer->Ok_0.queue.len() == s[chat_id].queue.len()
                &&& forall|i: int|
                    0 <= i < s[chat_id].queue.len() ==> (#[trigger] answer->Ok_0.queue[i]).0 == (i
                        + 1) as usize && answer->Ok_0.queue[i].1 == s[chat_id].queue[i]
            }
        }),
{
}

/// Each field of the track comes from yt-dlp's metadata where reported: the title (else the
/// query), the uploader (else the channel, else "Unknown Artist"), the duration (else 0),
/// the thumbnail, and the page (else the search).
pub proof fn law_metadata_fields(query: Seq<char>, search: Seq<char>, info: YtDlpInfoView)
    ensures
        ({
            let r = song_from_metadata(query, search, info);
            &&& (info.title matches Some(t) ==> r.title == t)
            &&& (info.title is None ==> r.title == query)
            &&& (info.uploader matches Some(a) ==> r.artist == a)
            &&& (info.uploader is None ==> (info.channel matches Some(c) ==> r.artist == c))
            &&& (info.uploader is None && info.channel is None ==> r.artist == "Unknown Artist"@)
            &&& (info.duration matches Some(d) ==> r.duration == d)
            &&& (info.duration is None ==> r.duration == 0)
            &&& r.thumbnail == info.thumbnail
            &&& (info.webpage_url matches Some(u) ==> r.url == u)
            &&& (info.webpage_url is None ==> r.url == search)
        }),
{
}

/// The search for a query is the `ytsearch1:` prefix followed by the query itself.
pub proof fn law_search_is_prefixed_query(query: Seq<char>)
    ensures
        search_of(query).len() == query.len() + 10,
        search_of(query).take(10) == "ytsearch1:"@,
        search_of(query).skip(10) == query,
{
    reveal_strlit("ytsearch1:");
    assert(search_of(query).take(10) =~= "ytsearch1:"@);
    assert(search_of(query).skip(10) =~= query);
}

/// An accepted authorization value is exactly the bytes of `Bearer ` followed by the
/// expected secret's characters, each a visible ASCII byte (or tab).
pub proof fn law_accepted_credentials_spell_the_secret(value: Seq<u8>, expected: Seq<char>)
    requires
        credentials_accepted(Some(value), expected),
    ensures
        value.len() == expected.len() + 7,
        value.take(7) == seq![66u8, 101u8, 97u8, 114u8, 101u8, 114u8, 32u8],
        forall|i: int| 0 <= i < expected.len() ==> (#[trigger] value[i + 7]) as char == expected[i],
        forall|i: int| 0 <= i < value.len() ==> is_visible_ascii(#[trigger] value[i]),
{
    let text = value.map_values(|b: u8| b as char);
    assert(text.len() == value.len());
    assert forall|i: int| 0 <= i < expected.len() implies (#[trigger] value[i + 7]) as char == expected[i] by {
        assert(text[i + 7] == value[i + 7] as char);
    }
    assert forall|i: int| 0 <= i < 7 implies value[i] as char == text[i] by {}
    assert(value.take(7) =~= seq![66u8, 101u8, 97u8, 114u8, 101u8, 114u8, 32u8]) by {
        assert(text[0] == 'B' && text[1] == 'e' && text[2] == 'a' && text[3] == 'r');
        assert(text[4] == 'e' && text[5] == 'r' && text[6] == ' ');
    }
}

proof fn lemma_trim_start(s: Seq<char>) -> (i: int)
    ensures
        0 <= i <= s.len(),
        trim_start(s) == s.subrange(i, s.len() as int),
        forall|k: int| 0 <= k < i ==> is_white_space(#[trigger] s[k]),
        i < s.len() ==> !is_white_space(s[i]),
    decreases s.len(),
{
    if s.len() > 0 && is_white_space(s[0]) {
        let j = lemma_trim_start(s.drop_first());
        assert(s.drop_first().subrange(j, s.drop_first().len() as int) =~= s.subrange(
            j + 1,
            s.len() as int,
        ));
        assert forall|k: int| 0 <= k < j + 1 implies is_white_space(#[trigger] s[k]) by {
            if k > 0 {
                assert(s[k] == s.drop_first()[k - 1]);
            }
        }
        j + 1
    } else {
        assert(s.subrange(0, s.len() as int) =~= s);
        0
    }
}

proof fn lemma_trim_end(s: Seq<char>) -> (j: int)
    ensures
        0 <= j <= s.len(),
        trim_end(s) == s.subrange(0, j),
        forall|k: int| j <= k < s.len() ==> is_white_space(#[trigger] s[k]),
        j > 0 ==> !is_white_space(s[j - 1]),
    decreases s.len(),
{
    if s.len() > 0 && is_white_space(s.last()) {
        let j = lemma_trim_end(s.drop_last());
        assert(s.drop_last().subrange(0, j) =~= s.subrange(0, j));
        assert forall|k: int| j <= k < s.len() implies is_white_space(#[trigger] s[k]) by {
            if k < s.len() - 1 {
                assert(s[k] == s.drop_last()[k]);
            }
        }
        j
    } else {
        assert(s.subrange(0, s.len() as int) =~= s);
        s.len() as int
    }
}

/// Trimming keeps a contiguous part of the text: everything cut off before and after it is
/// whitespace, and what is kept neither starts nor ends with whitespace.
pub proof fn law_trim_cuts_only_whitespace(s: Seq<char>)
    ensures
        exists|i: int, j: int|
            {
                &&& 0 <= i <= j <= s.len()
                &&& trim(s) == s.subrange(i, j)
                &&& forall|k: int| 0 <= k < i ==> is_white_space(#[trigger] s[k])
                &&& forall|k: int| j <= k < s.len() ==> is_white_space(#[trigger] s[k])
                &&& i < j ==> !is_white_space(s[i]) && !is_white_space(s[j - 1])
            },
{
    let i = lemma_trim_start(s);
    let t = s.subrange(i, s.len() as int);
    let j = lemma_trim_end(t);
    assert(t.subrange(0, j) =~= s.subrange(i, i + j));
    assert forall|k: int| i + j <= k < s.len() implies is_white_space(#[trigger] s[k]) by {
        assert(s[k] == t[k - i]);
    }
    if 0 < j {
        assert(s[i] == t[0]);
        assert(s[i + j - 1] == t[j - 1]);
    }
    assert(trim(s) == s.subrange(i, i + j));
}

} // verus!
