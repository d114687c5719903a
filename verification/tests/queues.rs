use axum::http::{HeaderMap, HeaderValue};
use music_worker::models::{PlayRequest, SongInfo};
use music_worker::routes::play::{audio_prepared, play, playback_started, PlayStep};
use music_worker::routes::queue::queue;
use music_worker::state::{ChatQueue, ChatQueues};
use music_worker::worker::{call_event, play_next, CallSignal, NextEvent, NextStep};

const SECRET: &str = "top";
const CHAT: i64 = -100123;

fn auth() -> HeaderMap {
    let mut h = HeaderMap::new();
    h.insert("authorization", HeaderValue::from_static("Bearer top"));
    h
}

fn request(query: &str) -> PlayRequest {
    PlayRequest { chat_id: CHAT, query: query.to_string(), quality: None }
}

fn song(title: &str) -> SongInfo {
    SongInfo {
        title: title.to_string(),
        artist: "A".to_string(),
        duration: 10,
        thumbnail: None,
        url: format!("https://x/{title}"),
    }
}

fn current(q: &ChatQueues) -> Option<String> {
    q.get(CHAT).and_then(|c| c.current.as_ref().map(|i| i.query.clone()))
}

fn waiting(q: &ChatQueues) -> Vec<String> {
    q.get(CHAT).map(|c| c.queue.iter().map(|i| i.query.clone()).collect()).unwrap_or_default()
}

/// Runs a play request through to playback that succeeds.
fn play_now(q: &mut ChatQueues, query: &str) {
    match play(q, &auth(), SECRET, request(query)) {
        PlayStep::FetchAudio { chat_id, query } => {
            match audio_prepared(q, chat_id, query.clone(), Ok(song(&query))) {
                PlayStep::StartPlayback { chat_id, generation, song } => {
                    match playback_started(q, chat_id, generation, song, Ok(())) {
                        PlayStep::Respond(Ok(r)) => assert_eq!(r.status, "playing"),
                        _ => panic!("expected playing"),
                    }
                }
                _ => panic!("expected playback"),
            }
        }
        _ => panic!("expected fetch"),
    }
}

#[test]
fn new_chat_queue_is_empty() {
    let q = ChatQueue::new();
    assert!(q.current.is_none());
    assert!(q.queue.is_empty());
    assert_eq!(q.generation, 0);
}

#[test]
fn unauthorized_request_is_refused_without_change() {
    let mut q = ChatQueues::new();
    match play(&mut q, &HeaderMap::new(), SECRET, request("song")) {
        PlayStep::Respond(Err(e)) => {
            assert_eq!(e.status, 401);
            assert_eq!(e.detail, "Unauthorized");
        }
        _ => panic!("expected 401"),
    }
    assert!(q.get(CHAT).is_none());
}

#[test]
fn blank_query_is_refused_without_change() {
    let mut q = ChatQueues::new();
    match play(&mut q, &auth(), SECRET, request("  \n ")) {
        PlayStep::Respond(Err(e)) => {
            assert_eq!(e.status, 400);
            assert_eq!(e.detail, "No search query supplied");
        }
        _ => panic!("expected 400"),
    }
    assert!(q.get(CHAT).is_none());
}

#[test]
fn first_request_fetches_trimmed_query() {
    let mut q = ChatQueues::new();
    match play(&mut q, &auth(), SECRET, request("  lofi beats ")) {
        PlayStep::FetchAudio { chat_id, query } => {
            assert_eq!(chat_id, CHAT);
            assert_eq!(query, "lofi beats");
        }
        _ => panic!("expected fetch"),
    }
    // the chat has a queue now, with nothing current yet
    assert!(q.get(CHAT).is_some());
    assert_eq!(current(&q), None);
}

#[test]
fn request_while_playing_is_queued() {
    let mut q = ChatQueues::new();
    play_now(&mut q, "one");
    assert_eq!(current(&q).as_deref(), Some("one"));
    match play(&mut q, &auth(), SECRET, request(" two ")) {
        PlayStep::Respond(Ok(r)) => {
            assert_eq!(r.status, "queued");
            assert_eq!(r.song.title, "two");
            assert_eq!(r.song.artist, "Waiting in queue");
            assert_eq!(r.song.duration, 0);
            assert_eq!(r.song.thumbnail, None);
            assert_eq!(r.song.url, "");
        }
        _ => panic!("expected queued"),
    }
    assert_eq!(current(&q).as_deref(), Some("one"));
    assert_eq!(waiting(&q), vec!["two"]);
}

#[test]
fn failed_audio_is_bad_gateway_and_changes_nothing() {
    let mut q = ChatQueues::new();
    let step = audio_prepared(&mut q, CHAT, "x".to_string(), Err("no hit".to_string()));
    match step {
        PlayStep::Respond(Err(e)) => {
            assert_eq!(e.status, 502);
            assert_eq!(e.detail, "Could not prepare this song: no hit");
        }
        _ => panic!("expected 502"),
    }
    assert!(q.get(CHAT).is_none());
}

#[test]
fn failed_playback_clears_current() {
    let mut q = ChatQueues::new();
    let step = audio_prepared(&mut q, CHAT, "x".to_string(), Ok(song("x")));
    let PlayStep::StartPlayback { generation, song, .. } = step else { panic!() };
    assert_eq!(generation, 0);
    assert_eq!(current(&q).as_deref(), Some("x"));
    match playback_started(&mut q, CHAT, generation, song, Err("not in call".to_string())) {
        PlayStep::Respond(Err(e)) => {
            assert_eq!(e.status, 502);
            assert_eq!(e.detail, "Could not start playback: not in call");
        }
        _ => panic!("expected 502"),
    }
    assert_eq!(current(&q), None);
}

#[test]
fn failed_playback_after_reset_leaves_new_lifecycle_alone() {
    let mut q = ChatQueues::new();
    let step = audio_prepared(&mut q, CHAT, "x".to_string(), Ok(song("x")));
    let PlayStep::StartPlayback { generation, song: s, .. } = step else { panic!() };
    assert!(!call_event(&mut q, CHAT, CallSignal::Ended));
    let _ = audio_prepared(&mut q, CHAT, "y".to_string(), Ok(song("y")));
    let _ = playback_started(&mut q, CHAT, generation, s, Err("late".to_string()));
    assert_eq!(current(&q).as_deref(), Some("y"));
}

#[test]
fn queue_listing() {
    let mut q = ChatQueues::new();
    play_now(&mut q, "one");
    let _ = play(&mut q, &auth(), SECRET, request("two"));
    let _ = play(&mut q, &auth(), SECRET, request("three"));
    let listing = queue(&q, &auth(), SECRET, CHAT).ok().unwrap();
    assert_eq!(listing.current.as_deref(), Some("one"));
    assert_eq!(listing.queue.len(), 2);
    assert_eq!((listing.queue[0].position, listing.queue[0].query.as_str()), (1, "two"));
    assert_eq!((listing.queue[1].position, listing.queue[1].query.as_str()), (2, "three"));
}

#[test]
fn queue_listing_of_unknown_chat_is_empty() {
    let q = ChatQueues::new();
    let listing = queue(&q, &auth(), SECRET, 42).ok().unwrap();
    assert!(listing.current.is_none());
    assert!(listing.queue.is_empty());
}

#[test]
fn queue_listing_requires_authorization() {
    let q = ChatQueues::new();
    let e = queue(&q, &HeaderMap::new(), SECRET, CHAT).err().unwrap();
    assert_eq!(e.status, 401);
    assert_eq!(e.detail, "Unauthorized");
}

#[test]
fn enqueue_reports_position() {
    let mut q = ChatQueues::new();
    assert_eq!(q.enqueue_request(CHAT, "a".to_string()), None);
    q.start_current(CHAT, "a".to_string());
    assert_eq!(q.enqueue_request(CHAT, "b".to_string()), Some(1));
    assert_eq!(q.enqueue_request(CHAT, "c".to_string()), Some(2));
    let listing = queue(&q, &auth(), SECRET, CHAT).ok().unwrap();
    assert_eq!(listing.queue[1].position, 2);
    assert_eq!(listing.queue[1].query, "c");
}

#[test]
fn requests_play_in_order() {
    let mut q = ChatQueues::new();
    play_now(&mut q, "one");
    for s in ["two", "three", "four"] {
        let _ = play(&mut q, &auth(), SECRET, request(s));
    }
    let mut played = Vec::new();
    for _ in 0..3 {
        match play_next(&mut q, CHAT, NextEvent::Begin) {
            NextStep::Extract { query, .. } => played.push(query),
            _ => panic!("expected a track"),
        }
    }
    assert_eq!(played, vec!["two", "three", "four"]);
    assert!(matches!(play_next(&mut q, CHAT, NextEvent::Begin), NextStep::Stop));
    assert_eq!(current(&q), None);
}

#[test]
fn next_track_flow() {
    let mut q = ChatQueues::new();
    play_now(&mut q, "one");
    let _ = play(&mut q, &auth(), SECRET, request("two"));
    let NextStep::Extract { query, generation } = play_next(&mut q, CHAT, NextEvent::Begin) else {
        panic!()
    };
    assert_eq!(query, "two");
    assert_eq!(current(&q).as_deref(), Some("two"));
    assert!(waiting(&q).is_empty());
    match play_next(&mut q, CHAT, NextEvent::AudioReady { generation, song: song("two") }) {
        NextStep::Play { generation: g, song: s } => {
            assert_eq!(g, generation);
            assert_eq!(s.title, "two");
            assert_eq!(s.url, "https://x/two");
        }
        _ => panic!("expected play"),
    }
}

#[test]
fn failed_next_track_is_skipped() {
    let mut q = ChatQueues::new();
    play_now(&mut q, "one");
    let _ = play(&mut q, &auth(), SECRET, request("bad"));
    let _ = play(&mut q, &auth(), SECRET, request("good"));
    let NextStep::Extract { generation, .. } = play_next(&mut q, CHAT, NextEvent::Begin) else {
        panic!()
    };
    assert!(matches!(play_next(&mut q, CHAT, NextEvent::AudioFailed { generation }), NextStep::Retry));
    assert_eq!(current(&q), None);
    match play_next(&mut q, CHAT, NextEvent::Begin) {
        NextStep::Extract { query, .. } => assert_eq!(query, "good"),
        _ => panic!(),
    }
    assert!(matches!(
        play_next(&mut q, CHAT, NextEvent::PlaybackFailed { generation }),
        NextStep::Retry
    ));
    assert!(matches!(play_next(&mut q, CHAT, NextEvent::Begin), NextStep::Stop));
}

#[test]
fn next_track_without_queue_stops() {
    let mut q = ChatQueues::new();
    assert!(matches!(play_next(&mut q, CHAT, NextEvent::Begin), NextStep::Stop));
    assert!(q.get(CHAT).is_none());
}

#[test]
fn end_of_voice_chat_resets_queue() {
    let mut q = ChatQueues::new();
    play_now(&mut q, "one");
    let _ = play(&mut q, &auth(), SECRET, request("two"));
    assert!(!call_event(&mut q, CHAT, CallSignal::Left));
    assert_eq!(current(&q), None);
    assert!(waiting(&q).is_empty());
    assert_eq!(q.generation(CHAT), Some(1));
    assert!(!call_event(&mut q, CHAT, CallSignal::Ended));
    assert_eq!(q.generation(CHAT), Some(2));
    // other chats have no queue to reset
    assert!(!call_event(&mut q, 7, CallSignal::Ended));
    assert_eq!(q.generation(7), None);
}

#[test]
fn stream_end_advances_and_other_events_do_nothing() {
    let mut q = ChatQueues::new();
    play_now(&mut q, "one");
    assert!(call_event(&mut q, CHAT, CallSignal::StreamEnded));
    assert!(!call_event(&mut q, CHAT, CallSignal::Other));
    assert_eq!(current(&q).as_deref(), Some("one"));
    assert_eq!(q.generation(CHAT), Some(0));
}

#[test]
fn stale_work_is_ignored_after_reset() {
    let mut q = ChatQueues::new();
    play_now(&mut q, "one");
    let _ = play(&mut q, &auth(), SECRET, request("two"));
    let NextStep::Extract { generation, .. } = play_next(&mut q, CHAT, NextEvent::Begin) else {
        panic!()
    };
    call_event(&mut q, CHAT, CallSignal::Ended);
    assert!(matches!(play_next(&mut q, CHAT, NextEvent::AudioReady { generation, song: song("x") }), NextStep::Stop));
    assert!(matches!(play_next(&mut q, CHAT, NextEvent::AudioFailed { generation }), NextStep::Stop));
    assert!(matches!(
        play_next(&mut q, CHAT, NextEvent::PlaybackFailed { generation }),
        NextStep::Stop
    ));
}

#[test]
fn audio_ready_after_current_cleared_stops() {
    let mut q = ChatQueues::new();
    play_now(&mut q, "one");
    let _ = play(&mut q, &auth(), SECRET, request("two"));
    let NextStep::Extract { generation, .. } = play_next(&mut q, CHAT, NextEvent::Begin) else {
        panic!()
    };
    assert!(q.drop_current(CHAT, generation));
    assert!(!q.still_current(CHAT, generation));
    assert!(matches!(play_next(&mut q, CHAT, NextEvent::AudioReady { generation, song: song("x") }), NextStep::Stop));
}

#[test]
fn chats_are_independent() {
    let mut q = ChatQueues::new();
    play_now(&mut q, "one");
    let other = PlayRequest { chat_id: 5, query: "elsewhere".to_string(), quality: Some("high".to_string()) };
    assert!(matches!(play(&mut q, &auth(), SECRET, other), PlayStep::FetchAudio { chat_id: 5, .. }));
    call_event(&mut q, 5, CallSignal::Ended);
    assert_eq!(current(&q).as_deref(), Some("one"));
    assert_eq!(q.generation(CHAT), Some(0));
}

#[test]
fn failing_tracks_are_skipped_until_one_plays() {
    let mut q = ChatQueues::new();
    play_now(&mut q, "one");
    for s in ["a", "b", "c", "d"] {
        let _ = play(&mut q, &auth(), SECRET, request(s));
    }
    // "a" cannot be prepared
    let NextStep::Extract { query, generation } = play_next(&mut q, CHAT, NextEvent::Begin) else {
        panic!()
    };
    assert_eq!(query, "a");
    assert!(matches!(play_next(&mut q, CHAT, NextEvent::AudioFailed { generation }), NextStep::Retry));
    // "b" is prepared but does not start
    let NextStep::Extract { query, generation } = play_next(&mut q, CHAT, NextEvent::Begin) else {
        panic!()
    };
    assert_eq!(query, "b");
    let NextStep::Play { .. } =
        play_next(&mut q, CHAT, NextEvent::AudioReady { generation, song: song("b") })
    else {
        panic!()
    };
    assert!(matches!(
        play_next(&mut q, CHAT, NextEvent::PlaybackFailed { generation }),
        NextStep::Retry
    ));
    // "c" plays
    let NextStep::Extract { query, generation } = play_next(&mut q, CHAT, NextEvent::Begin) else {
        panic!()
    };
    assert_eq!(query, "c");
    let NextStep::Play { song: s, .. } =
        play_next(&mut q, CHAT, NextEvent::AudioReady { generation, song: song("c") })
    else {
        panic!()
    };
    assert_eq!(s.url, "https://x/c");
    assert_eq!(current(&q).as_deref(), Some("c"));
    assert_eq!(waiting(&q), vec!["d"]);
}
