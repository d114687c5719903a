# music_worker

The request and queue logic of a Telegram voice-chat music worker, verified with Verus.

- `src/state.rs` — per-chat play queues (`ChatQueues`), modelled as a map from chat id to
  the current query, the waiting queries and a lifecycle generation.
- `src/routes/` — `POST /play` and `GET /queue/{chat_id}` as steps between the awaits of
  a handler: each step takes the queue state and the outcome of the last piece of outside
  work, and says what to do next.
- `src/worker.rs` — reactions to voice-chat events and the steps of moving on to the next
  queued track.
- `src/auth.rs` — the bearer-token check on the request headers.
- `src/downloader.rs` — what `yt-dlp` is asked and what its answer becomes.
- `src/text.rs` — Unicode whitespace and trimming.
- `src/laws.rs` — properties of the logic as a whole.
- `app/` — the server: axum, tokio, `yt-dlp` processes and tgcalls playback.
