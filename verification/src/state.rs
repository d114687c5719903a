//! Per-chat play queues.

use std::collections::HashMap;
use std::collections::VecDeque;
use vstd::prelude::*;

verus! {

/// One requested track, identified by its search query.
#[derive(Clone)]
pub struct QueueItem {
    pub query: String,
}

impl View for QueueItem {
    type V = Seq<char>;

    open spec fn view(&self) -> Seq<char> {
        self.query@
    }
}

/// The abstract state of one chat's queue.
pub struct ChatQueueView {
    /// Query of the track that is playing or being prepared.
    pub current: Option<Seq<char>>,
    /// Queries waiting to be played, first to play first.
    pub queue: Seq<Seq<char>>,
    /// Lifecycle counter of the queue.
    pub generation: u64,
}

/// The play queue of one chat.
pub struct ChatQueue {
    pub current: Option<QueueItem>,
    pub queue: VecDeque<QueueItem>,
    /// Changes whenever the queue lifecycle is reset.
    /// Prevents old background tasks from starting playback
    /// after the voice chat has ended.
    pub generation: u64,
}

impl View for ChatQueue {
    type V = ChatQueueView;

    open spec fn view(&self) -> ChatQueueView {
        ChatQueueView {
            current: match self.current {
                Some(item) => Some(item.query@),
                None => None,
            },
            queue: self.queue@.map_values(|item: QueueItem| item.query@),
            generation: self.generation,
        }
    }
}

/// The queue a chat starts with: nothing playing, nothing waiting.
pub open spec fn empty_chat_queue() -> ChatQueueView {
    ChatQueueView { current: None, queue: Seq::empty(), generation: 0 }
}

impl ChatQueue {
    pub fn new() -> (q: Self)
        ensures
            q@ == empty_chat_queue(),
    {
        let q = ChatQueue { current: None, queue: VecDeque::new(), generation: 0 };
        assert(q@.queue =~= Seq::<Seq<char>>::empty());
        q
    }
}


/// The abstract state of all chats: each chat id that has a queue, with that queue.
pub type QueuesView = Map<i64, ChatQueueView>;

/// The queue of `chat_id`, or the queue a chat starts with where it has none yet.
pub open spec fn queue_or_empty(s: QueuesView, chat_id: i64) -> ChatQueueView {
    if s.contains_key(chat_id) {
        s[chat_id]
    } else {
        empty_chat_queue()
    }
}

/// The voice chat ended or the worker left it: a chat that has a queue starts a new
/// lifecycle with nothing playing and nothing waiting.
pub open spec fn reset_chat(s: QueuesView, chat_id: i64) -> QueuesView {
    if s.contains_key(chat_id) {
        s.insert(
            chat_id,
            ChatQueueView {
                current: None,
                queue: Seq::empty(),
                generation: (s[chat_id].generation + 1) as u64,
            },
        )
    } else {
        s
    }
}

/// A new request for `query` arrives: the chat gets a queue if it has none; where a track
/// is current the query waits at the back and its 1-based position is returned; otherwise
/// nothing is queued and `None` says the query is to be played at once.
pub open spec fn enqueue_request(s: QueuesView, chat_id: i64, query: Seq<char>) -> (QueuesView, Option<nat>) {
    let q = queue_or_empty(s, chat_id);
    if q.current is Some {
        (
            s.insert(chat_id, ChatQueueView { queue: q.queue.push(query), ..q }),
            Some(q.queue.len() + 1),
        )
    } else {
        (s.insert(chat_id, q), None)
    }
}

/// `query` becomes the chat's current track; the generation it started under is returned.
pub open spec fn start_current(s: QueuesView, chat_id: i64, query: Seq<char>) -> (QueuesView, u64) {
    let q = queue_or_empty(s, chat_id);
    (s.insert(chat_id, ChatQueueView { current: Some(query), ..q }), q.generation)
}

/// The chat's lifecycle is still the one of `generation`.
pub open spec fn same_generation(s: QueuesView, chat_id: i64, generation: u64) -> bool {
    s.contains_key(chat_id) && s[chat_id].generation == generation
}

/// A track started under `generation` failed: where the lifecycle is still the same,
/// nothing is current any more; otherwise nothing changes.
pub open spec fn drop_current(s: QueuesView, chat_id: i64, generation: u64) -> QueuesView {
    if same_generation(s, chat_id, generation) {
        s.insert(chat_id, ChatQueueView { current: None, ..s[chat_id] })
    } else {
        s
    }
}

/// The next waiting query becomes current and is returned with the generation; where the
/// chat has a queue but nothing waits, nothing is current afterwards.
pub open spec fn take_next(s: QueuesView, chat_id: i64) -> (QueuesView, Option<(Seq<char>, u64)>) {
    if !s.contains_key(chat_id) {
        (s, None)
    } else {
        let q = s[chat_id];
        if q.queue.len() == 0 {
            (s.insert(chat_id, ChatQueueView { current: None, ..q }), None)
        } else {
            (
                s.insert(
                    chat_id,
                    ChatQueueView { current: Some(q.queue[0]), queue: q.queue.drop_first(), ..q },
                ),
                Some((q.queue[0], q.generation)),
            )
        }
    }
}

/// A track prepared under `generation` may still start: same lifecycle, and a track is current.
pub open spec fn still_current(s: QueuesView, chat_id: i64, generation: u64) -> bool {
    same_generation(s, chat_id, generation) && s[chat_id].current is Some
}

/// The play queues of all chats, by chat id.
pub struct ChatQueues {
    chats: HashMap<i64, ChatQueue>,
}

impl View for ChatQueues {
    type V = QueuesView;

    closed spec fn view(&self) -> QueuesView {
        self.chats@.map_values(|q: ChatQueue| q@)
    }
}

impl ChatQueues {
    /// No chat has a queue yet.
    pub fn new() -> (r: Self)
        ensures
            r@ == Map::<i64, ChatQueueView>::empty(),
    {
        let r = ChatQueues { chats: HashMap::new() };
        assert(r@ =~= Map::<i64, ChatQueueView>::empty());
        r
    }

    /// Takes the chat's queue out of the map (a fresh one where it has none).
    fn take_queue(&mut self, chat_id: i64) -> (q: ChatQueue)
        ensures
            q@ == queue_or_empty(old(self)@, chat_id),
            final(self)@ == old(self)@.remove(chat_id),
    {
        let r = self.chats.remove(&chat_id);
        proof {
            assert(self@ =~= old(self)@.remove(chat_id));
        }
        match r {
            Some(q) => q,
            None => ChatQueue::new(),
        }
    }

    /// Puts a chat's queue back into the map.
    fn put_queue(&mut self, chat_id: i64, q: ChatQueue)
        ensures
            final(self)@ == old(self)@.insert(chat_id, q@),
    {
        let ghost qv = q@;
        self.chats.insert(chat_id, q);
        proof {
            assert(self@ =~= old(self)@.insert(chat_id, qv));
        }
    }

    /// The voice chat ended, or the worker left it.
    pub fn reset(&mut self, chat_id: i64)
        requires
            old(self)@.contains_key(chat_id) ==> old(self)@[chat_id].generation < u64::MAX,
        ensures
            final(self)@ == reset_chat(old(self)@, chat_id),
    {
        if self.chats.contains_key(&chat_id) {
            let mut q = self.take_queue(chat_id);
            q.generation = q.generation + 1;
            q.current = None;
            q.queue.clear();
            assert(q@.queue =~= Seq::<Seq<char>>::empty());
            self.put_queue(chat_id, q);
            assert(self@ =~= reset_chat(old(self)@, chat_id));
        }
    }

    /// Admits a request for `query`: queued behind the current track, with its position,
    /// or `None` where nothing is current and the query is to be played now.
    pub fn enqueue_request(&mut self, chat_id: i64, query: String) -> (r: Option<usize>)
        ensures
            ({
                let (s, p) = enqueue_request(old(self)@, chat_id, query@);
                &&& final(self)@ == s
                &&& match p {
                    Some(n) => r matches Some(p) && p as nat == n,
                    None => r is None,
                }
            }),
    {
        let mut q = self.take_queue(chat_id);
        if q.current.is_some() {
            q.queue.push_back(QueueItem { query });
            let position = q.queue.len();
            assert(q@.queue =~= queue_or_empty(old(self)@, chat_id).queue.push(query@));
            self.put_queue(chat_id, q);
            assert(self@ =~= enqueue_request(old(self)@, chat_id, query@).0);
            Some(position)
        } else {
            self.put_queue(chat_id, q);
            assert(self@ =~= enqueue_request(old(self)@, chat_id, query@).0);
            None
        }
    }

    /// Makes `query` the chat's current track; returns the generation it started under.
    pub fn start_current(&mut self, chat_id: i64, query: String) -> (g: u64)
        ensures
            (final(self)@, g) == start_current(old(self)@, chat_id, query@),
    {
        let mut q = self.take_queue(chat_id);
        q.current = Some(QueueItem { query });
        let g = q.generation;
        self.put_queue(chat_id, q);
        assert(self@ =~= start_current(old(self)@, chat_id, query@).0);
        g
    }

    /// A track started under `generation` failed: nothing is current any more, unless
    /// the lifecycle changed meanwhile. Returns whether it cleared the current track.
    pub fn drop_current(&mut self, chat_id: i64, generation: u64) -> (r: bool)
        ensures
            final(self)@ == drop_current(old(self)@, chat_id, generation),
            r == same_generation(old(self)@, chat_id, generation),
    {
        let same = match self.chats.get(&chat_id) {
            Some(q) => q.generation == generation,
            None => false,
        };
        if same {
            let mut q = self.take_queue(chat_id);
            q.current = None;
            self.put_queue(chat_id, q);
            assert(self@ =~= drop_current(old(self)@, chat_id, generation));
        }
        same
    }

    /// Moves the next waiting query into the current slot and returns it with the generation.
    pub fn take_next(&mut self, chat_id: i64) -> (r: Option<(String, u64)>)
        ensures
            ({
                let (s, n) = take_next(old(self)@, chat_id);
                &&& final(self)@ == s
                &&& match n {
                    Some((query, g)) => r matches Some((rq, rg)) && rq@ == query && rg == g,
                    None => r is None,
                }
            }),
    {
        if !self.chats.contains_key(&chat_id) {
            return None;
        }
        let mut q = self.take_queue(chat_id);
        let ghost old_q = q@;
        q.current = None;
        match q.queue.pop_front() {
            None => {
                self.put_queue(chat_id, q);
                assert(self@ =~= take_next(old(self)@, chat_id).0);
                None
            },
            Some(item) => {
                let query = item.query.clone();
                let g = q.generation;
                q.current = Some(item);
                assert(q@.queue =~= old_q.queue.drop_first());
                self.put_queue(chat_id, q);
                assert(self@ =~= take_next(old(self)@, chat_id).0);
                Some((query, g))
            },
        }
    }

    /// Whether a track prepared under `generation` may still start playing.
    pub fn still_current(&self, chat_id: i64, generation: u64) -> (r: bool)
        ensures
            r == still_current(self@, chat_id, generation),
    {
        match self.chats.get(&chat_id) {
            Some(q) => q.generation == generation && q.current.is_some(),
            None => false,
        }
    }

    /// The chat's queue, where it has one.
    pub fn get(&self, chat_id: i64) -> (r: Option<&ChatQueue>)
        ensures
            match r {
                Some(q) => self@.contains_key(chat_id) && q@ == self@[chat_id],
                None => !self@.contains_key(chat_id),
            },
    {
        self.chats.get(&chat_id)
    }

    /// The generation of the chat's queue, where it has one.
    pub fn generation(&self, chat_id: i64) -> (r: Option<u64>)
        ensures
            r == (if self@.contains_key(chat_id) {
                Some(self@[chat_id].generation)
            } else {
                None::<u64>
            }),
    {
        match self.chats.get(&chat_id) {
            Some(q) => Some(q.generation),
            None => None,
        }
    }
}

} // verus!

