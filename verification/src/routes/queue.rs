//! `GET /queue/{chat_id}`: list a chat's queue.

use vstd::prelude::*;
use vstd::string::*;

use axum::http::HeaderMap;

use crate::auth::{authorized, is_authorized};
use crate::models::{ApiError, ApiErrorView, QueueItemResponse, QueueResponse, QueueResponseView};
use crate::routes::play::api_error;
use crate::state::{ChatQueue, ChatQueueView, ChatQueues, QueuesView};

verus! {

/// The listing of a chat's queue: the current query, and each waiting query with its
/// 1-based position.
pub open spec fn listing_of(q: ChatQueueView) -> QueueResponseView {
    QueueResponseView {
        current: q.current,
        queue: Seq::new(q.queue.len(), |i: int| ((i + 1) as usize, q.queue[i])),
    }
}

/// The answer to a queue request: 401 where unauthorized, an empty listing for a chat
/// without a queue, and the chat's listing otherwise.
pub open spec fn on_queue_request(
    s: QueuesView,
    authorized: bool,
    chat_id: i64,
) -> Result<QueueResponseView, ApiErrorView> {
    if !authorized {
        Err(api_error(401, "Unauthorized"@))
    } else if !s.contains_key(chat_id) {
        Ok(QueueResponseView { current: None, queue: Seq::empty() })
    } else {
        Ok(listing_of(s[chat_id]))
    }
}

pub open spec fn queue_answer_view(r: Result<QueueResponse, ApiError>) -> Result<QueueResponseView, ApiErrorView> {
    match r {
        Ok(listing) => Ok(listing@),
        Err(e) => Err(e@),
    }
}

/// The listing of one chat's queue.
pub fn listing(q: &ChatQueue) -> (r: QueueResponse)
    ensures
        r@ == listing_of(q@),
{
    let current = match &q.current {
        Some(item) => Some(item.query.clone()),
        None => None,
    };
    let len = q.queue.len();
    let mut items: Vec<QueueItemResponse> = Vec::new();
    let mut i: usize = 0;
    while i < len
        invariant
            len == q.queue@.len(),
            i <= len,
            items@.len() == i,
            forall|k: int|
                0 <= k < i ==> (#[trigger] items@[k]).position == k + 1 && items@[k].query@
                    == q.queue@[k].query@,
        decreases len - i,
    {
        let item = &q.queue[i];
        items.push(QueueItemResponse { position: i + 1, query: item.query.clone() });
        i = i + 1;
    }
    let r = QueueResponse { current, queue: items };
    assert(r@.queue =~= listing_of(q@).queue);
    r
}

/// A queue request for `chat_id` arrives with `headers`; `secret` is the worker's secret.
pub fn queue(queues: &ChatQueues, headers: &HeaderMap, secret: &str, chat_id: i64) -> (r: Result<
    QueueResponse,
    ApiError,
>)
    ensures
        queue_answer_view(r) == on_queue_request(queues@, is_authorized(*headers, secret@), chat_id),
{
    if !authorized(headers, secret) {
        return Err(ApiError { status: 401, detail: String::from_str("Unauthorized") });
    }
    match queues.get(chat_id) {
        None => {
            let r = QueueResponse { current: None, queue: Vec::new() };
            assert(r@.queue =~= Seq::<(usize, Seq<char>)>::empty());
            Ok(r)
        },
        Some(q) => Ok(listing(q)),
    }
}

} // verus!
