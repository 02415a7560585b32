use vstd::prelude::*;

use crate::message::Message;
use crate::queue::{after_retrieval, posted, retrieved, spec_remaining_wait};
use crate::registry::created;

verus! {

/// The queue after `k` retrievals.
pub open spec fn drained(q: Seq<Message>, k: int) -> Seq<Message>
    decreases k,
{
    if k <= 0 {
        q
    } else {
        after_retrieval(drained(q, k - 1))
    }
}

/// The queue after a whole batch of messages is posted, oldest first.
pub open spec fn posted_all(q: Seq<Message>, msgs: Seq<Message>) -> Seq<Message>
    decreases msgs.len(),
{
    if msgs.len() == 0 {
        q
    } else {
        posted_all(posted(q, msgs[0]), msgs.drop_first())
    }
}

/// First-in-first-out: while a queue holds the messages `q`, the retrieval
/// made after `k` earlier retrievals returns `q[k]`, so messages leave the
/// queue in exactly the order they entered it.
pub proof fn lemma_fifo_order(q: Seq<Message>, k: int)
    requires
        0 <= k < q.len(),
    ensures
        drained(q, k) == q.skip(k),
        retrieved(drained(q, k)) == Some(q[k]),
    decreases k,
{
    if k == 0 {
        assert(drained(q, 0) =~= q.skip(0));
    } else {
        lemma_fifo_order(q, k - 1);
        assert(q.skip(k - 1).drop_first() =~= q.skip(k));
    }
}

/// Posting a batch loses and duplicates nothing: a queue that held `q`
/// before the batch holds exactly `q` followed by `msgs` afterwards.
pub proof fn lemma_posts_preserved(q: Seq<Message>, msgs: Seq<Message>)
    ensures
        posted_all(q, msgs) == q + msgs,
    decreases msgs.len(),
{
    if msgs.len() == 0 {
        assert(q + msgs =~= q);
    } else {
        lemma_posts_preserved(posted(q, msgs[0]), msgs.drop_first());
        assert(q.push(msgs[0]) + msgs.drop_first() =~= q + msgs);
    }
}

/// Posting `msgs` to a fresh queue and then retrieving repeatedly returns
/// exactly the posted messages, in posting order: the retrieval made after
/// `k` earlier retrievals returns `msgs[k]`.
pub proof fn lemma_fresh_queue_fifo(msgs: Seq<Message>, k: int)
    requires
        0 <= k < msgs.len(),
    ensures
        posted_all(Seq::<Message>::empty(), msgs) == msgs,
        retrieved(drained(posted_all(Seq::<Message>::empty(), msgs), k)) == Some(msgs[k]),
{
    lemma_posts_preserved(Seq::<Message>::empty(), msgs);
    assert(Seq::<Message>::empty() + msgs =~= msgs);
    lemma_fifo_order(msgs, k);
}

/// Creating a queue is idempotent: creating the same name twice leaves the
/// registry exactly as one creation does, so precisely one queue ends up
/// registered for the name, and the name has a queue afterwards either way.
pub proof fn lemma_create_idempotent(reg: Map<Seq<char>, Seq<Message>>, name: Seq<char>)
    ensures
        created(created(reg, name), name) == created(reg, name),
        created(reg, name).contains_key(name),
{
}

/// A bounded wait ends at its deadline and not before: the wait loop, which
/// parks a blocked consumer for `spec_remaining_wait(elapsed, budget)`
/// milliseconds and gives up when that is zero, keeps waiting exactly while
/// the deadline lies ahead, and while it does, the remainder reaches exactly
/// the deadline, never past it.
pub proof fn lemma_wait_bounded(elapsed_ms: u64, wait_max_ms: i64)
    ensures
        (spec_remaining_wait(elapsed_ms, wait_max_ms) == 0) <==> (elapsed_ms as int
            >= wait_max_ms as int),
        spec_remaining_wait(elapsed_ms, wait_max_ms) > 0 ==> elapsed_ms as int
            + spec_remaining_wait(elapsed_ms, wait_max_ms) == wait_max_ms as int,
{
}

/// A name has no queue in a fresh registry, and has one immediately after a
/// queue is created for it.
pub proof fn lemma_exists_after_create(name: Seq<char>)
    ensures
        !Map::<Seq<char>, Seq<Message>>::empty().contains_key(name),
        created(Map::<Seq<char>, Seq<Message>>::empty(), name).contains_key(name),
{
}

} // verus!
