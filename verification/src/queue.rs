use vstd::prelude::*;

use crate::errors::QueueError;
use crate::message::Message;

verus! {

/// How long a retrieval waits for a message when the caller gives no
/// timeout, in milliseconds.
pub const DEFAULT_TIMEOUT_MS: i64 = 1000;

/// The queue after a message is posted: the message joins the tail.
pub open spec fn posted(q: Seq<Message>, m: Message) -> Seq<Message> {
    q.push(m)
}

/// What a retrieval returns: the oldest message, or nothing when the queue
/// is empty.
pub open spec fn retrieved(q: Seq<Message>) -> Option<Message> {
    if q.len() > 0 {
        Some(q[0])
    } else {
        None
    }
}

/// The queue after a retrieval: the oldest message is gone, or the queue is
/// unchanged when it was empty.
pub open spec fn after_retrieval(q: Seq<Message>) -> Seq<Message> {
    if q.len() > 0 {
        q.drop_first()
    } else {
        q
    }
}

/// The wait budget a retrieval is granted: the caller's timeout, or the
/// default when none is supplied.
pub open spec fn spec_effective_timeout(timeout: Option<i64>) -> i64 {
    match timeout {
        Some(t) => t,
        None => DEFAULT_TIMEOUT_MS,
    }
}

/// Resolves a caller's timeout to the wait budget in milliseconds: the value
/// given, or the default when none is.
pub fn effective_timeout(timeout: Option<i64>) -> (r: i64)
    ensures
        r == spec_effective_timeout(timeout),
{
    match timeout {
        Some(t) => t,
        None => DEFAULT_TIMEOUT_MS,
    }
}

/// How much of a wait budget is left once `elapsed_ms` of it has passed:
/// zero exactly when the deadline has been reached (or the budget was never
/// positive), the distance to the deadline otherwise.
pub open spec fn spec_remaining_wait(elapsed_ms: u64, wait_max_ms: i64) -> int {
    if wait_max_ms <= 0 {
        0
    } else if elapsed_ms as int >= wait_max_ms as int {
        0
    } else {
        wait_max_ms - elapsed_ms
    }
}

/// The deadline decision of a bounded wait: how many milliseconds of the
/// budget `wait_max_ms` remain after `elapsed_ms` have passed. The
/// embedding's wait loop parks a blocked consumer for exactly this long and
/// gives up when it reaches zero, so the wait ends at the deadline and not
/// before. A budget of zero or less leaves nothing to wait, a deliberate
/// design decision: such a retrieval reports at its first attempt.
pub fn remaining_wait(elapsed_ms: u64, wait_max_ms: i64) -> (r: i64)
    ensures
        r == spec_remaining_wait(elapsed_ms, wait_max_ms),
        r >= 0,
{
    if wait_max_ms <= 0 {
        0
    } else {
        let budget: u64 = wait_max_ms as u64;
        if elapsed_ms >= budget {
            0
        } else {
            (budget - elapsed_ms) as i64
        }
    }
}

/// The buffer of one named queue: messages in insertion order, oldest first.
/// The buffer itself is sequential; an embedding that shares one queue among
/// several producers and consumers wraps it in a mutual-exclusion primitive
/// of its own, which is why the type is named for being lockable rather than
/// holding a lock.
pub struct LockableMessageQueue {
    queue: Vec<Message>,
}

impl View for LockableMessageQueue {
    type V = Seq<Message>;

    closed spec fn view(&self) -> Seq<Message> {
        self.queue@
    }
}

impl LockableMessageQueue {
    /// An empty queue.
    pub fn new() -> (r: LockableMessageQueue)
        ensures
            r@ == Seq::<Message>::empty(),
    {
        LockableMessageQueue { queue: Vec::new() }
    }

    /// Appends `msg` to the tail of the queue. Never waits, and never fails:
    /// the verified buffer holds no lock of its own that a panic could
    /// poison. In a shared embedding, the post is what wakes a consumer
    /// blocked on this queue: the embedding notifies the queue's condition
    /// after this call returns.
    pub fn post(&mut self, msg: Message) -> (r: Result<(), QueueError>)
        ensures
            final(self)@ == posted(old(self)@, msg),
            r == Ok::<(), QueueError>(()),
    {
        self.queue.push(msg);
        Ok(())
    }

    /// Removes and returns the oldest message; `Ok(None)` when the queue is
    /// empty. One call is one retrieval attempt: it holds the queue
    /// exclusively and returns at once, so it neither parks a thread nor
    /// burns time re-checking — waiting out `timeout` is the embedding's
    /// loop. That loop makes an attempt whenever the queue's condition is
    /// notified (a post) or its park times out, parks again for
    /// `remaining_wait(elapsed, effective_timeout(timeout))` milliseconds
    /// while that is positive, and settles for `None` when it reaches zero.
    /// A timeout of zero or less therefore never waits: the first attempt
    /// decides.
    #[allow(unused_variables)]
    pub fn get(&mut self, timeout: Option<i64>) -> (r: Result<Option<Message>, QueueError>)
        ensures
            final(self)@ == after_retrieval(old(self)@),
            r == Ok::<Option<Message>, QueueError>(retrieved(old(self)@)),
    {
        if self.queue.len() > 0 {
            let m = self.queue.remove(0);
            proof {
                assert(self@ =~= old(self)@.drop_first());
            }
            Ok(Some(m))
        } else {
            Ok(None)
        }
    }
}

/// A named queue as the registry holds it: the buffer behind the front that
/// the registry and the transport layer talk to.
pub struct MessageQueue {
    internal: LockableMessageQueue,
}

impl View for MessageQueue {
    type V = Seq<Message>;

    closed spec fn view(&self) -> Seq<Message> {
        self.internal@
    }
}

impl MessageQueue {
    /// An empty queue.
    pub fn new() -> (r: MessageQueue)
        ensures
            r@ == Seq::<Message>::empty(),
    {
        MessageQueue { internal: LockableMessageQueue::new() }
    }

    /// Appends `msg` to the tail of the queue. Never waits, never fails.
    pub fn post(&mut self, msg: Message) -> (r: Result<(), QueueError>)
        ensures
            final(self)@ == posted(old(self)@, msg),
            r == Ok::<(), QueueError>(()),
    {
        self.internal.post(msg)
    }

    /// Removes and returns the oldest message; `Ok(None)` when the queue is
    /// empty. One retrieval attempt of the bounded wait: the embedding's
    /// loop re-calls it on every wake and stops when `remaining_wait` says
    /// the `timeout` budget is spent.
    pub fn get(&mut self, timeout: Option<i64>) -> (r: Result<Option<Message>, QueueError>)
        ensures
            final(self)@ == after_retrieval(old(self)@),
            r == Ok::<Option<Message>, QueueError>(retrieved(old(self)@)),
    {
        self.internal.get(timeout)
    }
}

} // verus!
