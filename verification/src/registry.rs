use vstd::prelude::*;

use vstd::hash_map::StringHashMap;

use crate::errors::QueueError;
use crate::message::Message;
use crate::queue::{after_retrieval, posted, retrieved, MessageQueue};

verus! {

/// The registry after a creation: an absent name gains an empty queue, a
/// present one keeps the queue it already has.
pub open spec fn created(reg: Map<Seq<char>, Seq<Message>>, name: Seq<char>) -> Map<
    Seq<char>,
    Seq<Message>,
> {
    if reg.contains_key(name) {
        reg
    } else {
        reg.insert(name, Seq::empty())
    }
}

/// The name-to-queue registry: it creates queues on demand and routes posts
/// and retrievals to the queue a name owns. Abstractly it is a map from
/// queue name to the sequence of messages pending on that name. The registry
/// itself is sequential; an embedding that serves concurrent requests
/// serializes its calls through a mutual-exclusion primitive of its own.
pub struct QueueManager {
    names: StringHashMap<usize>,
    queues: Vec<MessageQueue>,
}

impl View for QueueManager {
    type V = Map<Seq<char>, Seq<Message>>;

    closed spec fn view(&self) -> Map<Seq<char>, Seq<Message>> {
        Map::new(
            |n: Seq<char>| self.names@.contains_key(n),
            |n: Seq<char>| self.queues@[self.names@[n] as int]@,
        )
    }
}

impl QueueManager {
    /// Every registered name points into the queue table, and no two names
    /// share a queue: at most one queue instance exists per name.
    pub closed spec fn wf(&self) -> bool {
        &&& forall|n: Seq<char>|
            self.names@.contains_key(n) ==> (#[trigger] self.names@[n]) < self.queues@.len()
        &&& forall|n1: Seq<char>, n2: Seq<char>|
            #![trigger self.names@[n1], self.names@[n2]]
            self.names@.contains_key(n1) && self.names@.contains_key(n2) && self.names@[n1]
                == self.names@[n2] ==> n1 == n2
    }

    /// A registry with no queues.
    pub fn new() -> (r: QueueManager)
        ensures
            r.wf(),
            r@ == Map::<Seq<char>, Seq<Message>>::empty(),
    {
        let r = QueueManager { names: StringHashMap::new(), queues: Vec::new() };
        proof {
            assert(r@ =~= Map::<Seq<char>, Seq<Message>>::empty());
        }
        r
    }

    /// Creates an empty queue for `name` if none exists; a no-op when the
    /// name already has one, so two creations of the same name leave exactly
    /// one queue registered. Never fails.
    pub fn create_queue(&mut self, name: &str) -> (r: Result<(), QueueError>)
        requires
            old(self).wf(),
        ensures
            final(self).wf(),
            final(self)@ == created(old(self)@, name@),
            final(self)@.contains_key(name@),
            r == Ok::<(), QueueError>(()),
    {
        if !self.names.contains_key(name) {
            let i: usize = self.queues.len();
            self.queues.push(MessageQueue::new());
            self.names.insert(name.to_owned(), i);
            proof {
                assert forall|n: Seq<char>| self.names@.contains_key(n) implies (
                #[trigger] self.names@[n]) < self.queues@.len() by {
                    if n != name@ {
                        assert(old(self).names@.contains_key(n));
                    }
                }
                assert forall|n1: Seq<char>, n2: Seq<char>|
                    #![trigger self.names@[n1], self.names@[n2]]
                    self.names@.contains_key(n1) && self.names@.contains_key(n2)
                        && self.names@[n1] == self.names@[n2] implies n1 == n2 by {
                    if n1 != name@ && n2 != name@ {
                        assert(old(self).names@[n1] == old(self).names@[n2]);
                    } else if n1 == name@ && n2 != name@ {
                        assert(old(self).names@[n2] < old(self).queues@.len());
                    } else if n1 != name@ && n2 == name@ {
                        assert(old(self).names@[n1] < old(self).queues@.len());
                    }
                }
                assert(self@ =~= old(self)@.insert(name@, Seq::<Message>::empty()));
            }
        }
        Ok(())
    }

    /// Whether a queue is registered under `name`: a pure lookup that never
    /// mutates and never fails.
    pub fn queue_exists(&self, name: &str) -> (r: Result<bool, QueueError>)
        ensures
            r == Ok::<bool, QueueError>(self@.contains_key(name@)),
    {
        Ok(self.names.contains_key(name))
    }

    /// Appends `msg` to the tail of the queue registered under `queue_name`;
    /// every other queue is untouched. Fails with `QueueNotFound`, changing
    /// nothing, exactly when no queue is registered under that name: callers
    /// are expected to create the queue first.
    pub fn post_message(&mut self, queue_name: &str, msg: Message) -> (r: Result<
        (),
        QueueError,
    >)
        requires
            old(self).wf(),
        ensures
            final(self).wf(),
            old(self)@.contains_key(queue_name@) ==> r == Ok::<(), QueueError>(()),
            old(self)@.contains_key(queue_name@) ==> final(self)@ == old(self)@.insert(
                queue_name@,
                posted(old(self)@[queue_name@], msg),
            ),
            !old(self)@.contains_key(queue_name@) ==> r == Err::<(), QueueError>(
                QueueError::QueueNotFound,
            ),
            !old(self)@.contains_key(queue_name@) ==> final(self)@ == old(self)@,
    {
        let idx: usize = match self.names.get(queue_name) {
            Some(i) => *i,
            None => {
                return Err(QueueError::QueueNotFound);
            },
        };
        assert(idx < self.queues@.len());
        let res = self.queues[idx].post(msg);
        proof {
            self.lemma_view_after_update(*old(self), queue_name@, idx as int);
        }
        res
    }

    /// Removes and returns the oldest message of the queue registered under
    /// `queue_name`, or `Ok(None)` when that queue is empty; every other
    /// queue is untouched. One retrieval attempt of a bounded wait: the
    /// embedding's loop re-calls it on every wake of that queue's condition
    /// and stops when `remaining_wait` says the `timeout` budget (the
    /// default when `None`) is spent. Fails with `QueueNotFound`, changing
    /// nothing and without any wait, exactly when no queue is registered
    /// under that name.
    pub fn get_message(&mut self, queue_name: &str, timeout: Option<i64>) -> (r: Result<
        Option<Message>,
        QueueError,
    >)
        requires
            old(self).wf(),
        ensures
            final(self).wf(),
            old(self)@.contains_key(queue_name@) ==> r == Ok::<Option<Message>, QueueError>(
                retrieved(old(self)@[queue_name@]),
            ),
            old(self)@.contains_key(queue_name@) ==> final(self)@ == old(self)@.insert(
                queue_name@,
                after_retrieval(old(self)@[queue_name@]),
            ),
            !old(self)@.contains_key(queue_name@) ==> r == Err::<Option<Message>, QueueError>(
                QueueError::QueueNotFound,
            ),
            !old(self)@.contains_key(queue_name@) ==> final(self)@ == old(self)@,
    {
        let idx: usize = match self.names.get(queue_name) {
            Some(i) => *i,
            None => {
                return Err(QueueError::QueueNotFound);
            },
        };
        assert(idx < self.queues@.len());
        let res = self.queues[idx].get(timeout);
        proof {
            self.lemma_view_after_update(*old(self), queue_name@, idx as int);
        }
        res
    }

    /// After the queue table is updated at the index `name` owns, the
    /// abstract registry changes at `name` alone.
    proof fn lemma_view_after_update(&self, pre: QueueManager, name: Seq<char>, idx: int)
        requires
            pre.wf(),
            self.names@ == pre.names@,
            pre.names@.contains_key(name),
            idx == pre.names@[name],
            self.queues@ == pre.queues@.update(idx, self.queues@[idx]),
        ensures
            self.wf(),
            self@ == pre@.insert(name, self.queues@[idx]@),
    {
        assert forall|n: Seq<char>| pre@.insert(name, self.queues@[idx]@).dom().contains(
            n,
        ) implies self@[n] == pre@.insert(name, self.queues@[idx]@)[n] by {
            if n != name {
                assert(pre.names@[n] != pre.names@[name]);
            }
        }
        assert(self@ =~= pre@.insert(name, self.queues@[idx]@));
    }
}

} // verus!
