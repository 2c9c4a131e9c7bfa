//! A bounded mailbox: messages are filed under a tag and, once read, become
//! eligible for eviction in the order in which they were read.
use std::collections::{BTreeMap, VecDeque};
use std::sync::Arc;
use vstd::prelude::*;

use crate::arc_model::{flagged_values, lemma_flagged_insert, lemma_flagged_remove};
use crate::key_laws::{collect_keys, lawful_key, sorted_keys_of};

verus! {

/// A store of messages filed under tags.
pub trait Mailbox<Tag, Msg>: Sized {
    /// The store's internal invariant.
    spec fn well_formed(&self) -> bool;

    /// Files `msg` under `tag`; tells whether it was stored.
    fn send(&mut self, tag: Tag, msg: Msg) -> (stored: bool)
        requires
            old(self).well_formed(),
        ensures
            final(self).well_formed(),
    ;

    /// Hands out the message filed under `tag`, if any, and marks it read.
    fn receive(&mut self, tag: &Tag) -> (msg: Option<Arc<Msg>>)
        requires
            old(self).well_formed(),
        ensures
            final(self).well_formed(),
    ;

    /// Drops every message.
    fn clear(&mut self)
        requires
            old(self).well_formed(),
        ensures
            final(self).well_formed(),
    ;

    /// The tags of the stored messages.
    fn list(&self) -> (tags: Vec<Tag>)
        requires
            self.well_formed(),
    ;
}

/// The result of evicting read messages, oldest read first, until the store
/// holds fewer than `limit` messages or no read message is left to evict.
/// Each entry of `queue` names a message that was read; evicting it removes
/// whatever is filed under that tag at that moment.
pub open spec fn evict_read<Tag, V>(storage: Map<Tag, V>, queue: Seq<Tag>, limit: nat) -> (Map<
    Tag,
    V,
>, Seq<Tag>)
    decreases queue.len(),
{
    if queue.len() > 0 && storage.len() >= limit {
        evict_read(storage.remove(queue[0]), queue.drop_first(), limit)
    } else {
        (storage, queue)
    }
}

/// Eviction only removes messages, leaves the store finite, and stops as
/// soon as the store is below the limit or nothing read is left.
pub proof fn lemma_evict_read<Tag, V>(storage: Map<Tag, V>, queue: Seq<Tag>, limit: nat)
    requires
        storage.dom().finite(),
    ensures
        evict_read(storage, queue, limit).0.dom().finite(),
        evict_read(storage, queue, limit).0.submap_of(storage),
        evict_read(storage, queue, limit).1.len() == 0 || evict_read(storage, queue, limit).0.len()
            < limit,
        evict_read(storage, queue, limit).0.len() <= storage.len(),
    decreases queue.len(),
{
    if queue.len() > 0 && storage.len() >= limit {
        lemma_evict_read(storage.remove(queue[0]), queue.drop_first(), limit);
        let rest = evict_read(storage.remove(queue[0]), queue.drop_first(), limit).0;
        assert forall|k: Tag| #[trigger] rest.dom().contains(k) implies storage.dom().contains(k)
            && rest[k] == storage[k] by {
            assert(storage.remove(queue[0]).dom().contains(k));
        }
        if storage.dom().contains(queue[0]) {
            assert(storage.remove(queue[0]).len() == storage.len() - 1);
        } else {
            assert(storage.remove(queue[0]) =~= storage);
        }
    }
}

/// Sending in the model: evict read messages while full, then file `msg`
/// unread under `tag` if the mailbox is below `capacity`. Gives the new
/// messages, the new read queue and whether `msg` was stored.
pub open spec fn send_model<Tag, Msg>(
    messages: Map<Tag, (bool, Msg)>,
    queue: Seq<Tag>,
    capacity: nat,
    tag: Tag,
    msg: Msg,
) -> (Map<Tag, (bool, Msg)>, Seq<Tag>, bool) {
    let (kept, rest) = evict_read(messages, queue, capacity);
    if kept.len() < capacity {
        (kept.insert(tag, (false, msg)), rest, true)
    } else {
        (kept, rest, false)
    }
}

/// Receiving in the model: the message under `tag`, now marked read and
/// queued for eviction.
pub open spec fn receive_model<Tag, Msg>(
    messages: Map<Tag, (bool, Msg)>,
    queue: Seq<Tag>,
    tag: Tag,
) -> (Map<Tag, (bool, Msg)>, Seq<Tag>, Option<Msg>) {
    if messages.contains_key(tag) {
        let msg = messages[tag].1;
        (messages.insert(tag, (true, msg)), queue.push(tag), Some(msg))
    } else {
        (messages, queue, None)
    }
}

/// What an optional shared message points to.
pub open spec fn pointee<Msg>(msg: Option<Arc<Msg>>) -> Option<Msg> {
    match msg {
        Some(a) => Some(*a),
        None => None,
    }
}

proof fn lemma_evict_flagged<Tag, Msg>(
    storage: Map<Tag, (bool, Arc<Msg>)>,
    queue: Seq<Tag>,
    limit: nat,
)
    requires
        storage.dom().finite(),
    ensures
        evict_read(flagged_values(storage), queue, limit) == (
            flagged_values(evict_read(storage, queue, limit).0),
            evict_read(storage, queue, limit).1,
        ),
    decreases queue.len(),
{
    assert(flagged_values(storage).dom() =~= storage.dom());
    if queue.len() > 0 && storage.len() >= limit {
        lemma_flagged_remove(storage, queue[0]);
        lemma_evict_flagged(storage.remove(queue[0]), queue.drop_first(), limit);
    }
}

struct SimpleMailboxInner<Tag, Msg> {
    storage: BTreeMap<Tag, (bool, Arc<Msg>)>,
    clear_queue: VecDeque<Tag>,
}

impl<Tag: Ord + Clone, Msg> SimpleMailboxInner<Tag, Msg> {
    fn remove_first_read(&mut self)
        requires
            lawful_key::<Tag>(),
        ensures
            old(self).clear_queue@.len() > 0 ==> {
                &&& final(self).storage@ == old(self).storage@.remove(old(self).clear_queue@[0])
                &&& final(self).clear_queue@ == old(self).clear_queue@.drop_first()
            },
            old(self).clear_queue@.len() == 0 ==> final(self).storage@ == old(self).storage@
                && final(self).clear_queue@ == old(self).clear_queue@,
    {
        if let Some(tag) = self.clear_queue.pop_front() {
            self.storage.remove(&tag);
        }
    }

    fn read(&mut self, tag: &Tag) -> (msg: Option<Arc<Msg>>)
        requires
            lawful_key::<Tag>(),
        ensures
            match msg {
                Some(m) => {
                    &&& old(self).storage@.contains_key(*tag)
                    &&& m == old(self).storage@[*tag].1
                    &&& final(self).storage@ == old(self).storage@.insert(*tag, (true, m))
                    &&& final(self).clear_queue@ == old(self).clear_queue@.push(*tag)
                },
                None => {
                    &&& !old(self).storage@.contains_key(*tag)
                    &&& final(self).storage@ == old(self).storage@
                    &&& final(self).clear_queue@ == old(self).clear_queue@
                },
            },
    {
        let found = match self.storage.get(tag) {
            Some(entry) => Some(entry.1.clone()),
            None => None,
        };
        match found {
            Some(msg) => {
                let key = Tag::clone(tag);
                let queued = Tag::clone(tag);
                assert(vstd::pervasive::strictly_cloned(*tag, key));
                assert(vstd::pervasive::strictly_cloned(*tag, queued));
                self.storage.insert(key, (true, msg.clone()));
                self.clear_queue.push_back(queued);
                Some(msg)
            },
            None => None,
        }
    }

    fn insert(&mut self, tag: Tag, msg: Msg, limit: usize) -> (stored: bool)
        requires
            lawful_key::<Tag>(),
        ensures
            ({
                let (kept, queue) = evict_read(old(self).storage@, old(self).clear_queue@, limit as nat);
                &&& final(self).clear_queue@ == queue
                &&& stored == (kept.len() < limit)
                &&& !stored ==> final(self).storage@ == kept
                &&& stored ==> {
                    &&& final(self).storage@.dom() == kept.dom().insert(tag)
                    &&& final(self).storage@.remove(tag) == kept.remove(tag)
                    &&& final(self).storage@[tag].0 == false
                    &&& *final(self).storage@[tag].1 == msg
                }
            }),
    {
        let ghost target = evict_read(self.storage@, self.clear_queue@, limit as nat);
        while self.clear_queue.len() > 0 && self.storage.len() >= limit
            invariant
                lawful_key::<Tag>(),
                evict_read(self.storage@, self.clear_queue@, limit as nat) == target,
            decreases self.clear_queue@.len(),
        {
            self.remove_first_read();
        }
        if self.storage.len() >= limit {
            return false;
        }
        self.storage.insert(tag, (false, Arc::new(msg)));
        true
    }
}

/// A mailbox that holds at most `capacity` messages. When it is full, the
/// messages that were read are evicted, in the order they were read, to
/// make room. An eviction removes whatever is filed under the read tag at
/// that moment.
pub struct SimpleMailbox<Tag, Msg> {
    inner: SimpleMailboxInner<Tag, Msg>,
    capacity: usize,
}

impl<Tag, Msg> SimpleMailbox<Tag, Msg> {
    /// The stored messages: for each tag, whether it was read and the message.
    pub closed spec fn messages(&self) -> Map<Tag, (bool, Msg)> {
        flagged_values(self.inner.storage@)
    }

    /// The tags of the reads so far that are still pending eviction, oldest first.
    pub closed spec fn read_queue(&self) -> Seq<Tag> {
        self.inner.clear_queue@
    }

    /// The most messages the mailbox holds.
    pub closed spec fn max_messages(&self) -> nat {
        self.capacity as nat
    }
}

impl<Tag: Ord + Clone, Msg> SimpleMailbox<Tag, Msg> {
    /// An empty mailbox that holds at most `capacity` messages.
    pub fn new(capacity: usize) -> (mailbox: Self)
        requires
            lawful_key::<Tag>(),
        ensures
            mailbox.well_formed(),
            mailbox.messages() == Map::<Tag, (bool, Msg)>::empty(),
            mailbox.read_queue() == Seq::<Tag>::empty(),
            mailbox.max_messages() == capacity,
    {
        let mailbox = SimpleMailbox {
            inner: SimpleMailboxInner { storage: BTreeMap::new(), clear_queue: VecDeque::new() },
            capacity,
        };
        assert(mailbox.messages() =~= Map::<Tag, (bool, Msg)>::empty());
        mailbox
    }

    /// The most messages the mailbox holds.
    pub fn capacity(&self) -> (capacity: usize)
        ensures
            capacity == self.max_messages(),
    {
        self.capacity
    }
}

impl<Tag: Ord + Clone, Msg> Mailbox<Tag, Msg> for SimpleMailbox<Tag, Msg> {
    closed spec fn well_formed(&self) -> bool {
        &&& lawful_key::<Tag>()
        &&& self.inner.storage@.dom().finite()
        &&& self.inner.storage@.len() <= self.capacity
    }

    /// Evicts read messages, oldest read first, while the mailbox is full,
    /// then files `msg` under `tag` unread if there is room.
    fn send(&mut self, tag: Tag, msg: Msg) -> (stored: bool)
        ensures
            final(self).max_messages() == old(self).max_messages(),
            (final(self).messages(), final(self).read_queue(), stored) == send_model(
                old(self).messages(),
                old(self).read_queue(),
                old(self).max_messages(),
                tag,
                msg,
            ),
    {
        proof {
            lemma_evict_read(self.inner.storage@, self.inner.clear_queue@, self.capacity as nat);
            lemma_evict_flagged(self.inner.storage@, self.inner.clear_queue@, self.capacity as nat);
        }
        let ghost kept = evict_read(self.inner.storage@, self.inner.clear_queue@, self.capacity as nat).0;
        let stored = self.inner.insert(tag, msg, self.capacity);
        proof {
            assert(flagged_values(kept).dom() =~= kept.dom());
            if stored {
                if kept.dom().contains(tag) {
                    assert(self.inner.storage@.dom() =~= kept.dom());
                } else {
                    assert(self.inner.storage@.dom() =~= kept.dom().insert(tag));
                }
                let now = self.inner.storage@;
                assert forall|k: Tag| #[trigger] now.contains_key(k) && k != tag implies now[k]
                    == kept[k] by {
                    assert(now.remove(tag)[k] == kept.remove(tag)[k]);
                }
                assert(self.messages() =~= flagged_values(kept).insert(tag, (false, msg)));
            }
        }
        stored
    }

    /// Marks the message under `tag` read, queues it for eviction and hands it out.
    fn receive(&mut self, tag: &Tag) -> (msg: Option<Arc<Msg>>)
        ensures
            final(self).max_messages() == old(self).max_messages(),
            (final(self).messages(), final(self).read_queue(), pointee(msg)) == receive_model(
                old(self).messages(),
                old(self).read_queue(),
                *tag,
            ),
    {
        let msg = self.inner.read(tag);
        proof {
            if msg is Some {
                assert(self.inner.storage@.dom() =~= old(self).inner.storage@.dom());
                lemma_flagged_insert(old(self).inner.storage@, *tag, true, msg->0);
            }
        }
        msg
    }

    /// Drops every message and every pending eviction.
    fn clear(&mut self)
        ensures
            final(self).max_messages() == old(self).max_messages(),
            final(self).messages() == Map::<Tag, (bool, Msg)>::empty(),
            final(self).read_queue() == Seq::<Tag>::empty(),
    {
        self.inner.storage.clear();
        self.inner.clear_queue.clear();
        assert(self.messages() =~= Map::<Tag, (bool, Msg)>::empty());
    }

    /// The tags of the stored messages, in increasing order.
    fn list(&self) -> (tags: Vec<Tag>)
        ensures
            sorted_keys_of(tags@, self.messages()),
    {
        let tags = collect_keys(&self.inner.storage);
        assert(self.messages().dom() =~= self.inner.storage@.dom());
        tags
    }
}

/// A mailbox never holds more messages than its capacity.
pub proof fn law_within_capacity<Tag: Ord + Clone, Msg>(mailbox: &SimpleMailbox<Tag, Msg>)
    requires
        mailbox.well_formed(),
    ensures
        mailbox.messages().len() <= mailbox.max_messages(),
{
    assert(mailbox.messages().dom() =~= mailbox.inner.storage@.dom());
}

/// A message that a send stored is what a receive of its tag hands out next.
pub proof fn law_receive_after_send<Tag, Msg>(
    messages: Map<Tag, (bool, Msg)>,
    queue: Seq<Tag>,
    capacity: nat,
    tag: Tag,
    msg: Msg,
)
    ensures
        ({
            let (after, rest, stored) = send_model(messages, queue, capacity, tag, msg);
            stored ==> receive_model(after, rest, tag).2 == Some(msg)
        }),
{
}

/// A send is refused only when the mailbox is still full after every read
/// message pending eviction has been evicted.
pub proof fn law_refused_only_when_full<Tag, Msg>(
    messages: Map<Tag, (bool, Msg)>,
    queue: Seq<Tag>,
    capacity: nat,
    tag: Tag,
    msg: Msg,
)
    requires
        messages.dom().finite(),
    ensures
        ({
            let (after, rest, stored) = send_model(messages, queue, capacity, tag, msg);
            !stored ==> rest.len() == 0 && after.len() >= capacity
        }),
{
    lemma_evict_read(messages, queue, capacity);
}

/// A send evicts only messages whose tags are pending in the read queue;
/// every other stored message survives it.
pub proof fn law_send_evicts_only_read<Tag, Msg>(
    messages: Map<Tag, (bool, Msg)>,
    queue: Seq<Tag>,
    capacity: nat,
    tag: Tag,
    msg: Msg,
    other: Tag,
)
    requires
        messages.dom().finite(),
        messages.contains_key(other),
        !queue.contains(other),
    ensures
        send_model(messages, queue, capacity, tag, msg).0.contains_key(other),
{
    lemma_evict_keeps(messages, queue, capacity, other);
}

proof fn lemma_evict_keeps<Tag, V>(storage: Map<Tag, V>, queue: Seq<Tag>, limit: nat, other: Tag)
    requires
        storage.contains_key(other),
        !queue.contains(other),
    ensures
        evict_read(storage, queue, limit).0.contains_key(other),
        evict_read(storage, queue, limit).0[other] == storage[other],
    decreases queue.len(),
{
    if queue.len() > 0 && storage.len() >= limit {
        assert(queue[0] != other);
        assert forall|i: int| 0 <= i < queue.drop_first().len() implies queue.drop_first()[i] != other by {
            assert(queue.drop_first()[i] == queue[i + 1]);
        }
        lemma_evict_keeps(storage.remove(queue[0]), queue.drop_first(), limit, other);
    }
}

} // verus!
