//! An unbounded mailbox: at most one message per tag, each with a flag that
//! tells whether it was read.
use std::collections::BTreeMap;
use std::sync::Arc;
use vstd::prelude::*;

use crate::arc_model::{flagged_values, lemma_flagged_insert, lemma_flagged_remove};
use crate::key_laws::{collect_keys, lawful_key, sorted_keys_of};

verus! {

/// A store of messages filed under tags, each with a read flag.
pub trait Mailbox<Tag, Msg>: Sized {
    /// The store's internal invariant.
    spec fn well_formed(&self) -> bool;

    /// Whether tags of type `Tag` can key the store.
    spec fn tags_lawful() -> bool;

    /// An empty store.
    fn new() -> (mailbox: Self)
        requires
            Self::tags_lawful(),
        ensures
            mailbox.well_formed(),
    ;

    /// Files `msg` under a free `tag`; tells whether it was stored.
    fn send(&mut self, tag: Tag, msg: Msg) -> (stored: bool)
        requires
            old(self).well_formed(),
        ensures
            final(self).well_formed(),
    ;

    /// Hands out the message under `tag`, if any, and marks it read.
    fn receive(&mut self, tag: &Tag) -> (msg: Option<Arc<Msg>>)
        requires
            old(self).well_formed(),
        ensures
            final(self).well_formed(),
    ;

    /// The read flag of the message under `tag`, if any.
    fn get_read(&self, tag: &Tag) -> (read: Option<bool>)
        requires
            self.well_formed(),
    ;

    /// Sets the read flag of the message under `tag`; tells whether there was one.
    fn set_read(&mut self, tag: &Tag, read: bool) -> (found: bool)
        requires
            old(self).well_formed(),
        ensures
            final(self).well_formed(),
    ;

    /// Drops the message under `tag`; tells whether there was one.
    fn delete(&mut self, tag: &Tag) -> (found: bool)
        requires
            old(self).well_formed(),
        ensures
            final(self).well_formed(),
    ;

    /// Drops every message.
    fn clear(&mut self)
        requires
            old(self).well_formed(),
        ensures
            final(self).well_formed(),
    ;

    /// The tags of the stored messages.
    fn list(&self) -> (tags: Vec<Tag>)
        requires
            self.well_formed(),
    ;

    /// Drops every message that was read.
    fn gc(&mut self)
        requires
            old(self).well_formed(),
        ensures
            final(self).well_formed(),
    ;
}

/// The messages of `messages` that were not read.
pub open spec fn unread_only<Tag, Msg>(messages: Map<Tag, (bool, Msg)>) -> Map<Tag, (bool, Msg)> {
    messages.restrict(messages.dom().filter(|t: Tag| !messages[t].0))
}

/// Sending in the model: `msg` is filed unread under `tag` unless a message
/// is already filed there. Gives the new messages and whether it was stored.
pub open spec fn send_model<Tag, Msg>(messages: Map<Tag, (bool, Msg)>, tag: Tag, msg: Msg) -> (Map<
    Tag,
    (bool, Msg),
>, bool) {
    if messages.contains_key(tag) {
        (messages, false)
    } else {
        (messages.insert(tag, (false, msg)), true)
    }
}

/// Receiving in the model: the message under `tag`, now marked read.
pub open spec fn receive_model<Tag, Msg>(messages: Map<Tag, (bool, Msg)>, tag: Tag) -> (Map<
    Tag,
    (bool, Msg),
>, Option<Msg>) {
    if messages.contains_key(tag) {
        (messages.insert(tag, (true, messages[tag].1)), Some(messages[tag].1))
    } else {
        (messages, None)
    }
}

/// The read flag of the message under `tag`, if any.
pub open spec fn read_flag<Tag, Msg>(messages: Map<Tag, (bool, Msg)>, tag: Tag) -> Option<bool> {
    if messages.contains_key(tag) {
        Some(messages[tag].0)
    } else {
        None
    }
}

/// Setting a read flag in the model: the message under `tag`, if any, gets
/// the flag `read`. Gives the new messages and whether there was one.
pub open spec fn set_read_model<Tag, Msg>(messages: Map<Tag, (bool, Msg)>, tag: Tag, read: bool) -> (
    Map<Tag, (bool, Msg)>,
    bool,
) {
    if messages.contains_key(tag) {
        (messages.insert(tag, (read, messages[tag].1)), true)
    } else {
        (messages, false)
    }
}

/// What an optional shared message points to.
pub open spec fn pointee<Msg>(msg: Option<Arc<Msg>>) -> Option<Msg> {
    match msg {
        Some(a) => Some(*a),
        None => None,
    }
}

/// A mailbox holding at most one message per tag.
pub struct SimpleMailbox<Tag, Msg> {
    storage: BTreeMap<Tag, (bool, Arc<Msg>)>,
}

impl<Tag, Msg> SimpleMailbox<Tag, Msg> {
    /// The stored messages: for each tag, whether it was read and the message.
    pub closed spec fn messages(&self) -> Map<Tag, (bool, Msg)> {
        flagged_values(self.storage@)
    }
}

impl<Tag: Ord + Clone, Msg> Mailbox<Tag, Msg> for SimpleMailbox<Tag, Msg> {
    closed spec fn well_formed(&self) -> bool {
        &&& lawful_key::<Tag>()
        &&& self.storage@.dom().finite()
    }

    open spec fn tags_lawful() -> bool {
        lawful_key::<Tag>()
    }

    fn new() -> (mailbox: Self)
        ensures
            mailbox.messages() == Map::<Tag, (bool, Msg)>::empty(),
    {
        let mailbox = SimpleMailbox { storage: BTreeMap::new() };
        assert(mailbox.messages() =~= Map::<Tag, (bool, Msg)>::empty());
        mailbox
    }

    /// Stores `msg` unread under `tag` unless a message is already filed there.
    fn send(&mut self, tag: Tag, msg: Msg) -> (stored: bool)
        ensures
            (final(self).messages(), stored) == send_model(old(self).messages(), tag, msg),
    {
        if self.storage.contains_key(&tag) {
            assert(old(self).messages().dom() =~= old(self).storage@.dom());
            false
        } else {
            assert(old(self).messages().dom() =~= old(self).storage@.dom());
            let shared = Arc::new(msg);
            proof {
                lemma_flagged_insert(self.storage@, tag, false, shared);
            }
            self.storage.insert(tag, (false, shared));
            true
        }
    }

    /// Marks the message under `tag` read and hands it out.
    fn receive(&mut self, tag: &Tag) -> (msg: Option<Arc<Msg>>)
        ensures
            (final(self).messages(), pointee(msg)) == receive_model(old(self).messages(), *tag),
    {
        assert(old(self).messages().dom() =~= old(self).storage@.dom());
        let found = match self.storage.get(tag) {
            Some(entry) => Some(entry.1.clone()),
            None => None,
        };
        match found {
            Some(msg) => {
                let key = Tag::clone(tag);
                assert(vstd::pervasive::strictly_cloned(*tag, key));
                proof {
                    lemma_flagged_insert(self.storage@, key, true, msg);
                }
                self.storage.insert(key, (true, msg.clone()));
                Some(msg)
            },
            None => None,
        }
    }

    fn get_read(&self, tag: &Tag) -> (read: Option<bool>)
        ensures
            read == read_flag(self.messages(), *tag),
    {
        assert(self.messages().dom() =~= self.storage@.dom());
        match self.storage.get(tag) {
            Some(entry) => Some(entry.0),
            None => None,
        }
    }

    /// Sets the read flag of the message under `tag`, keeping the message.
    fn set_read(&mut self, tag: &Tag, read: bool) -> (found: bool)
        ensures
            (final(self).messages(), found) == set_read_model(old(self).messages(), *tag, read),
    {
        assert(old(self).messages().dom() =~= old(self).storage@.dom());
        let found = match self.storage.get(tag) {
            Some(entry) => Some(entry.1.clone()),
            None => None,
        };
        match found {
            Some(msg) => {
                let key = Tag::clone(tag);
                assert(vstd::pervasive::strictly_cloned(*tag, key));
                proof {
                    lemma_flagged_insert(self.storage@, key, read, msg);
                }
                self.storage.insert(key, (read, msg));
                true
            },
            None => false,
        }
    }

    fn delete(&mut self, tag: &Tag) -> (found: bool)
        ensures
            found == old(self).messages().contains_key(*tag),
            final(self).messages() == old(self).messages().remove(*tag),
    {
        assert(old(self).messages().dom() =~= old(self).storage@.dom());
        proof {
            lemma_flagged_remove(self.storage@, *tag);
        }
        self.storage.remove(tag).is_some()
    }

    fn clear(&mut self)
        ensures
            final(self).messages() == Map::<Tag, (bool, Msg)>::empty(),
    {
        self.storage.clear();
        assert(self.messages() =~= Map::<Tag, (bool, Msg)>::empty());
    }

    /// The tags of the stored messages, in increasing order.
    fn list(&self) -> (tags: Vec<Tag>)
        ensures
            sorted_keys_of(tags@, self.messages()),
    {
        let tags = collect_keys(&self.storage);
        assert(self.messages().dom() =~= self.storage@.dom());
        tags
    }

    /// Keeps exactly the messages that were not read.
    fn gc(&mut self)
        ensures
            final(self).messages() == unread_only(old(self).messages()),
    {
        let tags = collect_keys(&self.storage);
        let ghost start = self.storage@;
        let mut i: usize = 0;
        while i < tags.len()
            invariant
                lawful_key::<Tag>(),
                sorted_keys_of(tags@, start),
                0 <= i <= tags.len(),
                self.storage@.dom().finite(),
                self.storage@ == start.restrict(
                    start.dom().filter(
                        |t: Tag| !(tags@.take(i as int).contains(t) && start[t].0),
                    ),
                ),
            decreases tags.len() - i,
        {
            let ghost k = tags@[i as int];
            assert(tags@.to_set().contains(k));
            assert(!tags@.take(i as int).contains(k)) by {
                if tags@.take(i as int).contains(k) {
                    let j = tags@.take(i as int).index_of(k);
                    assert(tags@[j] == tags@[i as int]);
                }
            }
            assert(self.storage@.contains_key(k) && self.storage@[k] == start[k]);
            let ghost before = self.storage@;
            let read = match self.storage.get(&tags[i]) {
                Some(entry) => entry.0,
                None => false,
            };
            if read {
                self.storage.remove(&tags[i]);
            }
            assert(tags@.take(i + 1) =~= tags@.take(i as int).push(tags@[i as int]));
            i = i + 1;
            assert forall|t: Tag| #[trigger] tags@.take(i as int).contains(t) <==> (tags@.take(
                i - 1,
            ).contains(t) || t == k) by {
                if tags@.take(i as int).contains(t) && t != k {
                    let j = tags@.take(i as int).index_of(t);
                    assert(tags@.take(i - 1)[j] == t);
                }
                if t == k {
                    assert(tags@.take(i as int)[i - 1] == k);
                }
            }
            assert(self.storage@ =~= start.restrict(
                start.dom().filter(|t: Tag| !(tags@.take(i as int).contains(t) && start[t].0)),
            ));
        }
        assert(tags@.take(i as int) =~= tags@);
        assert(self.messages() =~= unread_only(old(self).messages()));
    }
}

/// A message that a send stored is what a receive of its tag hands out,
/// and the receive marks it read.
pub proof fn law_receive_after_send<Tag, Msg>(messages: Map<Tag, (bool, Msg)>, tag: Tag, msg: Msg)
    ensures
        ({
            let (sent, stored) = send_model(messages, tag, msg);
            let (after, got) = receive_model(sent, tag);
            stored ==> got == Some(msg) && read_flag(after, tag) == Some(true)
        }),
{
}

/// A send to a tag that already holds a message changes nothing.
pub proof fn law_send_never_overwrites<Tag, Msg>(messages: Map<Tag, (bool, Msg)>, tag: Tag, msg: Msg)
    requires
        messages.contains_key(tag),
    ensures
        send_model(messages, tag, msg) == (messages, false),
{
}

/// The flag that a set-read wrote is the flag a later lookup reads.
pub proof fn law_get_read_after_set_read<Tag, Msg>(
    messages: Map<Tag, (bool, Msg)>,
    tag: Tag,
    read: bool,
)
    ensures
        ({
            let (after, found) = set_read_model(messages, tag, read);
            found ==> read_flag(after, tag) == Some(read)
        }),
{
}

/// Garbage collection keeps exactly the unread messages: a message survives
/// it if and only if it was stored and not read, and it survives unchanged.
pub proof fn law_gc_keeps_unread<Tag, Msg>(messages: Map<Tag, (bool, Msg)>, tag: Tag)
    ensures
        unread_only(messages).contains_key(tag) <==> read_flag(messages, tag) == Some(false),
        unread_only(messages).contains_key(tag) ==> unread_only(messages)[tag] == messages[tag],
{
}

/// A message that was received does not survive garbage collection.
pub proof fn law_received_is_collected<Tag, Msg>(messages: Map<Tag, (bool, Msg)>, tag: Tag)
    ensures
        !unread_only(receive_model(messages, tag).0).contains_key(tag),
{
}

} // verus!
