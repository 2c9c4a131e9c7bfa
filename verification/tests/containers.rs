use mxlite::mailbox::{Mailbox as TagMailbox, SimpleMailbox as TagMailboxStore};
use mxlite::state::{AtomticStateStorage as OldStateStorage, StateStorage as OldStateTrait};
use mxlite::utils::mailbox::{Mailbox, SimpleMailbox};
use mxlite::utils::state::{AtomticStateStorage, StateStorage};

#[test]
fn bounded_mailbox_receive_after_send() {
    let mut mb: SimpleMailbox<u64, String> = SimpleMailbox::new(4);
    assert_eq!(mb.capacity(), 4);
    assert!(mb.send(7, "hello".to_string()));
    let got = mb.receive(&7).expect("message filed under 7");
    assert_eq!(got.as_str(), "hello");
    assert!(mb.receive(&8).is_none());
}

#[test]
fn bounded_mailbox_refuses_when_full_of_unread() {
    let mut mb: SimpleMailbox<u64, u64> = SimpleMailbox::new(2);
    assert!(mb.send(1, 10));
    assert!(mb.send(2, 20));
    assert!(!mb.send(3, 30));
    assert_eq!(mb.list(), vec![1, 2]);
}

#[test]
fn bounded_mailbox_evicts_oldest_read_first() {
    let mut mb: SimpleMailbox<u64, u64> = SimpleMailbox::new(2);
    assert!(mb.send(1, 10));
    assert!(mb.send(2, 20));
    assert!(mb.receive(&2).is_some());
    assert!(mb.receive(&1).is_some());
    // Full: the message read first (tag 2) makes room.
    assert!(mb.send(3, 30));
    assert_eq!(mb.list(), vec![1, 3]);
    assert!(mb.send(4, 40));
    assert_eq!(mb.list(), vec![3, 4]);
    assert!(!mb.send(5, 50));
}

#[test]
fn bounded_mailbox_resent_tag_stays_queued_for_eviction() {
    let mut mb: SimpleMailbox<u64, &str> = SimpleMailbox::new(2);
    assert!(mb.send(1, "a"));
    assert!(mb.receive(&1).is_some());
    // Sending under a read tag files an unread message, but the tag is still queued.
    assert!(mb.send(1, "b"));
    assert!(mb.send(2, "c"));
    assert!(mb.send(3, "d"));
    assert_eq!(mb.list(), vec![2, 3]);
}

#[test]
fn bounded_mailbox_zero_capacity_stores_nothing() {
    let mut mb: SimpleMailbox<u64, u64> = SimpleMailbox::new(0);
    assert!(!mb.send(1, 1));
    assert!(mb.list().is_empty());
}

#[test]
fn bounded_mailbox_clear_forgets_everything() {
    let mut mb: SimpleMailbox<u64, u64> = SimpleMailbox::new(3);
    assert!(mb.send(1, 1));
    assert!(mb.send(2, 2));
    mb.clear();
    assert!(mb.list().is_empty());
    assert!(mb.receive(&1).is_none());
}

#[test]
fn bounded_mailbox_list_is_sorted() {
    let mut mb: SimpleMailbox<u64, u64> = SimpleMailbox::new(5);
    assert!(mb.send(9, 0));
    assert!(mb.send(3, 0));
    assert!(mb.send(5, 0));
    assert_eq!(mb.list(), vec![3, 5, 9]);
}

#[test]
fn tag_mailbox_never_overwrites() {
    let mut mb: TagMailboxStore<u64, String> = TagMailboxStore::new();
    assert!(mb.send(1, "first".to_string()));
    assert!(!mb.send(1, "second".to_string()));
    assert_eq!(mb.receive(&1).unwrap().as_str(), "first");
}

#[test]
fn tag_mailbox_read_flags() {
    let mut mb: TagMailboxStore<u64, u64> = TagMailboxStore::new();
    assert_eq!(mb.get_read(&1), None);
    assert!(mb.send(1, 5));
    assert_eq!(mb.get_read(&1), Some(false));
    assert_eq!(*mb.receive(&1).unwrap(), 5);
    assert_eq!(mb.get_read(&1), Some(true));
    assert!(mb.set_read(&1, false));
    assert_eq!(mb.get_read(&1), Some(false));
    assert!(!mb.set_read(&2, true));
}

#[test]
fn tag_mailbox_gc_keeps_unread() {
    let mut mb: TagMailboxStore<u64, u64> = TagMailboxStore::new();
    assert!(mb.send(1, 1));
    assert!(mb.send(2, 2));
    assert!(mb.send(3, 3));
    assert!(mb.receive(&2).is_some());
    mb.gc();
    assert_eq!(mb.list(), vec![1, 3]);
    assert!(mb.delete(&1));
    assert!(!mb.delete(&1));
    assert_eq!(mb.list(), vec![3]);
    mb.clear();
    assert!(mb.list().is_empty());
}

#[test]
fn state_storage_get_after_set_and_remove() {
    let mut st: OldStateStorage<u64, String> = OldStateStorage::new();
    st.set(4, "four".to_string());
    assert_eq!(st.get(&4).unwrap().as_str(), "four");
    assert!(st.has(&4));
    st.set(4, "FOUR".to_string());
    assert_eq!(st.get(&4).unwrap().as_str(), "FOUR");
    st.remove(&4);
    assert!(st.get(&4).is_none());
    assert!(!st.has(&4));
}

#[test]
fn state_storage_add_and_replace() {
    let mut st: OldStateStorage<u64, u64> = OldStateStorage::new();
    assert!(!st.replace(1, 10));
    assert!(st.get(&1).is_none());
    assert!(st.add(1, 10));
    assert!(!st.add(1, 11));
    assert_eq!(*st.get(&1).unwrap(), 10);
    assert!(st.replace(1, 12));
    assert_eq!(*st.get(&1).unwrap(), 12);
    assert!(st.add(0, 0));
    assert_eq!(st.list(), vec![0, 1]);
}

#[test]
fn state_storage_map_updates_only_present_keys() {
    let mut st: OldStateStorage<u64, u64> = OldStateStorage::new();
    assert!(!st.map(1, |v: &u64| Some(*v + 1)));
    st.set(1, 41);
    assert!(st.map(1, |v: &u64| Some(*v + 1)));
    assert_eq!(*st.get(&1).unwrap(), 42);
    assert!(st.map(1, |_v: &u64| None));
    assert_eq!(*st.get(&1).unwrap(), 42);
}

#[test]
fn shared_state_storage_basics() {
    let mut st: AtomticStateStorage<u64, String> = AtomticStateStorage::new();
    st.insert(2, "two".to_string());
    assert!(st.contains(&2));
    assert_eq!(st.get(&2).unwrap().as_str(), "two");
    st.insert(1, "one".to_string());
    assert_eq!(st.list(), vec![1, 2]);
    st.remove(&2);
    assert!(!st.contains(&2));
    assert!(st.map(1, |s: &String| Some(format!("{s}!"))));
    assert_eq!(st.get(&1).unwrap().as_str(), "one!");
}

#[test]
fn deferred_insert_is_idempotent() {
    let mut st: AtomticStateStorage<u64, u64> = AtomticStateStorage::new();
    let first = st.try_insert_deferred_returning(5, || 50).unwrap();
    assert_eq!(*first, 50);
    let mut called = false;
    let second = st
        .try_insert_deferred_returning(5, || {
            called = true;
            51
        })
        .unwrap();
    assert_eq!(*second, 50);
    assert!(!called);
    assert_eq!(*st.get(&5).unwrap(), 50);
}
