//! The reactor's event logic: how one batch of filesystem notifications
//! mutates the live index.
//!
//! The blocking wait on the OS notification facility lives outside the
//! library; the loop hands each batch over as plain [`WatchedEvent`] values,
//! already resolved to the directory they were observed in. This module
//! decides, for every notification, whether it is ignored (no file name, or
//! the subject is itself a directory), inserts on a create, removes on a
//! delete, and treats any other kind as fatal.

use vstd::prelude::*;

use crate::errors::ReactorError;
use crate::index::{insert_path, lemma_insert_path, lemma_remove_path, remove_path, LiveIndex};
use crate::pathutil::{join_path, join_path_spec};

verus! {

/// The kind of a filesystem notification. The reactor subscribes to creates
/// and deletes only; `Other` stands for any kind outside the subscription.
#[derive(Debug, Clone, Copy, PartialEq, Eq, Structural)]
pub enum EventKind {
    Create,
    Delete,
    Other,
}

/// One filesystem notification, resolved to the watched directory it came
/// from. `name` is absent when the event concerns the watched directory
/// itself rather than an entry inside it.
#[derive(Debug)]
pub struct WatchedEvent {
    pub dir: String,
    pub name: Option<String>,
    pub is_dir: bool,
    pub kind: EventKind,
}

/// The mathematical content of a [`WatchedEvent`].
pub struct WatchedEventV {
    pub dir: Seq<char>,
    pub name: Option<Seq<char>>,
    pub is_dir: bool,
    pub kind: EventKind,
}

impl View for WatchedEvent {
    type V = WatchedEventV;

    open spec fn view(&self) -> WatchedEventV {
        WatchedEventV {
            dir: self.dir@,
            name: self.name.deep_view(),
            is_dir: self.is_dir,
            kind: self.kind,
        }
    }
}

impl DeepView for WatchedEvent {
    type V = WatchedEventV;

    open spec fn deep_view(&self) -> WatchedEventV {
        self.view()
    }
}

/// The absolute path a notification is about, or `None` when the
/// notification is ignored: events without a file name concern the watched
/// directory itself, and events about directories are outside the
/// non-recursion invariant.
pub open spec fn event_target(ev: WatchedEventV) -> Option<Seq<char>> {
    match ev.name {
        Some(name) => if ev.is_dir {
            None
        } else {
            Some(join_path_spec(ev.dir, name))
        },
        None => None,
    }
}

/// The reactor's state while a batch is applied: the index contents, the
/// paths whose creation was seen (they still need thumbnails), and the
/// subject of the first notification of an unexpected kind, if any.
pub struct BatchState {
    pub index: Seq<Seq<char>>,
    pub created: Seq<Seq<char>>,
    pub fatal: Option<Seq<char>>,
}

/// One notification applied to the reactor state. After a fatal
/// notification the rest of the batch is left unprocessed.
pub open spec fn batch_step(st: BatchState, ev: WatchedEventV) -> BatchState {
    if st.fatal is Some {
        st
    } else {
        match event_target(ev) {
            None => st,
            Some(p) => match ev.kind {
                EventKind::Create => BatchState {
                    index: insert_path(st.index, p),
                    created: st.created.push(p),
                    fatal: None,
                },
                EventKind::Delete => BatchState {
                    index: remove_path(st.index, p),
                    created: st.created,
                    fatal: None,
                },
                EventKind::Other => BatchState {
                    index: st.index,
                    created: st.created,
                    fatal: Some(p),
                },
            },
        }
    }
}

/// A whole batch applied to an initial index, notification by notification,
/// in delivery order.
pub open spec fn batch_run(init: Seq<Seq<char>>, events: Seq<WatchedEventV>) -> BatchState
    decreases events.len(),
{
    if events.len() == 0 {
        BatchState { index: init, created: Seq::empty(), fatal: None }
    } else {
        batch_step(batch_run(init, events.drop_last()), events.last())
    }
}

/// Once a batch has hit a fatal notification, the later notifications do not
/// change the state.
pub proof fn lemma_batch_run_fatal_stable(
    init: Seq<Seq<char>>,
    events: Seq<WatchedEventV>,
    i: int,
)
    requires
        0 <= i <= events.len(),
        batch_run(init, events.take(i)).fatal is Some,
    ensures
        batch_run(init, events) == batch_run(init, events.take(i)),
    decreases events.len() - i,
{
    if i == events.len() {
        assert(events.take(i) =~= events);
    } else {
        assert(events.take(i + 1).drop_last() =~= events.take(i));
        assert(events.take(i + 1).last() == events[i]);
        lemma_batch_run_fatal_stable(init, events, i + 1);
    }
}

/// Applies one batch of notifications to the live index.
///
/// On success the returned list holds, in order, each path whose creation
/// was observed (the caller owes each a thumbnail). When a notification of
/// an unexpected kind is hit, the notifications before it have been applied,
/// the rest of the batch is dropped, and the error names the offending path.
pub fn apply_batch(index: &mut LiveIndex, events: &Vec<WatchedEvent>) -> (r: Result<
    Vec<String>,
    ReactorError,
>)
    ensures
        final(index)@ == batch_run(old(index)@, events.deep_view()).index,
        match r {
            Ok(created) => batch_run(old(index)@, events.deep_view()).fatal is None
                && created.deep_view() == batch_run(old(index)@, events.deep_view()).created,
            Err(e) => batch_run(old(index)@, events.deep_view()).fatal is Some && (e matches
                ReactorError::UnexpectedEventKind { path } && path@ == batch_run(
                old(index)@,
                events.deep_view(),
            ).fatal.unwrap()),
        },
{
    let ghost evs = events.deep_view();
    let ghost init = index@;
    let n = events.len();
    let mut created: Vec<String> = Vec::new();
    let mut i: usize = 0;
    while i < n
        invariant
            n == events@.len(),
            evs == events.deep_view(),
            init == old(index)@,
            i <= n,
            batch_run(init, evs.take(i as int)).fatal is None,
            index@ == batch_run(init, evs.take(i as int)).index,
            created.deep_view() == batch_run(init, evs.take(i as int)).created,
        decreases n - i,
    {
        proof {
            assert(evs.take(i + 1).drop_last() =~= evs.take(i as int));
            assert(evs.take(i + 1).last() == evs[i as int]);
            assert(evs[i as int] == events@[i as int]@);
        }
        let ev = &events[i];
        if let Some(name) = &ev.name {
            if !ev.is_dir {
                let path = join_path(ev.dir.as_str(), name.as_str());
                proof {
                    assert(event_target(evs[i as int]) == Some(path@));
                }
                match ev.kind {
                    EventKind::Create => {
                        index.insert(path.clone());
                        let ghost prev = created@;
                        created.push(path);
                        proof {
                            assert(created@ == prev.push(created@[prev.len() as int]));
                            assert(forall|k: int|
                                0 <= k < prev.len() ==> created@[k] == prev[k]);
                            assert(created.deep_view() =~= batch_run(
                                init,
                                evs.take(i + 1),
                            ).created);
                        }
                    },
                    EventKind::Delete => {
                        index.remove(&path);
                    },
                    EventKind::Other => {
                        proof {
                            lemma_batch_run_fatal_stable(init, evs, i + 1);
                        }
                        return Err(ReactorError::UnexpectedEventKind { path });
                    },
                }
            }
        }
        i = i + 1;
    }
    proof {
        assert(evs.take(n as int) =~= evs);
    }
    Ok(created)
}

/// The membership set reached by treating each acted-on notification as a
/// set operation: a create inserts its path, a delete removes it, and any
/// other kind (which the reactor treats as fatal) changes nothing.
pub open spec fn apply_ops_set(init: Set<Seq<char>>, events: Seq<WatchedEventV>) -> Set<Seq<char>>
    decreases events.len(),
{
    if events.len() == 0 {
        init
    } else {
        let prev = apply_ops_set(init, events.drop_last());
        let ev = events.last();
        match event_target(ev) {
            None => prev,
            Some(p) => match ev.kind {
                EventKind::Create => prev.insert(p),
                EventKind::Delete => prev.remove(p),
                EventKind::Other => prev,
            },
        }
    }
}

/// Law: for every sequence of create and delete notifications applied to an
/// initial index, the membership set afterwards equals the mathematical set
/// obtained by applying the same operations to the initial membership set —
/// duplicate creates collapse and deletes of absent paths are no-ops.
pub proof fn lemma_batch_set_semantics(init: Seq<Seq<char>>, events: Seq<WatchedEventV>)
    requires
        batch_run(init, events).fatal is None,
    ensures
        batch_run(init, events).index.to_set() == apply_ops_set(init.to_set(), events),
    decreases events.len(),
{
    if events.len() > 0 {
        let head = events.drop_last();
        let prev = batch_run(init, head);
        if prev.fatal is Some {
            assert(batch_run(init, events) == prev);
            assert(false);
        }
        lemma_batch_set_semantics(init, head);
        let ev = events.last();
        match event_target(ev) {
            None => {},
            Some(p) => match ev.kind {
                EventKind::Create => {
                    lemma_insert_path(prev.index, p);
                },
                EventKind::Delete => {
                    lemma_remove_path(prev.index, p);
                },
                EventKind::Other => {},
            },
        }
    }
}

} // verus!
