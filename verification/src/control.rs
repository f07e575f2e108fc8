//! The control surface: starting a session over a text, and stopping it by
//! the handle that the start gave out.
//!
//! A registry keeps one entry for each session that is running. It refuses a
//! second session over a text that is already watched, so no two sessions
//! ever work on the same text, and it keeps the stop that was asked of each
//! session until the session's loop has seen it. Stopping a session that is
//! not known, or no longer known, does nothing.
//!
//! A text is known by its path, as it was written when the session was
//! started: two different spellings of a path count as two texts.

use vstd::prelude::*;

verus! {

/// Names one session that was started.
#[derive(Clone, Copy, Debug, PartialEq, Eq, Hash, Structural)]
pub struct SessionHandle(pub u64);

/// A session cannot be started over a text that is already watched.
#[derive(Clone, Copy, Debug, PartialEq, Eq, Structural)]
pub struct AlreadyWatched;

/// One running session: its handle's number, the path of its text, and
/// whether it has been asked to stop.
struct Watch {
    id: u64,
    path: String,
    stop_requested: bool,
}

/// What one entry of a registry stands for.
pub ghost struct WatchView {
    pub id: nat,
    pub path: Seq<char>,
    pub stop_requested: bool,
}

impl View for Watch {
    type V = WatchView;

    closed spec fn view(&self) -> WatchView {
        WatchView { id: self.id as nat, path: self.path@, stop_requested: self.stop_requested }
    }
}

/// What a [`SessionRegistry`] stands for: the number of the next handle, and
/// the running sessions in the order in which they were started.
pub ghost struct RegistryView {
    pub next_id: nat,
    pub watches: Seq<WatchView>,
}

impl RegistryView {
    /// Whether a running session has the handle numbered `id`.
    pub open spec fn knows(self, id: nat) -> bool {
        exists|i: int| 0 <= i < self.watches.len() && #[trigger] self.watches[i].id == id
    }

    /// Whether a running session watches the text at `path`.
    pub open spec fn is_watching(self, path: Seq<char>) -> bool {
        exists|i: int| 0 <= i < self.watches.len() && #[trigger] self.watches[i].path == path
    }

    /// Whether the session with the handle numbered `id` is to stop: whether
    /// it was asked to, or is not running at all.
    pub open spec fn should_stop(self, id: nat) -> bool {
        forall|i: int|
            0 <= i < self.watches.len() && #[trigger] self.watches[i].id == id
                ==> self.watches[i].stop_requested
    }

    /// The registry after the session with the handle numbered `id` was asked
    /// to stop.
    pub open spec fn with_stop_requested(self, id: nat) -> RegistryView {
        RegistryView {
            next_id: self.next_id,
            watches: Seq::new(
                self.watches.len(),
                |i: int|
                    if self.watches[i].id == id {
                        WatchView { stop_requested: true, ..self.watches[i] }
                    } else {
                        self.watches[i]
                    },
            ),
        }
    }

    /// The registry after a session over the text at `path` was started.
    pub open spec fn with_started(self, path: Seq<char>) -> RegistryView {
        RegistryView {
            next_id: self.next_id + 1,
            watches: self.watches.push(
                WatchView { id: self.next_id, path, stop_requested: false },
            ),
        }
    }

    /// No two running sessions share a handle or a text, and every handle
    /// that was given out is below the next one.
    pub open spec fn consistent(self) -> bool {
        &&& forall|i: int| 0 <= i < self.watches.len() ==> (#[trigger] self.watches[i]).id
            < self.next_id
        &&& forall|i: int, j: int|
            0 <= i < j < self.watches.len() ==> (#[trigger] self.watches[i]).id != (
            #[trigger] self.watches[j]).id
        &&& forall|i: int, j: int|
            0 <= i < j < self.watches.len() ==> (#[trigger] self.watches[i]).path != (
            #[trigger] self.watches[j]).path
    }
}

/// The views of a sequence of entries.
spec fn watch_views(watches: Seq<Watch>) -> Seq<WatchView> {
    watches.map_values(|w: Watch| w@)
}

/// The sessions that are running, by handle.
pub struct SessionRegistry {
    next_id: u64,
    watches: Vec<Watch>,
}

impl View for SessionRegistry {
    type V = RegistryView;

    closed spec fn view(&self) -> RegistryView {
        RegistryView { next_id: self.next_id as nat, watches: watch_views(self.watches@) }
    }
}

impl SessionRegistry {
    #[verifier::type_invariant]
    spec fn sound(&self) -> bool {
        self@.consistent()
    }

    /// A registry in which no session is running.
    pub fn new() -> (registry: SessionRegistry)
        ensures
            registry@ == (RegistryView { next_id: 0, watches: Seq::empty() }),
            registry@.consistent(),
    {
        let registry = SessionRegistry { next_id: 0, watches: Vec::new() };
        assert(registry@.watches =~= Seq::<WatchView>::empty());
        registry
    }

    /// Where in the registry the session with the handle numbered `id` is, if
    /// it is running.
    fn position(&self, id: u64) -> (found: Option<usize>)
        ensures
            found is Some <==> self@.knows(id as nat),
            found matches Some(i) ==> i < self@.watches.len() && self@.watches[i as int].id == id,
    {
        let mut i: usize = 0;
        while i < self.watches.len()
            invariant
                i <= self.watches.len(),
                forall|j: int| 0 <= j < i ==> (#[trigger] self@.watches[j]).id != id,
            decreases self.watches.len() - i,
        {
            if self.watches[i].id == id {
                assert(self@.watches[i as int].id == id);
                return Some(i);
            }
            i += 1;
        }
        None
    }

    /// Starts a session over the text at `path` and gives out its handle, or
    /// refuses where a running session watches that text already.
    pub fn start(&mut self, path: &str) -> (started: Result<SessionHandle, AlreadyWatched>)
        requires
            old(self)@.next_id < u64::MAX,
        ensures
            started is Err <==> old(self)@.is_watching(path@),
            started is Err ==> final(self)@ == old(self)@,
            started matches Ok(handle) ==> handle.0 == old(self)@.next_id && final(self)@ == old(
                self,
            )@.with_started(path@),
            final(self)@.consistent(),
    {
        proof {
            use_type_invariant(&*self);
        }
        let wanted = path.to_owned();
        let mut i: usize = 0;
        while i < self.watches.len()
            invariant
                i <= self.watches.len(),
                wanted@ == path@,
                forall|j: int| 0 <= j < i ==> (#[trigger] self@.watches[j]).path != path@,
            decreases self.watches.len() - i,
        {
            if self.watches[i].path == wanted {
                assert(self@.watches[i as int].path == path@);
                proof {
                    use_type_invariant(&*self);
                }
                return Err(AlreadyWatched);
            }
            i += 1;
        }
        let id = self.next_id;
        let mut watches: Vec<Watch> = Vec::new();
        core::mem::swap(&mut self.watches, &mut watches);
        watches.push(Watch { id, path: wanted, stop_requested: false });
        assert(watch_views(watches@) =~= old(self)@.with_started(path@).watches);
        assert(old(self)@.with_started(path@).consistent());
        self.next_id = id + 1;
        core::mem::swap(&mut self.watches, &mut watches);
        Ok(SessionHandle(id))
    }

    /// Asks the session with this handle to stop. Where no such session is
    /// running, nothing happens.
    pub fn stop(&mut self, handle: SessionHandle)
        ensures
            final(self)@ == old(self)@.with_stop_requested(handle.0 as nat),
            final(self)@.consistent(),
    {
        proof {
            use_type_invariant(&*self);
        }
        let mut watches: Vec<Watch> = Vec::new();
        core::mem::swap(&mut self.watches, &mut watches);
        let ghost before = watch_views(watches@);
        let mut i: usize = 0;
        while i < watches.len()
            invariant
                i <= watches.len(),
                watches.len() == before.len(),
                forall|j: int|
                    0 <= j < i ==> (#[trigger] watch_views(watches@)[j]) == (if before[j].id
                        == handle.0 {
                        WatchView { stop_requested: true, ..before[j] }
                    } else {
                        before[j]
                    }),
                forall|j: int|
                    i <= j < watches.len() ==> (#[trigger] watch_views(watches@)[j]) == before[j],
            decreases watches.len() - i,
        {
            let ghost at_head = watches@;
            if watches[i].id == handle.0 {
                watches[i].stop_requested = true;
            }
            assert forall|j: int| 0 <= j < i + 1 implies (#[trigger] watch_views(watches@)[j]) == (
            if before[j].id == handle.0 {
                WatchView { stop_requested: true, ..before[j] }
            } else {
                before[j]
            }) by {
                assert(watch_views(at_head)[j] == at_head[j]@);
            }
            assert forall|j: int| i + 1 <= j < watches.len() implies (#[trigger] watch_views(
                watches@,
            )[j]) == before[j] by {
                assert(watch_views(watches@)[j] == watch_views(at_head)[j]);
            }
            i += 1;
        }
        assert(watch_views(watches@) =~= old(self)@.with_stop_requested(handle.0 as nat).watches);
        assert(old(self)@.with_stop_requested(handle.0 as nat).consistent());
        core::mem::swap(&mut self.watches, &mut watches);
    }

    /// Tells whether the session with this handle is to stop: whether it was
    /// asked to, or is not running.
    pub fn should_stop(&self, handle: SessionHandle) -> (stop: bool)
        ensures
            stop == self@.should_stop(handle.0 as nat),
    {
        proof {
            use_type_invariant(self);
        }
        match self.position(handle.0) {
            Some(i) => {
                assert(self@.watches[i as int] == self.watches@[i as int]@);
                self.watches[i].stop_requested
            },
            None => true,
        }
    }

    /// Tells whether a session with this handle is running.
    pub fn is_running(&self, handle: SessionHandle) -> (running: bool)
        ensures
            running == self@.knows(handle.0 as nat),
    {
        self.position(handle.0).is_some()
    }

    /// Takes the session with this handle out of the registry, once its loop
    /// has ended: its text can be watched anew. Where no such session is
    /// running, nothing happens.
    pub fn finish(&mut self, handle: SessionHandle)
        ensures
            !old(self)@.knows(handle.0 as nat) ==> final(self)@ == old(self)@,
            forall|i: int|
                0 <= i < old(self)@.watches.len() && (#[trigger] old(self)@.watches[i]).id
                    == handle.0 ==> final(self)@ == (RegistryView {
                    next_id: old(self)@.next_id,
                    watches: old(self)@.watches.remove(i),
                }),
            !final(self)@.knows(handle.0 as nat),
            final(self)@.consistent(),
    {
        proof {
            use_type_invariant(&*self);
        }
        match self.position(handle.0) {
            Some(found) => {
                let mut watches: Vec<Watch> = Vec::new();
                core::mem::swap(&mut self.watches, &mut watches);
                watches.remove(found);
                assert(watch_views(watches@) =~= old(self)@.watches.remove(found as int));
                let ghost after = RegistryView {
                    next_id: old(self)@.next_id,
                    watches: old(self)@.watches.remove(found as int),
                };
                assert(after.consistent()) by {
                    assert forall|i: int| 0 <= i < after.watches.len() implies (
                    #[trigger] after.watches[i]).id < after.next_id by {
                        if i < found {
                            assert(after.watches[i] == old(self)@.watches[i]);
                        } else {
                            assert(after.watches[i] == old(self)@.watches[i + 1]);
                        }
                    }
                    assert forall|i: int, j: int| 0 <= i < j < after.watches.len() implies (
                    #[trigger] after.watches[i]).id != (#[trigger] after.watches[j]).id && (
                    after.watches[i]).path != (after.watches[j]).path by {
                        let p = if i < found { i } else { i + 1 };
                        let q = if j < found { j } else { j + 1 };
                        assert(after.watches[i] == old(self)@.watches[p]);
                        assert(after.watches[j] == old(self)@.watches[q]);
                    }
                }
                assert(!after.knows(handle.0 as nat)) by {
                    assert forall|i: int| 0 <= i < after.watches.len() implies (
                    #[trigger] after.watches[i]).id != handle.0 by {
                        let p = if i < found { i } else { i + 1 };
                        assert(after.watches[i] == old(self)@.watches[p]);
                        assert(old(self)@.watches[found as int].id == handle.0);
                    }
                }
                assert forall|i: int|
                    0 <= i < old(self)@.watches.len() && (#[trigger] old(self)@.watches[i]).id
                        == handle.0 implies i == found by {
                    assert(old(self)@.watches[found as int].id == handle.0);
                }
                core::mem::swap(&mut self.watches, &mut watches);
            },
            None => {},
        }
    }

    /// The number of the handle that the next start gives out.
    pub fn next_id(&self) -> (id: u64)
        ensures
            id == self@.next_id,
    {
        self.next_id
    }

    /// How many sessions are running.
    pub fn len(&self) -> (n: usize)
        ensures
            n == self@.watches.len(),
    {
        self.watches.len()
    }
}

} // verus!
