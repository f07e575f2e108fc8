//! The conversation window: the last few versions of the text, oldest first,
//! which are sent to the completion service as the context of a request.
//!
//! A window has a fixed capacity of at least one. Appending to a full window
//! discards its oldest version, so a window always holds the most recent
//! versions that were appended to it, in the order in which they came.

use vstd::prelude::*;

verus! {

/// The capacity of a window that is made without naming one.
pub const DEFAULT_CAPACITY: usize = 2;

/// One captured version of the text, with the number of that version.
#[derive(Clone, Debug, PartialEq, Eq)]
pub struct Snapshot {
    pub version: u64,
    pub text: String,
}

/// What a [`Snapshot`] stands for.
pub ghost struct SnapshotView {
    pub version: nat,
    pub text: Seq<char>,
}

impl View for Snapshot {
    type V = SnapshotView;

    open spec fn view(&self) -> SnapshotView {
        SnapshotView { version: self.version as nat, text: self.text@ }
    }
}

/// One turn of the conversation as it is transmitted: who speaks, and what.
#[derive(Clone, Debug, PartialEq, Eq)]
pub struct Message {
    pub role: String,
    pub content: String,
}

/// What a [`Message`] stands for.
pub ghost struct MessageView {
    pub role: Seq<char>,
    pub content: Seq<char>,
}

impl View for Message {
    type V = MessageView;

    open spec fn view(&self) -> MessageView {
        MessageView { role: self.role@, content: self.content@ }
    }
}

/// The role under which every version of the text is transmitted.
pub open spec fn author_role() -> Seq<char> {
    "user"@
}

/// The views of a sequence of snapshots.
pub open spec fn snapshot_views(snapshots: Seq<Snapshot>) -> Seq<SnapshotView> {
    snapshots.map_values(|s: Snapshot| s@)
}

/// The views of a sequence of messages.
pub open spec fn message_views(messages: Seq<Message>) -> Seq<MessageView> {
    messages.map_values(|m: Message| m@)
}

/// The last `capacity` items of `items`, or all of them where they are fewer.
pub open spec fn most_recent<T>(items: Seq<T>, capacity: nat) -> Seq<T> {
    if items.len() <= capacity {
        items
    } else {
        items.subrange(items.len() - capacity, items.len() as int)
    }
}

/// What a window of the given capacity holds after `snapshot` was appended to
/// one that held `held`.
pub open spec fn after_append(held: Seq<SnapshotView>, capacity: nat, snapshot: SnapshotView) -> Seq<
    SnapshotView,
> {
    most_recent(held.push(snapshot), capacity)
}

/// What a window of the given capacity holds after all of `appended` were
/// appended, in order, to one that held `held`.
pub open spec fn after_appending_all(
    held: Seq<SnapshotView>,
    capacity: nat,
    appended: Seq<SnapshotView>,
) -> Seq<SnapshotView>
    decreases appended.len(),
{
    if appended.len() == 0 {
        held
    } else {
        after_append(
            after_appending_all(held, capacity, appended.drop_last()),
            capacity,
            appended.last(),
        )
    }
}

/// The messages that stand for `snapshots`: one per snapshot, in the same
/// order, each carrying the snapshot's text under the author's role.
pub open spec fn transmitted(snapshots: Seq<SnapshotView>) -> Seq<MessageView> {
    Seq::new(
        snapshots.len(),
        |i: int| MessageView { role: author_role(), content: snapshots[i].text },
    )
}

/// A capacity of zero was asked for.
#[derive(Clone, Copy, Debug, PartialEq, Eq, Structural)]
pub struct ZeroCapacity;

/// What a [`ConversationWindow`] stands for: its capacity and what it holds,
/// oldest first.
pub ghost struct WindowView {
    pub capacity: nat,
    pub snapshots: Seq<SnapshotView>,
}

/// A bounded history of snapshots, oldest first.
#[derive(Debug)]
pub struct ConversationWindow {
    capacity: usize,
    snapshots: Vec<Snapshot>,
}

impl View for ConversationWindow {
    type V = WindowView;

    closed spec fn view(&self) -> WindowView {
        WindowView { capacity: self.capacity as nat, snapshots: snapshot_views(self.snapshots@) }
    }
}

impl ConversationWindow {
    #[verifier::type_invariant]
    spec fn within_capacity(&self) -> bool {
        1 <= self.capacity && self.snapshots.len() <= self.capacity
    }

    /// An empty window of the given capacity, or the error where that is zero.
    pub fn new(capacity: usize) -> (made: Result<ConversationWindow, ZeroCapacity>)
        ensures
            capacity == 0 <==> made is Err,
            made matches Ok(window) ==> window@.capacity == capacity
                && window@.snapshots == Seq::<SnapshotView>::empty(),
    {
        if capacity == 0 {
            Err(ZeroCapacity)
        } else {
            let window = ConversationWindow { capacity, snapshots: Vec::new() };
            assert(window@.snapshots =~= Seq::<SnapshotView>::empty());
            Ok(window)
        }
    }

    /// An empty window of the default capacity.
    pub fn with_default_capacity() -> (window: ConversationWindow)
        ensures
            window@.capacity == DEFAULT_CAPACITY,
            window@.snapshots == Seq::<SnapshotView>::empty(),
    {
        let window = ConversationWindow { capacity: DEFAULT_CAPACITY, snapshots: Vec::new() };
        assert(window@.snapshots =~= Seq::<SnapshotView>::empty());
        window
    }

    /// Adds `snapshot` at the end, and discards the oldest snapshot where the
    /// window was full.
    pub fn append(&mut self, snapshot: Snapshot)
        ensures
            final(self)@.capacity == old(self)@.capacity,
            final(self)@.snapshots == after_append(
                old(self)@.snapshots,
                old(self)@.capacity,
                snapshot@,
            ),
    {
        proof {
            use_type_invariant(&*self);
        }
        let mut held: Vec<Snapshot> = Vec::new();
        core::mem::swap(&mut self.snapshots, &mut held);
        if held.len() >= self.capacity {
            held.remove(0);
        }
        held.push(snapshot);
        core::mem::swap(&mut self.snapshots, &mut held);
        assert(self@.snapshots =~= after_append(
            old(self)@.snapshots,
            old(self)@.capacity,
            snapshot@,
        ));
    }

    /// The window as it is transmitted: one message per snapshot, oldest
    /// first. The window stays as it is.
    pub fn to_messages(&self) -> (messages: Vec<Message>)
        ensures
            message_views(messages@) == transmitted(self@.snapshots),
    {
        let mut messages: Vec<Message> = Vec::new();
        let mut i: usize = 0;
        while i < self.snapshots.len()
            invariant
                i <= self.snapshots.len(),
                messages.len() == i,
                forall|j: int|
                    0 <= j < i ==> (#[trigger] messages[j])@ == (MessageView {
                        role: author_role(),
                        content: self.snapshots[j].text@,
                    }),
            decreases self.snapshots.len() - i,
        {
            let content = self.snapshots[i].text.clone();
            messages.push(Message { role: "user".to_owned(), content });
            i += 1;
        }
        assert(message_views(messages@) =~= transmitted(self@.snapshots));
        messages
    }

    /// How many snapshots the window holds: never more than its capacity.
    pub fn len(&self) -> (n: usize)
        ensures
            n == self@.snapshots.len(),
            n <= self@.capacity,
    {
        proof {
            use_type_invariant(self);
        }
        self.snapshots.len()
    }

    /// Whether the window holds nothing.
    pub fn is_empty(&self) -> (empty: bool)
        ensures
            empty == (self@.snapshots.len() == 0),
    {
        self.snapshots.len() == 0
    }

    /// How many snapshots the window can hold: at least one.
    pub fn capacity(&self) -> (capacity: usize)
        ensures
            capacity == self@.capacity,
            capacity >= 1,
    {
        proof {
            use_type_invariant(self);
        }
        self.capacity
    }
}

/// After any number of snapshots were appended to an empty window, the window
/// holds as many of them as its capacity allows, and these are the ones that
/// were appended last, in the order in which they were appended.
pub proof fn lemma_window_keeps_most_recent(capacity: nat, appended: Seq<SnapshotView>)
    requires
        capacity >= 1,
    ensures
        ({
            let held = after_appending_all(Seq::empty(), capacity, appended);
            &&& held == most_recent(appended, capacity)
            &&& held.len() == if appended.len() <= capacity {
                appended.len()
            } else {
                capacity
            }
            &&& forall|i: int|
                0 <= i < held.len() ==> #[trigger] held[i] == appended[appended.len() - held.len()
                    + i]
        }),
    decreases appended.len(),
{
    if appended.len() > 0 {
        let earlier = appended.drop_last();
        lemma_window_keeps_most_recent(capacity, earlier);
        assert(earlier.push(appended.last()) =~= appended);
        assert(most_recent(most_recent(earlier, capacity).push(appended.last()), capacity)
            =~= most_recent(appended, capacity));
    } else {
        assert(most_recent(appended, capacity) =~= Seq::<SnapshotView>::empty());
    }
}

} // verus!
