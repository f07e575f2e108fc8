//! The monitor: the loop that polls the text, detects a change, appends it to
//! the conversation window, asks for a critique and reports how that went,
//! until it is told to stop.
//!
//! The loop is written as a state machine. A [`MonitorSession`] is the state;
//! [`MonitorSession::step`] takes what has just happened, and whether a stop
//! was asked for, and answers with what the observer is to be told and what is
//! to be done next. The program around it does the reading, the waiting and
//! the exchange with the service, one at a time, and reports each back as the
//! next event. So at most one request is ever under way, and critiques reach
//! the observer in the order of the versions they are about.
//!
//! A stop is honoured before a read, before a request is issued, and after a
//! request's result has been reported. A request that is under way is never
//! broken off: its result is reported first. Reporting needs nothing from
//! outside, so it is part of the step that takes the result, and a session is
//! never found in the middle of it.
//!
//! A session that is given no text to begin with takes the first text that
//! it reads as the one to hold later reads against: the text as it is found
//! is no change and brings no request. The first request comes with the first
//! change after that.
//!
//! A version number is used up by a critique that was delivered, and by
//! nothing else. A request that failed leaves the counter where it was, and is
//! not tried again: the next change of the text brings the next request.

use crate::change::{differs, has_changed};
use crate::completion::{
    credential_usable, outcome_view, CompletionError, CompletionErrorView, ErrorKind,
};
use crate::window::{
    after_append, message_views, transmitted, ConversationWindow, Message, MessageView, Snapshot,
    SnapshotView, WindowView, ZeroCapacity, DEFAULT_CAPACITY,
};
use vstd::prelude::*;

verus! {

/// How long to wait, in milliseconds, before the text is read again after it
/// was found unchanged.
pub const POLL_INTERVAL_MILLIS: u64 = 100;

/// How long to wait, in milliseconds, before the text is read again after it
/// could not be read.
pub const READ_BACKOFF_MILLIS: u64 = 100;

/// The number of the first version.
pub const FIRST_VERSION: u64 = 1;

/// Where a session stands.
#[derive(Clone, Copy, Debug, PartialEq, Eq, Structural)]
pub enum Phase {
    /// Made, and not yet started.
    Idle,
    /// Reading the text, or waiting to read it again.
    Polling,
    /// A request is under way.
    Requesting,
    /// Over. A stopped session stays stopped.
    Stopped,
}

/// What has just happened, as the program around the session reports it.
#[derive(Debug, PartialEq, Eq)]
pub enum Event {
    /// Monitoring is to begin, with this credential if there is one.
    Start { credential: Option<String> },
    /// The wait that was asked for is over.
    WaitElapsed,
    /// The text was read, and this is all of it.
    ContentRead { text: String },
    /// The text could not be read.
    ReadFailed { message: String },
    /// The request that was asked for has ended, with a critique or a failure.
    Completed { outcome: Result<String, CompletionError> },
}

/// What an [`Event`] stands for.
pub ghost enum EventView {
    Start { credential: Option<Seq<char>> },
    WaitElapsed,
    ContentRead { text: Seq<char> },
    ReadFailed { message: Seq<char> },
    Completed { outcome: Result<Seq<char>, CompletionErrorView> },
}

impl View for Event {
    type V = EventView;

    open spec fn view(&self) -> EventView {
        match *self {
            Event::Start { credential } => EventView::Start {
                credential: match credential {
                    Some(key) => Some(key@),
                    None => None,
                },
            },
            Event::WaitElapsed => EventView::WaitElapsed,
            Event::ContentRead { text } => EventView::ContentRead { text: text@ },
            Event::ReadFailed { message } => EventView::ReadFailed { message: message@ },
            Event::Completed { outcome } => EventView::Completed { outcome: outcome_view(outcome) },
        }
    }
}

/// A critique, with the number of the version that it is about.
#[derive(Clone, Debug, PartialEq, Eq)]
pub struct FeedbackResult {
    pub version: u64,
    pub text: String,
}

/// What the observer is told.
#[derive(Clone, Debug, PartialEq, Eq)]
pub enum Notification {
    /// A request has been issued.
    LoadingStarted,
    /// The request has ended.
    LoadingFinished,
    /// A critique has come.
    FeedbackReceived(FeedbackResult),
    /// Something failed. The session goes on unless it says that it stopped.
    Error { kind: ErrorKind, message: String },
    /// Monitoring has stopped.
    Stopped,
}

/// What a [`Notification`] stands for.
pub ghost enum NotificationView {
    LoadingStarted,
    LoadingFinished,
    FeedbackReceived { version: nat, text: Seq<char> },
    Error { kind: ErrorKind, message: Seq<char> },
    Stopped,
}

impl View for Notification {
    type V = NotificationView;

    open spec fn view(&self) -> NotificationView {
        match *self {
            Notification::LoadingStarted => NotificationView::LoadingStarted,
            Notification::LoadingFinished => NotificationView::LoadingFinished,
            Notification::FeedbackReceived(feedback) => NotificationView::FeedbackReceived {
                version: feedback.version as nat,
                text: feedback.text@,
            },
            Notification::Error { kind, message } => NotificationView::Error {
                kind,
                message: message@,
            },
            Notification::Stopped => NotificationView::Stopped,
        }
    }
}

/// What the program around the session is to do next.
#[derive(Clone, Debug, PartialEq, Eq)]
pub enum Action {
    /// Read the text, and report `ContentRead` or `ReadFailed`.
    ReadContent,
    /// Wait this long, and report `WaitElapsed`.
    Wait { millis: u64 },
    /// Send these messages to the completion service, and report `Completed`.
    Complete { messages: Vec<Message> },
    /// End the loop: the session has stopped.
    Halt,
    /// Nothing new: the event did not belong to where the session stands, and
    /// what was asked for before is still asked for.
    Ignored,
}

/// What an [`Action`] stands for.
pub ghost enum ActionView {
    ReadContent,
    Wait { millis: nat },
    Complete { messages: Seq<MessageView> },
    Halt,
    Ignored,
}

impl View for Action {
    type V = ActionView;

    open spec fn view(&self) -> ActionView {
        match *self {
            Action::ReadContent => ActionView::ReadContent,
            Action::Wait { millis } => ActionView::Wait { millis: millis as nat },
            Action::Complete { messages } => ActionView::Complete {
                messages: message_views(messages@),
            },
            Action::Halt => ActionView::Halt,
            Action::Ignored => ActionView::Ignored,
        }
    }
}

/// The views of a sequence of notifications.
pub open spec fn notification_views(notifications: Seq<Notification>) -> Seq<NotificationView> {
    notifications.map_values(|n: Notification| n@)
}

/// The answer to one event: what to tell the observer, in this order, and
/// what to do next.
#[derive(Clone, Debug, PartialEq, Eq)]
pub struct Step {
    pub notifications: Vec<Notification>,
    pub action: Action,
}

/// What a [`Step`] stands for.
pub ghost struct StepView {
    pub notifications: Seq<NotificationView>,
    pub action: ActionView,
}

impl View for Step {
    type V = StepView;

    open spec fn view(&self) -> StepView {
        StepView { notifications: notification_views(self.notifications@), action: self.action@ }
    }
}

/// What a [`MonitorSession`] stands for.
pub ghost struct SessionView {
    pub phase: Phase,
    /// The text that later reads are held against: the first text that was
    /// read, or the one that was last found changed. `None` until a text was
    /// read or given.
    pub last_content: Option<Seq<char>>,
    pub window: WindowView,
    /// The number that the next critique will carry.
    pub next_version: nat,
}

/// A session after an event, and the answer to that event.
pub ghost struct Transition {
    pub state: SessionView,
    pub step: StepView,
}

/// The session stops: the observer is told `told` and then that monitoring
/// has stopped, and the loop is to end.
pub open spec fn stopping(session: SessionView, told: Seq<NotificationView>) -> Transition {
    Transition {
        state: SessionView { phase: Phase::Stopped, ..session },
        step: StepView {
            notifications: told.push(NotificationView::Stopped),
            action: ActionView::Halt,
        },
    }
}

/// The event does not belong to where the session stands: nothing changes.
pub open spec fn ignoring(session: SessionView) -> Transition {
    Transition {
        state: session,
        step: StepView { notifications: Seq::empty(), action: ActionView::Ignored },
    }
}

/// An idle session is started. Without a usable credential it reports an
/// `AuthError` and stops, and nothing is ever read.
pub open spec fn starting(
    session: SessionView,
    credential: Option<Seq<char>>,
    cancelled: bool,
) -> Transition {
    if !credential_usable(credential) {
        stopping(
            session,
            seq![
                NotificationView::Error {
                    kind: ErrorKind::AuthError,
                    message: CompletionErrorView::AuthError.message(),
                },
            ],
        )
    } else if cancelled {
        stopping(session, Seq::empty())
    } else {
        Transition {
            state: SessionView { phase: Phase::Polling, ..session },
            step: StepView { notifications: Seq::empty(), action: ActionView::ReadContent },
        }
    }
}

/// A polling session has read `text`. Where it had no text to hold it
/// against, this one becomes that text and the session waits: the text as it
/// is found at the start is no change. Where `text` is no change from the
/// last one seen, the session waits. Where it is one, the text becomes the
/// last one seen, a snapshot of it with the next version number joins the
/// window, and the window is sent.
pub open spec fn observing(session: SessionView, text: Seq<char>) -> Transition {
    if session.last_content is None {
        Transition {
            state: SessionView { last_content: Some(text), ..session },
            step: StepView {
                notifications: Seq::empty(),
                action: ActionView::Wait { millis: POLL_INTERVAL_MILLIS as nat },
            },
        }
    } else if !differs(session.last_content->0, text) {
        Transition {
            state: session,
            step: StepView {
                notifications: Seq::empty(),
                action: ActionView::Wait { millis: POLL_INTERVAL_MILLIS as nat },
            },
        }
    } else {
        let held = after_append(
            session.window.snapshots,
            session.window.capacity,
            SnapshotView { version: session.next_version, text },
        );
        Transition {
            state: SessionView {
                phase: Phase::Requesting,
                last_content: Some(text),
                window: WindowView { capacity: session.window.capacity, snapshots: held },
                next_version: session.next_version,
            },
            step: StepView {
                notifications: seq![NotificationView::LoadingStarted],
                action: ActionView::Complete { messages: transmitted(held) },
            },
        }
    }
}

/// What the observer is told when a request has ended: the critique under the
/// session's version number, or the failure.
pub open spec fn report(session: SessionView, outcome: Result<Seq<char>, CompletionErrorView>) -> Seq<
    NotificationView,
> {
    match outcome {
        Ok(text) => seq![
            NotificationView::LoadingFinished,
            NotificationView::FeedbackReceived { version: session.next_version, text },
        ],
        Err(failure) => seq![
            NotificationView::Error { kind: failure.kind(), message: failure.message() },
            NotificationView::LoadingFinished,
        ],
    }
}

/// A request has ended. Its result is reported; a critique uses up the
/// version number, a failure does not. Then the session stops if it was told
/// to, and reads the text again if not.
pub open spec fn reporting(
    session: SessionView,
    outcome: Result<Seq<char>, CompletionErrorView>,
    cancelled: bool,
) -> Transition {
    let counted = SessionView {
        next_version: if outcome is Ok {
            session.next_version + 1
        } else {
            session.next_version
        },
        ..session
    };
    if cancelled {
        stopping(counted, report(session, outcome))
    } else {
        Transition {
            state: SessionView { phase: Phase::Polling, ..counted },
            step: StepView {
                notifications: report(session, outcome),
                action: ActionView::ReadContent,
            },
        }
    }
}

/// What a session does with an event, `cancelled` saying whether a stop has
/// been asked for.
pub open spec fn transition(session: SessionView, event: EventView, cancelled: bool) -> Transition {
    match session.phase {
        Phase::Stopped => Transition {
            state: session,
            step: StepView { notifications: Seq::empty(), action: ActionView::Halt },
        },
        Phase::Idle => match event {
            EventView::Start { credential } => starting(session, credential, cancelled),
            _ => ignoring(session),
        },
        Phase::Polling => if cancelled {
            stopping(session, Seq::empty())
        } else {
            match event {
                EventView::WaitElapsed => Transition {
                    state: session,
                    step: StepView {
                        notifications: Seq::empty(),
                        action: ActionView::ReadContent,
                    },
                },
                EventView::ContentRead { text } => observing(session, text),
                EventView::ReadFailed { message } => Transition {
                    state: session,
                    step: StepView {
                        notifications: seq![
                            NotificationView::Error { kind: ErrorKind::IoError, message },
                        ],
                        action: ActionView::Wait { millis: READ_BACKOFF_MILLIS as nat },
                    },
                },
                _ => ignoring(session),
            }
        },
        Phase::Requesting => match event {
            EventView::Completed { outcome } => reporting(session, outcome, cancelled),
            _ => ignoring(session),
        },
    }
}

/// The state of one monitor: where it stands, the text that reads are held
/// against, the conversation window, and the number of the next version.
#[derive(Debug)]
pub struct MonitorSession {
    phase: Phase,
    last_content: Option<String>,
    window: ConversationWindow,
    next_version: u64,
}

impl View for MonitorSession {
    type V = SessionView;

    closed spec fn view(&self) -> SessionView {
        SessionView {
            phase: self.phase,
            last_content: text_view(self.last_content),
            window: self.window@,
            next_version: self.next_version as nat,
        }
    }
}

/// The characters of a text, where there is one.
pub open spec fn text_view(text: Option<String>) -> Option<Seq<char>> {
    match text {
        Some(text) => Some(text@),
        None => None,
    }
}

/// A session that has not been started: its window is empty, `baseline` is
/// the text it takes as seen, if it is given one, and the first critique will
/// carry the first version number.
pub open spec fn fresh_session(capacity: nat, baseline: Option<Seq<char>>) -> SessionView {
    SessionView {
        phase: Phase::Idle,
        last_content: baseline,
        window: WindowView { capacity, snapshots: Seq::empty() },
        next_version: FIRST_VERSION as nat,
    }
}

impl MonitorSession {
    /// An idle session with a window of the given capacity. Without a
    /// `baseline`, the first text that the session reads becomes the text
    /// that later reads are held against, and brings no request. With one,
    /// the baseline is that text from the start: this is for a caller that is
    /// handed texts and wants a critique of the first one too, for which it
    /// gives the empty text. A capacity of zero is an error.
    pub fn new(capacity: usize, baseline: Option<String>) -> (made: Result<
        MonitorSession,
        ZeroCapacity,
    >)
        ensures
            capacity == 0 <==> made is Err,
            made matches Ok(session) ==> session@ == fresh_session(
                capacity as nat,
                text_view(baseline),
            ),
    {
        match ConversationWindow::new(capacity) {
            Ok(window) => Ok(
                MonitorSession {
                    phase: Phase::Idle,
                    last_content: baseline,
                    window,
                    next_version: FIRST_VERSION,
                },
            ),
            Err(refused) => Err(refused),
        }
    }

    /// An idle session with a window of the default capacity, which has no
    /// baseline: the text as it is when the session first reads it is no
    /// change, and the first change after that brings the first request.
    pub fn with_defaults() -> (session: MonitorSession)
        ensures
            session@ == fresh_session(DEFAULT_CAPACITY as nat, None),
    {
        MonitorSession {
            phase: Phase::Idle,
            last_content: None,
            window: ConversationWindow::with_default_capacity(),
            next_version: FIRST_VERSION,
        }
    }

    /// Where the session stands.
    pub fn phase(&self) -> (phase: Phase)
        ensures
            phase == self@.phase,
    {
        self.phase
    }

    /// Whether the session is over.
    pub fn is_stopped(&self) -> (stopped: bool)
        ensures
            stopped == (self@.phase == Phase::Stopped),
    {
        match self.phase {
            Phase::Stopped => true,
            _ => false,
        }
    }

    /// The number that the next critique will carry.
    pub fn next_version(&self) -> (version: u64)
        ensures
            version == self@.next_version,
    {
        self.next_version
    }

    /// The text that reads are held against, if there is one yet.
    pub fn last_content(&self) -> (text: Option<&str>)
        ensures
            text is Some <==> self@.last_content is Some,
            text matches Some(held) ==> self@.last_content == Some(held@),
    {
        match &self.last_content {
            Some(held) => Some(held.as_str()),
            None => None,
        }
    }

    /// The conversation window.
    pub fn window(&self) -> (window: &ConversationWindow)
        ensures
            window@ == self@.window,
    {
        &self.window
    }

    /// Takes what has just happened, and whether a stop has been asked for,
    /// and answers with what the observer is to be told and what is to be
    /// done next. The session moves as [`transition`] says.
    pub fn step(&mut self, event: Event, cancelled: bool) -> (taken: Step)
        requires
            old(self)@.next_version < u64::MAX,
        ensures
            final(self)@ == transition(old(self)@, event@, cancelled).state,
            taken@ == transition(old(self)@, event@, cancelled).step,
    {
        match self.phase {
            Phase::Stopped => {
                let taken = Step { notifications: Vec::new(), action: Action::Halt };
                assert(taken@.notifications =~= Seq::<NotificationView>::empty());
                taken
            },
            Phase::Idle => match event {
                Event::Start { credential } => self.start(credential, cancelled),
                _ => ignore(),
            },
            Phase::Polling => {
                if cancelled {
                    let told: Vec<Notification> = Vec::new();
                    assert(notification_views(told@) =~= Seq::<NotificationView>::empty());
                    self.stop(told)
                } else {
                    match event {
                        Event::WaitElapsed => {
                            let taken = Step {
                                notifications: Vec::new(),
                                action: Action::ReadContent,
                            };
                            assert(taken@.notifications =~= Seq::<NotificationView>::empty());
                                        taken
                        },
                        Event::ContentRead { text } => self.observe(text),
                        Event::ReadFailed { message } => {
                            let mut notifications: Vec<Notification> = Vec::new();
                            notifications.push(
                                Notification::Error { kind: ErrorKind::IoError, message },
                            );
                            let taken = Step {
                                notifications,
                                action: Action::Wait { millis: READ_BACKOFF_MILLIS },
                            };
                            assert(taken@.notifications =~= seq![
                                NotificationView::Error {
                                    kind: ErrorKind::IoError,
                                    message: message@,
                                },
                            ]);
                                        taken
                        },
                        _ => ignore(),
                    }
                }
            },
            Phase::Requesting => match event {
                Event::Completed { outcome } => self.report(outcome, cancelled),
                _ => ignore(),
            },
        }
    }

    /// Stops the session, telling the observer `told` and then that
    /// monitoring has stopped.
    fn stop(&mut self, told: Vec<Notification>) -> (taken: Step)
        ensures
            final(self)@ == stopping(old(self)@, notification_views(told@)).state,
            taken@ == stopping(old(self)@, notification_views(told@)).step,
    {
        let mut notifications = told;
        notifications.push(Notification::Stopped);
        self.phase = Phase::Stopped;
        let taken = Step { notifications, action: Action::Halt };
        assert(taken@.notifications =~= notification_views(told@).push(NotificationView::Stopped));
        taken
    }

    /// Starts an idle session.
    fn start(&mut self, credential: Option<String>, cancelled: bool) -> (taken: Step)
        ensures
            final(self)@ == starting(
                old(self)@,
                (Event::Start { credential })@->Start_credential,
                cancelled,
            ).state,
            taken@ == starting(
                old(self)@,
                (Event::Start { credential })@->Start_credential,
                cancelled,
            ).step,
    {
        let usable = match &credential {
            Some(key) => !crate::change::is_blank(key.as_str()),
            None => false,
        };
        if !usable {
            let mut told: Vec<Notification> = Vec::new();
            told.push(
                Notification::Error {
                    kind: ErrorKind::AuthError,
                    message: CompletionError::AuthError.message(),
                },
            );
            assert(notification_views(told@) =~= seq![
                NotificationView::Error {
                    kind: ErrorKind::AuthError,
                    message: CompletionErrorView::AuthError.message(),
                },
            ]);
            self.stop(told)
        } else if cancelled {
            let told: Vec<Notification> = Vec::new();
            assert(notification_views(told@) =~= Seq::<NotificationView>::empty());
            self.stop(told)
        } else {
            self.phase = Phase::Polling;
            let taken = Step { notifications: Vec::new(), action: Action::ReadContent };
            assert(taken@.notifications =~= Seq::<NotificationView>::empty());
            taken
        }
    }

    /// Holds a text that was read against the last one seen.
    fn observe(&mut self, text: String) -> (taken: Step)
        ensures
            final(self)@ == observing(old(self)@, text@).state,
            taken@ == observing(old(self)@, text@).step,
    {
        let changed = match &self.last_content {
            Some(held) => Some(has_changed(held.as_str(), text.as_str())),
            None => None,
        };
        match changed {
            Some(true) => {
                let snapshot = Snapshot { version: self.next_version, text: text.clone() };
                self.window.append(snapshot);
                self.last_content = Some(text);
                self.phase = Phase::Requesting;
                let messages = self.window.to_messages();
                let mut notifications: Vec<Notification> = Vec::new();
                notifications.push(Notification::LoadingStarted);
                let taken = Step { notifications, action: Action::Complete { messages } };
                assert(taken@.notifications =~= seq![NotificationView::LoadingStarted]);
                taken
            },
            Some(false) => wait_for_next_read(),
            None => {
                self.last_content = Some(text);
                wait_for_next_read()
            },
        }
    }

    /// Reports how a request has ended, and goes on or stops.
    fn report(&mut self, outcome: Result<String, CompletionError>, cancelled: bool) -> (taken: Step)
        requires
            old(self)@.next_version < u64::MAX,
        ensures
            final(self)@ == reporting(old(self)@, outcome_view(outcome), cancelled).state,
            taken@ == reporting(old(self)@, outcome_view(outcome), cancelled).step,
    {
        let mut told: Vec<Notification> = Vec::new();
        match outcome {
            Ok(text) => {
                told.push(Notification::LoadingFinished);
                told.push(
                    Notification::FeedbackReceived(
                        FeedbackResult { version: self.next_version, text },
                    ),
                );
                self.next_version = self.next_version + 1;
            },
            Err(failure) => {
                told.push(
                    Notification::Error { kind: failure.kind(), message: failure.message() },
                );
                told.push(Notification::LoadingFinished);
            },
        }
        assert(notification_views(told@) =~= report(old(self)@, outcome_view(outcome)));
        if cancelled {
            self.stop(told)
        } else {
            self.phase = Phase::Polling;
            Step { notifications: told, action: Action::ReadContent }
        }
    }
}

/// The answer to a read that brought no change.
fn wait_for_next_read() -> (taken: Step)
    ensures
        taken@ == (StepView {
            notifications: Seq::empty(),
            action: ActionView::Wait { millis: POLL_INTERVAL_MILLIS as nat },
        }),
{
    let taken = Step {
        notifications: Vec::new(),
        action: Action::Wait { millis: POLL_INTERVAL_MILLIS },
    };
    assert(taken@.notifications =~= Seq::<NotificationView>::empty());
    taken
}

/// The answer to an event that does not belong to where the session stands.
fn ignore() -> (taken: Step)
    ensures
        taken@ == (StepView { notifications: Seq::empty(), action: ActionView::Ignored }),
{
    let taken = Step { notifications: Vec::new(), action: Action::Ignored };
    assert(taken@.notifications =~= Seq::<NotificationView>::empty());
    taken
}

} // verus!
