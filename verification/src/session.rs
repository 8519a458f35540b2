use vstd::prelude::*;
use crate::command::{Command, Direction, Query};
use crate::endpoint::{EndpointDescriptor, EndpointView};
use crate::error::SessionError;
use crate::status::{assembled, SnapshotView, StatusReply, StatusReplyView, StatusSnapshot};

verus! {

/// How long the device is given, after the last query of a batch has been
/// written, before its reply is read: in milliseconds. The wait is the only
/// synchronisation there is; the device acknowledges nothing.
pub const SETTLING_INTERVAL_MS: u64 = 100;

/// Where a session stands.
#[derive(Clone, Copy, Debug, PartialEq, Eq, Structural)]
pub enum SessionState {
    /// No endpoint has been asked for yet, or the last one could not be opened.
    Disconnected,
    /// An endpoint is being opened.
    Connecting,
    /// The endpoint is open.
    Connected,
    /// The connection has been released, for good.
    Closed,
}

/// The outside work whose outcome a session is waiting for.
#[derive(Clone, Copy, Debug, PartialEq, Eq, Structural)]
pub enum Pending {
    /// None: the session is idle.
    Nothing,
    /// The opening of the endpoint.
    Open,
    /// The write of this command's line.
    Write(Command),
    /// The settling interval.
    Settle,
    /// The read of what the device has sent.
    Drain,
}

/// What happens to a session: a caller asks for an operation, or outside
/// work that the session asked for has ended.
#[derive(Debug, PartialEq, Eq)]
pub enum Event {
    /// The caller asks to connect to an endpoint.
    Connect(EndpointDescriptor),
    /// The caller asks for a fresh status snapshot.
    RefreshStatus,
    /// The caller asks for one jog step.
    Jog(Direction),
    /// The caller asks to close the session.
    Close,
    /// The endpoint was opened.
    Opened,
    /// The endpoint could not be opened.
    OpenFailed,
    /// The line was written.
    Written,
    /// The transport refused the line.
    WriteFailed,
    /// The settling interval has passed.
    Settled,
    /// The device's reply was read, with this content.
    Drained(StatusReply),
}

/// What an event holds.
pub enum EventView {
    Connect(EndpointView),
    RefreshStatus,
    Jog(Direction),
    Close,
    Opened,
    OpenFailed,
    Written,
    WriteFailed,
    Settled,
    Drained(StatusReplyView),
}

impl View for Event {
    type V = EventView;

    open spec fn view(&self) -> EventView {
        match *self {
            Event::Connect(descriptor) => EventView::Connect(descriptor@),
            Event::RefreshStatus => EventView::RefreshStatus,
            Event::Jog(direction) => EventView::Jog(direction),
            Event::Close => EventView::Close,
            Event::Opened => EventView::Opened,
            Event::OpenFailed => EventView::OpenFailed,
            Event::Written => EventView::Written,
            Event::WriteFailed => EventView::WriteFailed,
            Event::Settled => EventView::Settled,
            Event::Drained(reply) => EventView::Drained(reply@),
        }
    }
}

/// What a session answers to an event: outside work for the caller to do and
/// report on, or the end of the operation.
#[derive(Debug, PartialEq, Eq)]
pub enum Action {
    /// Open this endpoint, then report `Opened` or `OpenFailed`.
    Open(EndpointDescriptor),
    /// Hand this line to the transport in one write, then report `Written`
    /// or `WriteFailed`.
    Write(String),
    /// Wait this many milliseconds, then report `Settled`.
    Settle(u64),
    /// Read whatever the device has sent, then report `Drained`.
    Drain,
    /// Release the connection. The operation has ended well.
    Release,
    /// Nothing is left to do. The operation has ended well.
    Done,
    /// The refresh has ended well, with this snapshot.
    Report(StatusSnapshot),
    /// The operation has ended with this error.
    Fail(SessionError),
}

/// What an action holds.
pub enum ActionView {
    Open(EndpointView),
    Write(Seq<char>),
    Settle(u64),
    Drain,
    Release,
    Done,
    Report(SnapshotView),
    Fail(SessionError),
}

impl View for Action {
    type V = ActionView;

    open spec fn view(&self) -> ActionView {
        match *self {
            Action::Open(descriptor) => ActionView::Open(descriptor@),
            Action::Write(line) => ActionView::Write(line@),
            Action::Settle(milliseconds) => ActionView::Settle(milliseconds),
            Action::Drain => ActionView::Drain,
            Action::Release => ActionView::Release,
            Action::Done => ActionView::Done,
            Action::Report(snapshot) => ActionView::Report(snapshot@),
            Action::Fail(error) => ActionView::Fail(error),
        }
    }
}

/// What a session holds.
pub struct SessionView {
    pub state: SessionState,
    pub pending: Pending,
    /// The endpoint whose connection the session owns or is opening.
    pub endpoint: Option<EndpointView>,
    /// The snapshot of the last refresh that succeeded.
    pub snapshot: Option<SnapshotView>,
}

/// A session's next state and its answer.
pub struct Step {
    pub next: SessionView,
    pub action: ActionView,
}

impl SessionView {
    /// The session before anything has happened to it.
    pub open spec fn initial() -> SessionView {
        SessionView {
            state: SessionState::Disconnected,
            pending: Pending::Nothing,
            endpoint: None,
            snapshot: None,
        }
    }

    /// What holds of every session: it owns an endpoint exactly while it is
    /// connecting or connected; it waits for the opening exactly while it is
    /// connecting, and for nothing while it is disconnected or closed; and a
    /// snapshot exists only once a connection has, and is the connected
    /// endpoint's own.
    pub open spec fn wf(self) -> bool {
        match self.state {
            SessionState::Disconnected => {
                &&& self.pending == Pending::Nothing
                &&& self.endpoint is None
                &&& self.snapshot is None
            },
            SessionState::Connecting => {
                &&& self.pending == Pending::Open
                &&& self.endpoint is Some
                &&& self.snapshot is None
            },
            SessionState::Connected => {
                &&& self.pending != Pending::Open
                &&& self.endpoint is Some
                &&& self.snapshot is Some ==> self.snapshot->0.id == self.endpoint->0.name
            },
            SessionState::Closed => {
                &&& self.pending == Pending::Nothing
                &&& self.endpoint is None
            },
        }
    }

    /// Whether the session is connected and waits for nothing: the only
    /// condition in which it takes a jog or a refresh.
    pub open spec fn idle(self) -> bool {
        self.state == SessionState::Connected && self.pending == Pending::Nothing
    }

    /// The session left as it is, answering with an error.
    pub open spec fn refuse(self, error: SessionError) -> Step {
        Step { next: self, action: ActionView::Fail(error) }
    }

    /// The answer to a report that the session is not waiting for: it changes
    /// nothing, and says `Closed` where the session is closed and
    /// `NotConnected` elsewhere.
    pub open spec fn stray(self) -> Step {
        if self.state == SessionState::Closed {
            self.refuse(SessionError::Closed)
        } else {
            self.refuse(SessionError::NotConnected)
        }
    }

    /// The session waiting for `pending`, all else unchanged.
    pub open spec fn waiting_for(self, pending: Pending) -> SessionView {
        SessionView { pending, ..self }
    }

    /// The answer that hands `command` to the transport: its line is to be
    /// written, in a write of its own, and the session waits for the outcome.
    pub open spec fn write(self, command: Command) -> Step {
        Step {
            next: self.waiting_for(Pending::Write(command)),
            action: ActionView::Write(command.wire()),
        }
    }

    /// The whole behaviour of a session: its next state and its answer, for
    /// every state and every event.
    pub open spec fn step(self, event: EventView) -> Step {
        match event {
            EventView::Connect(descriptor) => match self.state {
                SessionState::Disconnected => Step {
                    next: SessionView {
                        state: SessionState::Connecting,
                        pending: Pending::Open,
                        endpoint: Some(descriptor),
                        snapshot: self.snapshot,
                    },
                    action: ActionView::Open(descriptor),
                },
                SessionState::Connecting | SessionState::Connected => self.refuse(
                    SessionError::EndpointUnavailable,
                ),
                SessionState::Closed => self.refuse(SessionError::Closed),
            },
            EventView::RefreshStatus => if self.idle() {
                self.write(Command::Query(Query::ExtendedInfo))
            } else {
                self.refuse(SessionError::NotConnected)
            },
            EventView::Jog(direction) => if self.idle() {
                self.write(Command::Jog(direction))
            } else {
                self.refuse(SessionError::NotConnected)
            },
            EventView::Close => match self.state {
                SessionState::Connecting | SessionState::Connected => Step {
                    next: SessionView {
                        state: SessionState::Closed,
                        pending: Pending::Nothing,
                        endpoint: None,
                        snapshot: self.snapshot,
                    },
                    action: ActionView::Release,
                },
                SessionState::Disconnected => Step {
                    next: SessionView { state: SessionState::Closed, ..self },
                    action: ActionView::Done,
                },
                SessionState::Closed => Step { next: self, action: ActionView::Done },
            },
            EventView::Opened => if self.pending == Pending::Open {
                Step {
                    next: SessionView {
                        state: SessionState::Connected,
                        pending: Pending::Nothing,
                        ..self
                    },
                    action: ActionView::Done,
                }
            } else {
                self.stray()
            },
            EventView::OpenFailed => if self.pending == Pending::Open {
                Step {
                    next: SessionView {
                        state: SessionState::Disconnected,
                        pending: Pending::Nothing,
                        endpoint: None,
                        snapshot: self.snapshot,
                    },
                    action: ActionView::Fail(SessionError::EndpointUnavailable),
                }
            } else {
                self.stray()
            },
            EventView::Written => match self.pending {
                Pending::Write(command) => match command.spec_next() {
                    Some(next) => self.write(next),
                    None => match command {
                        Command::Query(_) => Step {
                            next: self.waiting_for(Pending::Settle),
                            action: ActionView::Settle(SETTLING_INTERVAL_MS),
                        },
                        Command::Jog(_) => Step {
                            next: self.waiting_for(Pending::Nothing),
                            action: ActionView::Done,
                        },
                    },
                },
                _ => self.stray(),
            },
            EventView::WriteFailed => match self.pending {
                Pending::Write(_) => Step {
                    next: self.waiting_for(Pending::Nothing),
                    action: ActionView::Fail(SessionError::WriteFailed),
                },
                _ => self.stray(),
            },
            EventView::Settled => if self.pending == Pending::Settle {
                Step { next: self.waiting_for(Pending::Drain), action: ActionView::Drain }
            } else {
                self.stray()
            },
            EventView::Drained(reply) => if self.pending == Pending::Drain && self.endpoint
                is Some {
                match assembled(self.endpoint->0.name, reply) {
                    Some(snapshot) => Step {
                        next: SessionView {
                            pending: Pending::Nothing,
                            snapshot: Some(snapshot),
                            ..self
                        },
                        action: ActionView::Report(snapshot),
                    },
                    None => Step {
                        next: self.waiting_for(Pending::Nothing),
                        action: ActionView::Fail(SessionError::StatusParseFailed),
                    },
                }
            } else {
                self.stray()
            },
        }
    }
}

/// The one owner of a connection to a machine. It decides what is written to
/// the device and when, and what the device's reply is taken to mean; the
/// caller does the writing, the waiting and the reading, and reports back.
pub struct SessionCoordinator {
    state: SessionState,
    pending: Pending,
    endpoint: Option<EndpointDescriptor>,
    snapshot: Option<StatusSnapshot>,
}

impl View for SessionCoordinator {
    type V = SessionView;

    closed spec fn view(&self) -> SessionView {
        SessionView {
            state: self.state,
            pending: self.pending,
            endpoint: match self.endpoint {
                Some(descriptor) => Some(descriptor@),
                None => None,
            },
            snapshot: match self.snapshot {
                Some(snapshot) => Some(snapshot@),
                None => None,
            },
        }
    }
}

impl SessionCoordinator {
    /// A session that is disconnected and holds no snapshot.
    pub fn new() -> (session: SessionCoordinator)
        ensures
            session@ == SessionView::initial(),
            session@.wf(),
    {
        SessionCoordinator {
            state: SessionState::Disconnected,
            pending: Pending::Nothing,
            endpoint: None,
            snapshot: None,
        }
    }

    /// Takes an event, moves to the next state and answers with what is to
    /// be done: exactly as `SessionView::step` says, for every state and
    /// every event.
    pub fn step(&mut self, event: Event) -> (action: Action)
        ensures
            final(self)@ == old(self)@.step(event@).next,
            action@ == old(self)@.step(event@).action,
            old(self)@.wf() ==> final(self)@.wf(),
    {
        match event {
            Event::Connect(descriptor) => match self.state {
                SessionState::Disconnected => {
                    let request = descriptor.clone();
                    self.state = SessionState::Connecting;
                    self.pending = Pending::Open;
                    self.endpoint = Some(descriptor);
                    Action::Open(request)
                },
                SessionState::Connecting | SessionState::Connected => Action::Fail(
                    SessionError::EndpointUnavailable,
                ),
                SessionState::Closed => Action::Fail(SessionError::Closed),
            },
            Event::RefreshStatus => {
                if self.is_idle() {
                    self.write(Command::Query(Query::ExtendedInfo))
                } else {
                    Action::Fail(SessionError::NotConnected)
                }
            },
            Event::Jog(direction) => {
                if self.is_idle() {
                    self.write(Command::Jog(direction))
                } else {
                    Action::Fail(SessionError::NotConnected)
                }
            },
            Event::Close => match self.state {
                SessionState::Connecting | SessionState::Connected => {
                    self.state = SessionState::Closed;
                    self.pending = Pending::Nothing;
                    self.endpoint = None;
                    Action::Release
                },
                SessionState::Disconnected => {
                    self.state = SessionState::Closed;
                    Action::Done
                },
                SessionState::Closed => Action::Done,
            },
            Event::Opened => match self.pending {
                Pending::Open => {
                    self.state = SessionState::Connected;
                    self.pending = Pending::Nothing;
                    Action::Done
                },
                _ => self.stray(),
            },
            Event::OpenFailed => match self.pending {
                Pending::Open => {
                    self.state = SessionState::Disconnected;
                    self.pending = Pending::Nothing;
                    self.endpoint = None;
                    Action::Fail(SessionError::EndpointUnavailable)
                },
                _ => self.stray(),
            },
            Event::Written => match self.pending {
                Pending::Write(command) => match command.next() {
                    Some(next) => self.write(next),
                    None => match command {
                        Command::Query(_) => {
                            self.pending = Pending::Settle;
                            Action::Settle(SETTLING_INTERVAL_MS)
                        },
                        Command::Jog(_) => {
                            self.pending = Pending::Nothing;
                            Action::Done
                        },
                    },
                },
                _ => self.stray(),
            },
            Event::WriteFailed => match self.pending {
                Pending::Write(_) => {
                    self.pending = Pending::Nothing;
                    Action::Fail(SessionError::WriteFailed)
                },
                _ => self.stray(),
            },
            Event::Settled => match self.pending {
                Pending::Settle => {
                    self.pending = Pending::Drain;
                    Action::Drain
                },
                _ => self.stray(),
            },
            Event::Drained(reply) => match (self.pending, &self.endpoint) {
                (Pending::Drain, Some(endpoint)) => {
                    let made = StatusSnapshot::assemble(endpoint.name(), reply);
                    self.pending = Pending::Nothing;
                    match made {
                        Ok(snapshot) => {
                            let report = snapshot.clone();
                            self.snapshot = Some(snapshot);
                            Action::Report(report)
                        },
                        Err(error) => Action::Fail(error),
                    }
                },
                _ => self.stray(),
            },
        }
    }

    /// Asks to connect to `descriptor`. A disconnected session answers with
    /// the request to open it and is then connecting. A session that has or
    /// is opening a connection refuses with `EndpointUnavailable`, a closed
    /// one with `Closed`; both stay as they are.
    pub fn connect(&mut self, descriptor: EndpointDescriptor) -> (action: Action)
        ensures
            final(self)@ == old(self)@.step(EventView::Connect(descriptor@)).next,
            action@ == old(self)@.step(EventView::Connect(descriptor@)).action,
            action@ is Open <==> old(self)@.state == SessionState::Disconnected,
            action@ is Open ==> action@ == ActionView::Open(descriptor@) && final(self)@.state
                == SessionState::Connecting,
            !(action@ is Open) ==> final(self)@ == old(self)@,
    {
        self.step(Event::Connect(descriptor))
    }

    /// Asks for a fresh snapshot. An idle connected session answers with the
    /// write of the first query of the batch; any other session refuses with
    /// `NotConnected`, stays as it is, and nothing is written.
    pub fn refresh_status(&mut self) -> (action: Action)
        ensures
            final(self)@ == old(self)@.step(EventView::RefreshStatus).next,
            action@ == old(self)@.step(EventView::RefreshStatus).action,
            old(self)@.idle() ==> action@ == ActionView::Write(
                Command::Query(Query::ExtendedInfo).wire(),
            ),
            !old(self)@.idle() ==> action@ == ActionView::Fail(SessionError::NotConnected)
                && final(self)@ == old(self)@,
    {
        self.step(Event::RefreshStatus)
    }

    /// Asks for one jog step. An idle connected session answers with the
    /// write of exactly the one line that jogs in `direction`; any other
    /// session refuses with `NotConnected`, stays as it is, and nothing is
    /// written.
    pub fn jog(&mut self, direction: Direction) -> (action: Action)
        ensures
            final(self)@ == old(self)@.step(EventView::Jog(direction)).next,
            action@ == old(self)@.step(EventView::Jog(direction)).action,
            old(self)@.idle() ==> action@ == ActionView::Write(Command::Jog(direction).wire())
                && final(self)@ == old(self)@.waiting_for(
                Pending::Write(Command::Jog(direction)),
            ),
            !old(self)@.idle() ==> action@ == ActionView::Fail(SessionError::NotConnected)
                && final(self)@ == old(self)@,
    {
        self.step(Event::Jog(direction))
    }

    /// Closes the session, whatever it was doing. A session that has or is
    /// opening a connection answers with the request to release it; one that
    /// has none has nothing to release. Closing a closed session changes
    /// nothing and is no error.
    pub fn close(&mut self) -> (action: Action)
        ensures
            final(self)@ == old(self)@.step(EventView::Close).next,
            action@ == old(self)@.step(EventView::Close).action,
            final(self)@.state == SessionState::Closed,
            final(self)@.snapshot == old(self)@.snapshot,
            action@ == if old(self)@.state == SessionState::Connecting || old(self)@.state
                == SessionState::Connected {
                ActionView::Release
            } else {
                ActionView::Done
            },
            old(self)@.state == SessionState::Closed ==> final(self)@ == old(self)@,
    {
        self.step(Event::Close)
    }

    /// Hands `command` to the transport.
    fn write(&mut self, command: Command) -> (action: Action)
        ensures
            final(self)@ == old(self)@.write(command).next,
            action@ == old(self)@.write(command).action,
    {
        self.pending = Pending::Write(command);
        Action::Write(command.encode())
    }

    /// The answer to a report that the session is not waiting for.
    fn stray(&self) -> (action: Action)
        ensures
            action@ == self@.stray().action,
    {
        match self.state {
            SessionState::Closed => Action::Fail(SessionError::Closed),
            _ => Action::Fail(SessionError::NotConnected),
        }
    }

    fn is_idle(&self) -> (idle: bool)
        ensures
            idle == self@.idle(),
    {
        match (self.state, self.pending) {
            (SessionState::Connected, Pending::Nothing) => true,
            _ => false,
        }
    }

    pub fn state(&self) -> (state: SessionState)
        ensures
            state == self@.state,
    {
        self.state
    }

    pub fn pending(&self) -> (pending: Pending)
        ensures
            pending == self@.pending,
    {
        self.pending
    }

    /// The endpoint whose connection the session owns or is opening.
    pub fn endpoint(&self) -> (endpoint: Option<&EndpointDescriptor>)
        ensures
            match endpoint {
                Some(descriptor) => self@.endpoint == Some(descriptor@),
                None => self@.endpoint is None,
            },
    {
        self.endpoint.as_ref()
    }

    /// The snapshot of the last refresh that succeeded.
    pub fn snapshot(&self) -> (snapshot: Option<&StatusSnapshot>)
        ensures
            match snapshot {
                Some(snapshot) => self@.snapshot == Some(snapshot@),
                None => self@.snapshot is None,
            },
    {
        self.snapshot.as_ref()
    }
}

} // verus!
