//! A data channel: whether it is open, what is read from it, and how far sending has come.
use crate::error::Error;
use crate::status::{wake_waiters, woken};
use arc_swap::ArcSwap;
use std::sync::Arc;
use tokio::sync::Notify;
use vstd::prelude::*;

verus! {

/// Status of a data channel.
#[derive(Debug)]
pub enum DataChannelStreamState {
    /// Underlying data channel is waiting to become open.
    Waiting {
        /// Notifier used when the underlying data channel changes it's state from ready to open.
        ready: Notify,
    },
    /// Underlying data channel is open and ready to send/receive messages.
    Open,
    /// Underlying data channel has already been closed.
    Closed {
        /// Optional error reason, why the channel has been closed.
        reason: Option<Error>,
    },
}

/// What there is to know of a data channel's status.
pub enum ChannelPhase {
    Waiting,
    Open,
    /// Closed, with the reason where the channel failed.
    Closed(Option<Error>),
}

impl View for DataChannelStreamState {
    type V = ChannelPhase;

    open spec fn view(&self) -> ChannelPhase {
        match self {
            DataChannelStreamState::Waiting { .. } => ChannelPhase::Waiting,
            DataChannelStreamState::Open => ChannelPhase::Open,
            DataChannelStreamState::Closed { reason } => ChannelPhase::Closed(*reason),
        }
    }
}

/// A change that keeps the status of a channel that has gone past it.
#[derive(Debug, Clone, Copy, PartialEq, Eq, Structural)]
pub enum ChannelChange {
    /// The underlying channel has opened.
    Open,
    /// The channel is no longer wanted, or the underlying channel has closed.
    Close,
}

/// The status after a change. What is open is not opened again, and what is closed stays as it
/// was closed.
pub open spec fn changed(
    old: DataChannelStreamState,
    change: ChannelChange,
) -> DataChannelStreamState {
    match (change, old@) {
        (_, ChannelPhase::Closed(_)) => old,
        (ChannelChange::Open, _) => DataChannelStreamState::Open,
        (ChannelChange::Close, _) => DataChannelStreamState::Closed { reason: None },
    }
}

/// What happens to a data channel.
pub enum ChannelEvent {
    /// The underlying channel has opened.
    Opened,
    /// The underlying channel has closed.
    Closed,
    /// The underlying channel has failed.
    Failed(Error),
    /// The channel is no longer wanted.
    CloseRequested,
}

/// The status of a channel after something has happened to it. A channel that is closed keeps the
/// reason why it was closed until it is told of a failure.
pub open spec fn after_event(
    old: DataChannelStreamState,
    event: ChannelEvent,
) -> DataChannelStreamState {
    match event {
        ChannelEvent::Opened => changed(old, ChannelChange::Open),
        ChannelEvent::Closed => changed(old, ChannelChange::Close),
        ChannelEvent::Failed(error) => DataChannelStreamState::Closed { reason: Some(error) },
        ChannelEvent::CloseRequested => changed(old, ChannelChange::Close),
    }
}

/// What one who waits for the channel to become open is told, if anything yet.
pub open spec fn ready_result(phase: ChannelPhase) -> Option<Result<bool, Error>> {
    match phase {
        ChannelPhase::Waiting => None,
        ChannelPhase::Open => Some(Ok(true)),
        ChannelPhase::Closed(None) => Some(Ok(false)),
        ChannelPhase::Closed(Some(reason)) => Some(Err(reason)),
    }
}

/// What one who waits to send for the first time is told, if anything yet.
pub open spec fn opening_result(phase: ChannelPhase) -> Option<Result<(), Error>> {
    match phase {
        ChannelPhase::Waiting => None,
        ChannelPhase::Open => Some(Ok(())),
        ChannelPhase::Closed(None) => Some(Ok(())),
        ChannelPhase::Closed(Some(reason)) => Some(Err(reason)),
    }
}

/// What one who reads from the channel is to do.
pub enum Reading {
    /// Take the next of the messages that have come.
    Receive,
    /// Stop: there is nothing more to read.
    End,
    /// Report that the channel has failed.
    Fail(Error),
}

/// What one who reads from a channel is to do in a given status, if it can be told yet.
pub open spec fn reading(phase: ChannelPhase) -> Option<Reading> {
    match phase {
        ChannelPhase::Waiting => None,
        ChannelPhase::Open => Some(Reading::Receive),
        ChannelPhase::Closed(None) => Some(Reading::End),
        ChannelPhase::Closed(Some(reason)) => Some(Reading::Fail(reason)),
    }
}

/// Whether a message that came is kept for those who read, if it can be told yet.
pub open spec fn accepts(phase: ChannelPhase) -> Option<bool> {
    match phase {
        ChannelPhase::Waiting => None,
        ChannelPhase::Open => Some(true),
        ChannelPhase::Closed(_) => Some(false),
    }
}

/// What those who read are to be told when a channel leaves the status `old`: nothing, unless it
/// was open.
pub open spec fn farewell<M>(
    old: ChannelPhase,
    news: Result<Option<M>, Error>,
) -> Option<Result<Option<M>, Error>> {
    if old is Open {
        Some(news)
    } else {
        None
    }
}

impl DataChannelStreamState {
    pub fn waiting() -> (state: Arc<Self>)
        ensures
            state@ == ChannelPhase::Waiting,
    {
        Arc::new(DataChannelStreamState::Waiting { ready: Notify::new() })
    }

    pub fn open() -> (state: Arc<Self>)
        ensures
            *state == DataChannelStreamState::Open,
    {
        Arc::new(DataChannelStreamState::Open)
    }

    pub fn closed_gracefully() -> (state: Arc<Self>)
        ensures
            *state == (DataChannelStreamState::Closed { reason: None }),
    {
        Arc::new(DataChannelStreamState::Closed { reason: None })
    }

    pub fn failed(reason: Error) -> (state: Arc<Self>)
        ensures
            *state == (DataChannelStreamState::Closed { reason: Some(reason) }),
    {
        Arc::new(DataChannelStreamState::Closed { reason: Some(reason) })
    }

    pub fn is_waiting(&self) -> (waiting: bool)
        ensures
            waiting == (self@ is Waiting),
        opens_invariants none
    {
        if let DataChannelStreamState::Waiting { .. } = self {
            true
        } else {
            false
        }
    }

    pub fn is_open(&self) -> (open: bool)
        ensures
            open == (self@ is Open),
        opens_invariants none
    {
        match self {
            DataChannelStreamState::Open => true,
            _ => false,
        }
    }

    pub fn is_closed(&self) -> (closed: bool)
        ensures
            closed == (self@ is Closed),
        opens_invariants none
    {
        if let DataChannelStreamState::Closed { .. } = self {
            true
        } else {
            false
        }
    }

    /// The notifier of those who wait for the channel to become open or be closed.
    pub fn waiters(&self) -> (notify: Option<&Notify>)
        ensures
            notify is Some <==> self@ is Waiting,
            *self matches DataChannelStreamState::Waiting { ready } ==> notify == Some(&ready),
        opens_invariants none
    {
        match self {
            DataChannelStreamState::Waiting { ready } => Some(ready),
            _ => None,
        }
    }

    /// The status that follows `old` after a change.
    pub fn next(old: &Arc<Self>, change: ChannelChange) -> (state: Arc<Self>)
        ensures
            *state == changed(**old, change),
    {
        match (change, &**old) {
            (ChannelChange::Open, DataChannelStreamState::Waiting { .. }) => Self::open(),
            (ChannelChange::Close, DataChannelStreamState::Waiting { .. }) => {
                Self::closed_gracefully()
            },
            (ChannelChange::Close, DataChannelStreamState::Open) => Self::closed_gracefully(),
            (_, _) => old.clone(),
        }
    }

    /// What one who waits for the channel to become open is told, if anything yet.
    pub fn ready(&self) -> (result: Option<Result<bool, Error>>)
        ensures
            result == ready_result(self@),
        opens_invariants none
    {
        match self {
            DataChannelStreamState::Open => Some(Ok(true)),
            DataChannelStreamState::Closed { reason: Some(reason) } => Some(Err(reason.again())),
            DataChannelStreamState::Closed { reason: None } => Some(Ok(false)),
            DataChannelStreamState::Waiting { .. } => None,
        }
    }

    /// What one who waits to send for the first time is told, if anything yet.
    pub fn opening(&self) -> (result: Option<Result<(), Error>>)
        ensures
            result == opening_result(self@),
        opens_invariants none
    {
        match self {
            DataChannelStreamState::Open => Some(Ok(())),
            DataChannelStreamState::Closed { reason: Some(reason) } => Some(Err(reason.again())),
            DataChannelStreamState::Closed { reason: None } => Some(Ok(())),
            DataChannelStreamState::Waiting { .. } => None,
        }
    }

    /// Whether a message that came is kept for those who read, if it can be told yet.
    pub fn accepts(&self) -> (kept: Option<bool>)
        ensures
            kept == accepts(self@),
        opens_invariants none
    {
        if self.is_waiting() {
            None
        } else {
            Some(self.is_open())
        }
    }

    /// What one who reads from the channel is to do, if it can be told yet.
    pub fn reading(&self) -> (step: Option<Reading>)
        ensures
            step == reading(self@),
        opens_invariants none
    {
        match self {
            DataChannelStreamState::Open => Some(Reading::Receive),
            DataChannelStreamState::Closed { reason: Some(reason) } => Some(
                Reading::Fail(reason.again()),
            ),
            DataChannelStreamState::Closed { reason: None } => Some(Reading::End),
            DataChannelStreamState::Waiting { .. } => None,
        }
    }

    /// What those who read are to be told when the channel leaves this status.
    pub fn farewell<M>(&self, news: Result<Option<M>, Error>) -> (told: Option<
        Result<Option<M>, Error>,
    >)
        ensures
            told == farewell(self@, news),
        opens_invariants none
    {
        if self.is_open() {
            Some(news)
        } else {
            None
        }
    }
}

/// What was read from a channel.
pub struct Received<M> {
    /// The message or the failure; none when there is nothing more to read.
    pub item: Option<Result<M, Error>>,
    /// Whether to stop taking messages.
    pub close: bool,
}

/// What is read when `entry` is the next of the messages that have come. There is none once all
/// senders are gone, and an entry without a message ends the channel.
pub open spec fn reception<M>(entry: Option<Result<Option<M>, Error>>) -> Received<M> {
    match entry {
        None => Received { item: None, close: false },
        Some(Ok(None)) => Received { item: None, close: true },
        Some(Ok(Some(message))) => Received { item: Some(Ok(message)), close: false },
        Some(Err(error)) => Received { item: Some(Err(error)), close: false },
    }
}

/// What is read when `entry` is the next of the messages that have come.
pub fn receive<M>(entry: Option<Result<Option<M>, Error>>) -> (received: Received<M>)
    ensures
        received == reception(entry),
{
    match entry {
        None => Received { item: None, close: false },
        Some(Ok(None)) => Received { item: None, close: true },
        Some(Ok(Some(message))) => Received { item: Some(Ok(message)), close: false },
        Some(Err(error)) => Received { item: Some(Err(error)), close: false },
    }
}

/// The mark of a change. Nothing is known of marks, so that two of them are the same only where the
/// changes are.
pub open spec fn change_mark(change: ChannelChange) -> int {
    (arbitrary::<spec_fn(ChannelChange) -> int>())(change)
}

/// The mark of a status that is put in the place of another, whatever that was.
pub open spec fn status_mark(state: DataChannelStreamState) -> int {
    (arbitrary::<spec_fn(DataChannelStreamState) -> int>())(state)
}

/// A place for a status that many tasks read and change at once.
///
/// What a function does to cells shows in the invariants that it may open. Looking at a cell opens
/// none, and changing it opens the one that bears the mark of that change. So a function that
/// promises to open none leaves every cell as it is, and one that promises to open no other than
/// that of a change makes no other change.
#[verifier::external_body]
pub struct ChannelCell(ArcSwap<DataChannelStreamState>);

/// Every status that a cell holds at one time or another, from when it is made on.
pub uninterp spec fn channel_states_of(cell: ChannelCell) -> Set<DataChannelStreamState>;

/// Every change that a cell goes through: what it held, and what was put in its place.
pub uninterp spec fn channel_changes_of(cell: ChannelCell) -> Set<
    (DataChannelStreamState, DataChannelStreamState),
>;

impl ChannelCell {
    /// `ArcSwap::new`: a cell that holds the given status at first.
    #[verifier::external_body]
    fn new(state: Arc<DataChannelStreamState>) -> (cell: Self)
        ensures
            channel_states_of(cell).contains(*state),
    {
        ChannelCell(ArcSwap::new(state))
    }

    /// `ArcSwap::load_full`: a status that the cell holds. Others may change it at any time, so
    /// which of them is not said.
    #[verifier::external_body]
    fn load(&self) -> (state: Arc<DataChannelStreamState>)
        ensures
            channel_states_of(*self).contains(*state),
        opens_invariants none
    {
        self.0.load_full()
    }

    /// `ArcSwap::rcu`: puts the status that follows the one held in its place, in one step, and
    /// hands back the one that was held.
    #[verifier::external_body]
    fn rcu(&self, change: ChannelChange) -> (old: Arc<DataChannelStreamState>)
        ensures
            channel_states_of(*self).contains(*old),
            channel_states_of(*self).contains(changed(*old, change)),
            channel_changes_of(*self).contains((*old, changed(*old, change))),
        opens_invariants [ change_mark(change) ]
    {
        self.0.rcu(move |old| DataChannelStreamState::next(old, change))
    }

    /// `ArcSwap::swap`: puts the given status in the place of the one held, in one step, and hands
    /// that one back.
    #[verifier::external_body]
    fn swap(&self, new_state: DataChannelStreamState) -> (old: Arc<DataChannelStreamState>)
        ensures
            set![*old, new_state].subset_of(channel_states_of(*self)),
            channel_changes_of(*self).contains((*old, new_state)),
        opens_invariants [ status_mark(new_state) ]
    {
        self.0.swap(Arc::new(new_state))
    }
}

/// Status of a data channel, shared by all who deal with it.
pub struct DataChannelStatus {
    cell: ChannelCell,
}

/// All who wait for a channel to leave a status are woken.
pub open spec fn channel_released(state: DataChannelStreamState) -> bool {
    state matches DataChannelStreamState::Waiting { ready } ==> woken(ready)
}

/// Among the changes of a channel that goes through `states` is the one that follows when `event`
/// happens to it in the status `old`, and those who wait for it to leave that status are woken.
pub open spec fn happened(
    states: Set<DataChannelStreamState>,
    changes: Set<(DataChannelStreamState, DataChannelStreamState)>,
    old: DataChannelStreamState,
    event: ChannelEvent,
) -> bool {
    &&& states.contains(old)
    &&& states.contains(after_event(old, event))
    &&& changes.contains((old, after_event(old, event)))
    &&& channel_released(old)
}

impl DataChannelStatus {
    /// Every status that the channel goes through.
    pub closed spec fn states(&self) -> Set<DataChannelStreamState> {
        channel_states_of(self.cell)
    }

    /// Every change of status that the channel goes through.
    pub closed spec fn changes(&self) -> Set<(DataChannelStreamState, DataChannelStreamState)> {
        channel_changes_of(self.cell)
    }

    fn new() -> (status: Self)
        ensures
            exists|state: DataChannelStreamState| #[trigger]
                status.states().contains(state) && state@ is Waiting,
    {
        let state = DataChannelStreamState::waiting();
        let status = DataChannelStatus { cell: ChannelCell::new(state) };
        assert(status.states().contains(*state));
        status
    }

    /// The status at this moment.
    pub fn get(&self) -> (state: Arc<DataChannelStreamState>)
        ensures
            self.states().contains(*state),
        opens_invariants none
    {
        self.cell.load()
    }

    /// Wakes those who wait for a channel to leave the status `old`, now that it has left it.
    fn wake(old: &DataChannelStreamState)
        ensures
            channel_released(*old),
        opens_invariants none
    {
        if let Some(ready) = old.waiters() {
            wake_waiters(ready);
        }
    }

    /// The underlying channel has opened.
    pub fn on_open(&self) -> (old: Arc<DataChannelStreamState>)
        ensures
            happened(self.states(), self.changes(), *old, ChannelEvent::Opened),
        opens_invariants [ change_mark(ChannelChange::Open) ]
    {
        let old = self.cell.rcu(ChannelChange::Open);
        Self::wake(&old);
        old
    }

    /// The channel is no longer wanted.
    pub fn request_close(&self) -> (old: Arc<DataChannelStreamState>)
        ensures
            happened(self.states(), self.changes(), *old, ChannelEvent::CloseRequested),
        opens_invariants [ change_mark(ChannelChange::Close) ]
    {
        let old = self.cell.rcu(ChannelChange::Close);
        Self::wake(&old);
        old
    }

    /// A message has come: whether it is kept for those who read, or the status to wait for a
    /// change of before it can be told.
    pub fn on_message(&self) -> (result: Result<bool, Arc<DataChannelStreamState>>)
        ensures
            match result {
                Ok(kept) => exists|state: DataChannelStreamState| #[trigger]
                    self.states().contains(state) && accepts(state@) == Some(kept),
                Err(state) => self.states().contains(*state) && accepts(state@) is None,
            },
        opens_invariants none
    {
        let state = self.cell.load();
        assert(self.states().contains(*state));
        match state.accepts() {
            Some(kept) => Ok(kept),
            None => Err(state),
        }
    }

    /// Whether sending may begin, or the status to wait for a change of before it can be told.
    pub fn opening(&self) -> (result: Result<Result<(), Error>, Arc<DataChannelStreamState>>)
        ensures
            match result {
                Ok(result) => exists|state: DataChannelStreamState| #[trigger]
                    self.states().contains(state) && opening_result(state@) == Some(result),
                Err(state) => self.states().contains(*state) && opening_result(state@) is None,
            },
        opens_invariants none
    {
        let state = self.cell.load();
        assert(self.states().contains(*state));
        match state.opening() {
            Some(result) => Ok(result),
            None => Err(state),
        }
    }

    /// The underlying channel has closed. Those who read from an open channel are to be told. A
    /// channel that has failed keeps the reason.
    pub fn on_close<M>(&self) -> (told: Option<Result<Option<M>, Error>>)
        ensures
            exists|old: DataChannelStreamState| #[trigger]
                happened(self.states(), self.changes(), old, ChannelEvent::Closed) && told
                    == farewell::<M>(old@, Ok(None)),
        opens_invariants [ change_mark(ChannelChange::Close) ]
    {
        let old = self.cell.rcu(ChannelChange::Close);
        Self::wake(&old);
        assert(happened(self.states(), self.changes(), *old, ChannelEvent::Closed));
        old.farewell(Ok(None))
    }

    /// The underlying channel has failed. Those who read from an open channel are to be told.
    pub fn on_error<M>(&self, error: Error) -> (told: Option<Result<Option<M>, Error>>)
        ensures
            exists|old: DataChannelStreamState| #[trigger]
                happened(self.states(), self.changes(), old, ChannelEvent::Failed(error)) && told
                    == farewell::<M>(old@, Err(error)),
        opens_invariants [ status_mark(DataChannelStreamState::Closed { reason: Some(error) }) ]
    {
        let old = self.cell.swap(
            DataChannelStreamState::Closed { reason: Some(error.again()) },
        );
        Self::wake(&old);
        assert(happened(self.states(), self.changes(), *old, ChannelEvent::Failed(error))) by {
            let new = DataChannelStreamState::Closed { reason: Some(error) };
            assert(set![*old, new].contains(new) && set![*old, new].contains(*old));
        }
        old.farewell(Err(error))
    }
}

/// How far sending has come.
#[derive(Debug, Clone, Copy, PartialEq, Eq, Structural)]
pub enum DataChannelSinkState {
    Idle,
    Awaiting,
}

/// What one who sends is to do.
pub enum Sending {
    /// Nothing: this is the answer.
    Answer(Result<(), Error>),
    /// See how far what is awaited has come.
    Poll,
    /// See how far the last message has come. Once it is sent, the channel is idle.
    PollSend,
}

/// What one who is about to send is to do.
pub open spec fn before_send(phase: ChannelPhase, sink_state: DataChannelSinkState) -> Sending {
    match (phase, sink_state) {
        (ChannelPhase::Open, DataChannelSinkState::Idle) => Sending::Answer(Ok(())),
        (ChannelPhase::Open, DataChannelSinkState::Awaiting) => Sending::PollSend,
        (ChannelPhase::Waiting, _) => Sending::Poll,
        (ChannelPhase::Closed(_), _) => Sending::Answer(Err(Error::DataChannelNotOpen)),
    }
}

/// What one who waits for the last message to be sent is to do.
pub open spec fn after_send(phase: ChannelPhase, sink_state: DataChannelSinkState) -> Sending {
    match (phase, sink_state) {
        (_, DataChannelSinkState::Awaiting) => Sending::PollSend,
        (ChannelPhase::Closed(_), _) => Sending::Answer(Err(Error::DataChannelNotOpen)),
        (_, _) => Sending::Answer(Ok(())),
    }
}

impl DataChannelSinkState {
    /// What one who is about to send is to do.
    pub fn before_send(self, status: &DataChannelStreamState) -> (step: Sending)
        ensures
            step == before_send(status@, self),
        opens_invariants none
    {
        match status {
            DataChannelStreamState::Open => match self {
                DataChannelSinkState::Idle => Sending::Answer(Ok(())),
                DataChannelSinkState::Awaiting => Sending::PollSend,
            },
            DataChannelStreamState::Waiting { .. } => Sending::Poll,
            DataChannelStreamState::Closed { .. } => Sending::Answer(Err(Error::channel_closed())),
        }
    }

    /// What one who waits for the last message to be sent is to do.
    pub fn after_send(self, status: &DataChannelStreamState) -> (step: Sending)
        ensures
            step == after_send(status@, self),
        opens_invariants none
    {
        match self {
            DataChannelSinkState::Idle => {
                if status.is_closed() {
                    Sending::Answer(Err(Error::channel_closed()))
                } else {
                    Sending::Answer(Ok(()))
                }
            },
            DataChannelSinkState::Awaiting => Sending::PollSend,
        }
    }
}

/// What is left to do to close a channel.
pub enum Closing {
    /// Wait until the last message is sent.
    AwaitSend,
    /// Close the underlying channel.
    CloseChannel,
    /// Wait until nobody reads any more.
    AwaitReaders,
    /// Nothing. This is how it went.
    Finished(Result<(), Error>),
}

/// What is left to do to close a channel first of all.
pub open spec fn first_closing(sink_state: DataChannelSinkState) -> Closing {
    match sink_state {
        DataChannelSinkState::Awaiting => Closing::AwaitSend,
        DataChannelSinkState::Idle => Closing::CloseChannel,
    }
}

/// What is left to do to close a channel after a step that went as `result` says.
pub open spec fn next_closing(step: Closing, result: Result<(), Error>) -> Closing {
    match (step, result) {
        (Closing::Finished(_), _) => step,
        (Closing::AwaitReaders, _) => Closing::Finished(Ok(())),
        (_, Err(error)) => Closing::Finished(Err(error)),
        (Closing::AwaitSend, Ok(_)) => Closing::CloseChannel,
        (Closing::CloseChannel, Ok(_)) => Closing::AwaitReaders,
    }
}

impl Closing {
    /// What is left to do after a step that went as `result` says.
    pub fn next(self, result: Result<(), Error>) -> (step: Closing)
        ensures
            step == next_closing(self, result),
    {
        match (self, result) {
            (Closing::Finished(outcome), _) => Closing::Finished(outcome),
            (Closing::AwaitReaders, _) => Closing::Finished(Ok(())),
            (_, Err(error)) => Closing::Finished(Err(error)),
            (Closing::AwaitSend, Ok(_)) => Closing::CloseChannel,
            (Closing::CloseChannel, Ok(_)) => Closing::AwaitReaders,
        }
    }
}

/// A data channel.
pub struct DataChannel {
    label: String,
    status: Arc<DataChannelStatus>,
    /// Async sink-send state. It's dependent upon `status`, which describes the general state of
    /// the channel (sink_state only describes status of send operation).
    sink_state: DataChannelSinkState,
}

impl DataChannel {
    /// Every status that the channel goes through.
    pub closed spec fn states(&self) -> Set<DataChannelStreamState> {
        self.status.states()
    }

    /// Every change of status that the channel goes through.
    pub closed spec fn changes(&self) -> Set<(DataChannelStreamState, DataChannelStreamState)> {
        self.status.changes()
    }

    /// How far sending has come.
    pub closed spec fn sink_state(&self) -> DataChannelSinkState {
        self.sink_state
    }

    /// The label by which the two peers know the channel.
    pub closed spec fn label_text(&self) -> Seq<char> {
        self.label@
    }

    /// A channel that waits to become open.
    pub fn new(label: &str) -> (channel: Self)
        ensures
            channel.label_text() == label@,
            exists|state: DataChannelStreamState| #[trigger]
                channel.states().contains(state) && state@ is Waiting,
            channel.sink_state() is Idle,
    {
        let status = DataChannelStatus::new();
        let ghost first = choose|state: DataChannelStreamState| #[trigger]
            status.states().contains(state) && state@ is Waiting;
        let channel = DataChannel {
            label: label.to_owned(),
            status: Arc::new(status),
            sink_state: DataChannelSinkState::Idle,
        };
        assert(channel.states().contains(first));
        channel
    }

    pub fn label(&self) -> (label: &str)
        ensures
            label@ == self.label_text(),
    {
        self.label.as_str()
    }

    /// The status of the channel, for those who change it.
    pub fn status(&self) -> (status: Arc<DataChannelStatus>)
        ensures
            status.states() == self.states(),
            status.changes() == self.changes(),
        opens_invariants none
    {
        self.status.clone()
    }

    pub fn is_open(&self) -> (open: bool)
        ensures
            exists|state: DataChannelStreamState| #[trigger]
                self.states().contains(state) && open == (state@ is Open),
        opens_invariants none
    {
        let state = self.status.get();
        assert(self.states().contains(*state));
        state.is_open()
    }

    pub fn is_closed(&self) -> (closed: bool)
        ensures
            exists|state: DataChannelStreamState| #[trigger]
                self.states().contains(state) && closed == (state@ is Closed),
        opens_invariants none
    {
        let state = self.status.get();
        assert(self.states().contains(*state));
        state.is_closed()
    }

    /// Whether the channel has become open, or the status to wait for a change of.
    ///
    /// # Returns
    ///
    /// If channel has been opened successfully, this method returns `Ok(true)`.
    /// If channel has been closed gracefully it returns `Ok(false)`.
    /// If channel has been closed due to failure it returns `Err`.
    pub fn ready(&self) -> (result: Result<Result<bool, Error>, Arc<DataChannelStreamState>>)
        ensures
            match result {
                Ok(result) => exists|state: DataChannelStreamState| #[trigger]
                    self.states().contains(state) && ready_result(state@) == Some(result),
                Err(state) => self.states().contains(*state) && ready_result(state@) is None,
            },
        opens_invariants none
    {
        let state = self.status.get();
        assert(self.states().contains(*state));
        match state.ready() {
            Some(result) => Ok(result),
            None => Err(state),
        }
    }

    /// What one who reads from the channel is to do, or the status to wait for a change of before
    /// it can be told.
    pub fn recv_internal(&self) -> (result: Result<Reading, Arc<DataChannelStreamState>>)
        ensures
            match result {
                Ok(step) => exists|state: DataChannelStreamState| #[trigger]
                    self.states().contains(state) && reading(state@) == Some(step),
                Err(state) => self.states().contains(*state) && reading(state@) is None,
            },
        opens_invariants none
    {
        let state = self.status.get();
        assert(self.states().contains(*state));
        match state.reading() {
            Some(step) => Ok(step),
            None => Err(state),
        }
    }

    /// What one who is about to send is to do.
    pub fn poll_ready(&self) -> (step: Sending)
        ensures
            exists|state: DataChannelStreamState| #[trigger]
                self.states().contains(state) && step == before_send(state@, self.sink_state()),
        opens_invariants none
    {
        let state = self.status.get();
        assert(self.states().contains(*state));
        self.sink_state.before_send(&state)
    }

    /// A message is on its way.
    pub fn start_send(&mut self)
        ensures
            final(self).sink_state() is Awaiting,
            final(self).states() == old(self).states(),
            final(self).changes() == old(self).changes(),
            final(self).label_text() == old(self).label_text(),
        opens_invariants none
    {
        self.sink_state = DataChannelSinkState::Awaiting;
    }

    /// What one who waits for the last message to be sent is to do.
    pub fn poll_flush(&self) -> (step: Sending)
        ensures
            exists|state: DataChannelStreamState| #[trigger]
                self.states().contains(state) && step == after_send(state@, self.sink_state()),
        opens_invariants none
    {
        let state = self.status.get();
        assert(self.states().contains(*state));
        self.sink_state.after_send(&state)
    }

    /// How far sending has come, now that one who had to take a step sees how far what it awaits
    /// has come. `None` is not far enough.
    pub fn polled(&mut self, step: Sending, polled: Option<Result<(), Error>>) -> (answer: Option<
        Result<(), Error>,
    >)
        ensures
            answer == match step {
                Sending::Answer(answer) => Some(answer),
                _ => polled,
            },
            final(self).sink_state() == if step is PollSend && polled is Some {
                DataChannelSinkState::Idle
            } else {
                old(self).sink_state()
            },
            final(self).states() == old(self).states(),
            final(self).changes() == old(self).changes(),
            final(self).label_text() == old(self).label_text(),
        opens_invariants none
    {
        match step {
            Sending::Answer(answer) => Some(answer),
            Sending::Poll => polled,
            Sending::PollSend => {
                if let Some(_) = &polled {
                    self.sink_state = DataChannelSinkState::Idle;
                }
                polled
            },
        }
    }

    /// Closes the channel to those who use it, and says what is left to do.
    pub fn close_internal(&self) -> (step: Closing)
        ensures
            step == first_closing(self.sink_state()),
            exists|old: DataChannelStreamState| #[trigger]
                happened(self.states(), self.changes(), old, ChannelEvent::CloseRequested),
        opens_invariants [ change_mark(ChannelChange::Close) ]
    {
        let old = self.status.request_close();
        assert(happened(self.states(), self.changes(), *old, ChannelEvent::CloseRequested));
        match self.sink_state {
            DataChannelSinkState::Awaiting => Closing::AwaitSend,
            DataChannelSinkState::Idle => Closing::CloseChannel,
        }
    }
}

/// The status of a channel after things have happened to it one after another.
pub open spec fn after_events(
    state: DataChannelStreamState,
    events: Seq<ChannelEvent>,
) -> DataChannelStreamState
    decreases events.len(),
{
    if events.len() == 0 {
        state
    } else {
        after_event(after_events(state, events.drop_last()), events.last())
    }
}

/// A closed channel is never open again.
pub proof fn closed_channel_stays_closed(
    state: DataChannelStreamState,
    events: Seq<ChannelEvent>,
)
    requires
        state@ is Closed,
    ensures
        after_events(state, events)@ is Closed,
    decreases events.len(),
{
    if events.len() > 0 {
        closed_channel_stays_closed(state, events.drop_last());
    }
}

/// A new channel is open once the underlying channel has opened, for as long as nothing else
/// happens to it.
pub proof fn open_until_closed(state: DataChannelStreamState, events: Seq<ChannelEvent>)
    requires
        state@ is Waiting,
    ensures
        after_events(state, events)@ is Open <==> events.len() > 0 && forall|i: int|
            0 <= i < events.len() ==> (#[trigger] events[i]) is Opened,
    decreases events.len(),
{
    if events.len() > 0 {
        let less = events.drop_last();
        open_until_closed(state, less);
        assert(events[events.len() - 1] == events.last());
        if forall|i: int| 0 <= i < events.len() ==> (#[trigger] events[i]) is Opened {
            assert forall|i: int| 0 <= i < less.len() implies (#[trigger] less[i]) is Opened by {
                assert(less[i] == events[i]);
            }
        }
        if forall|i: int| 0 <= i < less.len() ==> (#[trigger] less[i]) is Opened {
            if events.last() is Opened {
                assert forall|i: int| 0 <= i < events.len() implies (
                #[trigger] events[i]) is Opened by {
                    if i < less.len() {
                        assert(less[i] == events[i]);
                    }
                }
            }
        } else {
            let i = choose|i: int| 0 <= i < less.len() && !((#[trigger] less[i]) is Opened);
            assert(events[i] == less[i]);
            if less.len() > 0 {
                never_waits_again(state, less);
            }
        }
    }
}

/// Whatever happens to a channel, it waits to become open no more.
pub proof fn never_waits_again(state: DataChannelStreamState, events: Seq<ChannelEvent>)
    requires
        events.len() > 0,
    ensures
        !(after_events(state, events)@ is Waiting),
{
}

/// A channel that is closed keeps the reason why it was closed, whatever happens to it but another
/// failure. So one that has failed tells that it has failed ever after.
pub proof fn reason_is_kept(reason: Option<Error>, events: Seq<ChannelEvent>)
    requires
        forall|i: int| 0 <= i < events.len() ==> !((#[trigger] events[i]) is Failed),
    ensures
        after_events(DataChannelStreamState::Closed { reason }, events)
            == (DataChannelStreamState::Closed { reason }),
        reason matches Some(error) ==> ready_result(
            after_events(DataChannelStreamState::Closed { reason }, events)@,
        ) == Some(Err::<bool, Error>(error)),
    decreases events.len(),
{
    if events.len() > 0 {
        let less = events.drop_last();
        assert forall|i: int| 0 <= i < less.len() implies !((#[trigger] less[i]) is Failed) by {
            assert(less[i] == events[i]);
        }
        reason_is_kept(reason, less);
        assert(events[events.len() - 1] == events.last());
    }
}

/// Whatever happens to a channel releases all who wait for it to become open: they are woken, and
/// when they look again they are told.
pub proof fn events_release_all(
    states: Set<DataChannelStreamState>,
    changes: Set<(DataChannelStreamState, DataChannelStreamState)>,
    old: DataChannelStreamState,
    event: ChannelEvent,
)
    requires
        happened(states, changes, old, event),
    ensures
        channel_released(old),
        states.contains(after_event(old, event)),
        ready_result(after_event(old, event)@) is Some,
        opening_result(after_event(old, event)@) is Some,
        reading(after_event(old, event)@) is Some,
        accepts(after_event(old, event)@) is Some,
{
}

/// An underlying channel that fails reports both that it has failed and that it has closed. In
/// whichever order the reports come, the failure is what is left.
pub proof fn failure_outlasts_closing(state: DataChannelStreamState, error: Error)
    ensures
        ({
            let failed = DataChannelStreamState::Closed { reason: Some(error) };
            let (closing, failing) = (ChannelEvent::Closed, ChannelEvent::Failed(error));
            &&& after_event(after_event(state, failing), closing) == failed
            &&& after_event(after_event(state, closing), failing) == failed
            &&& ready_result(failed@) == Some(Err::<bool, Error>(error))
        }),
{
}

/// Waiting for a channel to become open tells `true` once it is open, `false` once it is closed
/// gracefully, and the reason once it is closed due to failure.
pub proof fn ready_tells(phase: ChannelPhase, reason: Error)
    ensures
        ready_result(phase) == Some(Ok::<bool, Error>(true)) <==> phase is Open,
        ready_result(phase) == Some(Ok::<bool, Error>(false)) <==> phase == ChannelPhase::Closed(
            None,
        ),
        ready_result(phase) == Some(Err::<bool, Error>(reason)) <==> phase
            == ChannelPhase::Closed(Some(reason)),
        ready_result(phase) is None <==> phase is Waiting,
{
}

/// A channel that is closed gives nothing more to read, except the reason where it failed.
pub proof fn closed_channel_ends_reading(phase: ChannelPhase)
    requires
        phase is Closed,
    ensures
        accepts(phase) == Some(false),
        phase == ChannelPhase::Closed(None) ==> reading(phase) == Some(Reading::End),
        phase matches ChannelPhase::Closed(Some(reason)) ==> reading(phase) == Some(
            Reading::Fail(reason),
        ),
{
}

/// Those who read, those who send and those who wait for a channel all wait for the same: that it
/// is open or closed.
pub proof fn all_wait_alike(phase: ChannelPhase, sink_state: DataChannelSinkState)
    ensures
        ready_result(phase) is None <==> phase is Waiting,
        opening_result(phase) is None <==> phase is Waiting,
        reading(phase) is None <==> phase is Waiting,
        accepts(phase) is None <==> phase is Waiting,
        before_send(phase, sink_state) is Poll <==> phase is Waiting,
{
}

/// An open channel takes one message at a time: while one is on its way, whoever is about to send
/// or waits for it to be sent looks at how far it has come, and once it is sent the next may come.
pub proof fn one_message_at_a_time()
    ensures
        before_send(ChannelPhase::Open, DataChannelSinkState::Awaiting) is PollSend,
        after_send(ChannelPhase::Open, DataChannelSinkState::Awaiting) is PollSend,
        before_send(ChannelPhase::Open, DataChannelSinkState::Idle) == Sending::Answer(Ok(())),
        after_send(ChannelPhase::Open, DataChannelSinkState::Idle) == Sending::Answer(Ok(())),
{
}

/// Nothing more is sent on a closed channel, though a message that is on its way is waited for.
pub proof fn closed_channel_refuses(reason: Option<Error>, sink_state: DataChannelSinkState)
    ensures
        before_send(ChannelPhase::Closed(reason), sink_state) == Sending::Answer(
            Err(Error::DataChannelNotOpen),
        ),
        after_send(ChannelPhase::Closed(reason), DataChannelSinkState::Idle) == Sending::Answer(
            Err(Error::DataChannelNotOpen),
        ),
        after_send(ChannelPhase::Closed(reason), DataChannelSinkState::Awaiting) is PollSend,
{
}

/// Closing a channel waits for the message that is on its way, if there is one, then closes the
/// underlying channel, then waits for those who read. The first failure ends it.
pub proof fn closing_in_order(
    sent: Result<(), Error>,
    closed: Result<(), Error>,
    read: Result<(), Error>,
)
    ensures
        ({
            let first = first_closing(DataChannelSinkState::Awaiting);
            let second = next_closing(first, sent);
            &&& first is AwaitSend
            &&& sent is Err ==> second == Closing::Finished(sent)
            &&& sent is Ok ==> second == first_closing(DataChannelSinkState::Idle)
        }),
        ({
            let first = first_closing(DataChannelSinkState::Idle);
            let second = next_closing(first, closed);
            &&& first is CloseChannel
            &&& closed is Err ==> second == Closing::Finished(closed)
            &&& closed is Ok ==> second is AwaitReaders && next_closing(second, read)
                == Closing::Finished(Ok(()))
        }),
{
}

/// One who reads from a channel, and is told as [`DataChannel::recv_internal`] tells, is to take
/// the next message where the channel was open all along, waits where it was always waiting, stops
/// where it was closed gracefully from the start, and reports the reason where it had failed. It is
/// told to stop, or to report, only of a channel that was closed.
pub proof fn reading_follows_the_status(
    states: Set<DataChannelStreamState>,
    result: Result<Reading, Arc<DataChannelStreamState>>,
    reason: Error,
)
    requires
        match result {
            Ok(step) => exists|state: DataChannelStreamState| #[trigger]
                states.contains(state) && reading(state@) == Some(step),
            Err(state) => states.contains(*state) && reading(state@) is None,
        },
    ensures
        (forall|state: DataChannelStreamState| #[trigger]
            states.contains(state) ==> state@ is Open) ==> result == Ok::<
            Reading,
            Arc<DataChannelStreamState>,
        >(Reading::Receive),
        (forall|state: DataChannelStreamState| #[trigger]
            states.contains(state) ==> state@ is Waiting) ==> result is Err,
        (forall|state: DataChannelStreamState| #[trigger]
            states.contains(state) ==> state@ == ChannelPhase::Closed(None)) ==> result == Ok::<
            Reading,
            Arc<DataChannelStreamState>,
        >(Reading::End),
        (forall|state: DataChannelStreamState| #[trigger]
            states.contains(state) ==> state@ == ChannelPhase::Closed(Some(reason))) ==> result
            == Ok::<Reading, Arc<DataChannelStreamState>>(Reading::Fail(reason)),
        result == Ok::<Reading, Arc<DataChannelStreamState>>(Reading::End) ==> exists|
            state: DataChannelStreamState,
        | #[trigger] states.contains(state) && state@ == ChannelPhase::Closed(None),
        result == Ok::<Reading, Arc<DataChannelStreamState>>(Reading::Fail(reason)) ==> exists|
            state: DataChannelStreamState,
        | #[trigger] states.contains(state) && state@ == ChannelPhase::Closed(Some(reason)),
        result == Ok::<Reading, Arc<DataChannelStreamState>>(Reading::Receive) ==> exists|
            state: DataChannelStreamState,
        | #[trigger] states.contains(state) && state@ is Open,
        result matches Err(state) ==> states.contains(*state) && state@ is Waiting,
{
}

/// What one who reads is to do tells the status of the channel, and the other way round.
pub proof fn reading_tells(phase: ChannelPhase, reason: Error)
    ensures
        reading(phase) == Some(Reading::Receive) <==> phase is Open,
        reading(phase) == Some(Reading::End) <==> phase == ChannelPhase::Closed(None),
        reading(phase) == Some(Reading::Fail(reason)) <==> phase == ChannelPhase::Closed(
            Some(reason),
        ),
{
}

/// A message is kept exactly where one who reads is to take it: on an open channel.
pub proof fn messages_are_kept_for_readers(phase: ChannelPhase)
    ensures
        accepts(phase) == Some(true) <==> phase is Open,
        accepts(phase) == Some(true) <==> reading(phase) == Some(Reading::Receive),
        accepts(phase) == Some(false) <==> phase is Closed,
{
}

/// Sending for the first time fails only on a channel that has failed, with that reason.
pub proof fn first_sending_tells(phase: ChannelPhase, reason: Error)
    ensures
        opening_result(phase) == Some(Err::<(), Error>(reason)) <==> phase == ChannelPhase::Closed(
            Some(reason),
        ),
        opening_result(phase) == Some(Ok::<(), Error>(())) <==> phase is Open || phase
            == ChannelPhase::Closed(None),
{
}

/// Those who read are told of the end of a channel exactly where it was open, and what they are
/// told is the news, as it is.
pub proof fn readers_are_told_once<M>(old: ChannelPhase, news: Result<Option<M>, Error>)
    ensures
        farewell(old, news) is Some <==> old is Open,
        farewell(old, news) matches Some(told) ==> told == news,
{
}

/// After a channel has left the open status, those who read are told nothing more, whatever
/// happens.
pub proof fn nothing_is_told_after_the_end<M>(
    state: DataChannelStreamState,
    end: ChannelEvent,
    events: Seq<ChannelEvent>,
    news: Result<Option<M>, Error>,
)
    requires
        !(end is Opened),
    ensures
        farewell(after_events(after_event(state, end), events)@, news) is None,
{
    closed_channel_stays_closed(after_event(state, end), events);
}

/// A message that came is read as it came, a failure is read as that failure, and the end of the
/// channel ends reading and stops the taking of messages; nothing else does.
pub proof fn what_came_is_read<M>(entry: Option<Result<Option<M>, Error>>, message: M, error: Error)
    ensures
        reception(entry).item == Some(Ok::<M, Error>(message)) <==> entry == Some(
            Ok::<Option<M>, Error>(Some(message)),
        ),
        reception(entry).item == Some(Err::<M, Error>(error)) <==> entry == Some(
            Err::<Option<M>, Error>(error),
        ),
        reception(entry).item is None <==> entry is None || entry == Some(
            Ok::<Option<M>, Error>(None),
        ),
        reception(entry).close <==> entry == Some(Ok::<Option<M>, Error>(None)),
{
}

/// A channel that has not been closed before is closed gracefully when it closes or is no longer
/// wanted; it fails with the reason that it is told of; and a waiting one opens.
pub proof fn what_events_do(state: DataChannelStreamState, error: Error)
    requires
        !(state@ is Closed),
    ensures
        after_event(state, ChannelEvent::Closed)@ == ChannelPhase::Closed(None),
        after_event(state, ChannelEvent::CloseRequested)@ == ChannelPhase::Closed(None),
        after_event(state, ChannelEvent::Failed(error))@ == ChannelPhase::Closed(Some(error)),
        after_event(state, ChannelEvent::Opened)@ is Open,
{
}

/// A status is what it says.
pub proof fn a_channel_status_is_what_it_says(ready: Notify, reason: Option<Error>)
    ensures
        (DataChannelStreamState::Waiting { ready })@ is Waiting,
        DataChannelStreamState::Open@ is Open,
        (DataChannelStreamState::Closed { reason })@ == ChannelPhase::Closed(reason),
        channel_released(DataChannelStreamState::Waiting { ready }) ==> woken(ready),
{
}

/// What has happened to a channel has changed it, in one step, as what happened says.
pub proof fn events_make_changes(
    states: Set<DataChannelStreamState>,
    changes: Set<(DataChannelStreamState, DataChannelStreamState)>,
    old: DataChannelStreamState,
    event: ChannelEvent,
)
    requires
        happened(states, changes, old, event),
    ensures
        states.contains(old),
        exists|next: DataChannelStreamState| #[trigger]
            changes.contains((old, next)) && states.contains(next) && match event {
                ChannelEvent::Failed(error) => next@ == ChannelPhase::Closed(Some(error)),
                ChannelEvent::Opened => if old@ is Closed {
                    next == old
                } else {
                    next@ is Open
                },
                _ => if old@ is Closed {
                    next == old
                } else {
                    next@ == ChannelPhase::Closed(None)
                },
            },
{
    assert(changes.contains((old, after_event(old, event))));
}

/// A message on its way is always waited for by one who flushes, and nobody sends before the
/// channel is open. One who may send at once is one whose channel is open and idle.
pub proof fn when_to_send(phase: ChannelPhase, sink_state: DataChannelSinkState)
    ensures
        before_send(phase, sink_state) == Sending::Answer(Ok(())) <==> phase is Open && sink_state
            is Idle,
        before_send(phase, sink_state) is PollSend <==> phase is Open && sink_state is Awaiting,
        before_send(phase, sink_state) is Poll <==> phase is Waiting,
        before_send(phase, sink_state) == Sending::Answer(Err(Error::DataChannelNotOpen))
            <==> phase is Closed,
        after_send(phase, sink_state) is PollSend <==> sink_state is Awaiting,
        after_send(phase, sink_state) == Sending::Answer(Ok(())) <==> sink_state is Idle && !(
        phase is Closed),
        after_send(phase, sink_state) == Sending::Answer(Err(Error::DataChannelNotOpen))
            <==> sink_state is Idle && phase is Closed,
{
}

/// Closing ends as its last step went. Waiting for those who read cannot fail, and what is finished
/// stays as it ended.
pub proof fn closing_ends(outcome: Result<(), Error>, result: Result<(), Error>, error: Error)
    ensures
        next_closing(Closing::Finished(outcome), result) == Closing::Finished(outcome),
        next_closing(Closing::AwaitReaders, result) == Closing::Finished(Ok(())),
        next_closing(Closing::AwaitSend, Err(error)) == Closing::Finished(Err(error)),
        next_closing(Closing::CloseChannel, Err(error)) == Closing::Finished(Err(error)),
        next_closing(Closing::AwaitSend, Ok(())) is CloseChannel,
        next_closing(Closing::CloseChannel, Ok(())) is AwaitReaders,
        first_closing(DataChannelSinkState::Awaiting) is AwaitSend,
        first_closing(DataChannelSinkState::Idle) is CloseChannel,
{
}

/// Nothing is known of marks.
pub proof fn marks_are_arbitrary(change: ChannelChange, state: DataChannelStreamState)
    ensures
        change_mark(change) == (arbitrary::<spec_fn(ChannelChange) -> int>())(change),
        status_mark(state) == (arbitrary::<spec_fn(DataChannelStreamState) -> int>())(state),
{
}

} // verus!
