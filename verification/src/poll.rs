//! The polling state machine of one register or sign operation.
//!
//! A `Poller` never touches a device. It says which action comes next, the
//! caller performs that action and hands back what happened as an event, and
//! the poller moves on:
//!
//! ```text
//! loop {
//!     match poller.action() {
//!         Action::Complete(result) => break deliver(result),
//!         action => poller = poller.step(perform(action)),
//!     }
//! }
//! ```
//!
//! One cycle checks that the operation is still alive, drains the hot-plug
//! monitor into the device table, tries every device in the table, and
//! sleeps. The cycle repeats until a device produces a result, the operation
//! is cancelled, or its deadline passes. Whatever ends the operation, every
//! open device and the monitor are closed before the result is delivered.

use vstd::prelude::*;
use crate::device::{DeviceEvent, DeviceEventView, DeviceIdentity, DeviceTable, table_apply};
use crate::error::ErrorKind;
use crate::protocol::{check_frame, check_outcome, register_frame, register_outcome, sign_frame};
use crate::protocol::{sign_outcome, valid_register_input, valid_sign_input};
use crate::response::is_register_response;
use crate::protocol::{check_result, copy_bytes, encode_check, encode_register, encode_sign};
use crate::protocol::{register_result, sign_result};

verus! {

/// Milliseconds to sleep between two polling cycles.
pub const POLL_INTERVAL_MS: u64 = 100;

/// Which operation a poller drives.
#[derive(Clone, Copy, Debug, PartialEq, Eq, Structural)]
pub enum Mode {
    /// Register a new credential.
    Register,
    /// Sign with an existing key handle.
    Sign,
}

/// What the run loop says when asked whether the operation should go on.
#[derive(Clone, Copy, Debug, PartialEq, Eq, Structural)]
pub enum Liveness {
    /// Neither cancelled nor past the deadline.
    Alive,
    /// The owner asked for termination.
    Cancelled,
    /// The deadline has passed.
    TimedOut,
}

impl Liveness {
    /// What a run loop's liveness check means, given how long the operation
    /// has run. `timeout` and `elapsed` are in milliseconds; a timeout of
    /// `0` is no limit.
    pub open spec fn judged(alive: bool, timeout: u64, elapsed: u64) -> Liveness {
        if alive {
            Liveness::Alive
        } else if timeout != 0 && elapsed >= timeout {
            Liveness::TimedOut
        } else {
            Liveness::Cancelled
        }
    }

    /// Tells a cancelled operation from one that ran out of time: a run
    /// loop that is no longer alive has timed out when it had a deadline and
    /// the deadline has passed, and was cancelled otherwise.
    pub fn judge(alive: bool, timeout: u64, elapsed: u64) -> (liveness: Liveness)
        ensures
            liveness == Liveness::judged(alive, timeout, elapsed),
    {
        if alive {
            Liveness::Alive
        } else if timeout != 0 && elapsed >= timeout {
            Liveness::TimedOut
        } else {
            Liveness::Cancelled
        }
    }
}

/// Where in its cycle a poller stands. Each phase waits for the event that
/// answers the phase's action.
#[derive(Clone, Copy, Debug, PartialEq, Eq, Structural)]
pub enum Phase {
    /// Nothing has happened yet; the monitor is to be opened.
    Start,
    /// Head of a cycle: waiting to learn whether the operation is alive.
    CheckingLiveness,
    /// Waiting for the monitor's events.
    PollingMonitor,
    /// Waiting for the transport to open the device of the current event.
    Opening,
    /// Waiting for the transport to close the device of the current event.
    Closing,
    /// Register mode: waiting for the current device's register response.
    Registering,
    /// Sign mode: waiting for the current device's check-only response.
    Checking,
    /// Sign mode: the key handle is the current device's; waiting for its
    /// signature.
    Signing,
    /// Sign mode: the key handle is not the current device's; waiting for
    /// its register response, which only tells that the user touched it.
    Blinking,
    /// Waiting for the pause between two cycles to end.
    Sleeping,
    /// The result is decided; waiting for the last device of the table to be
    /// closed.
    Releasing,
    /// The result is decided and no device is open; waiting for the monitor
    /// to be closed.
    ClosingMonitor,
    /// Everything is released; the result is to be delivered.
    Finished,
}

/// What the caller is asked to do next.
#[derive(Debug, PartialEq, Eq)]
pub enum Action {
    /// Open the hot-plug monitor; answer with `MonitorOpened`.
    OpenMonitor,
    /// Ask the run loop for liveness; answer with `Liveness`.
    CheckAlive,
    /// Take the events the monitor has seen since the last poll, without
    /// blocking; answer with `Events`.
    PollMonitor,
    /// Try to open the device; answer with `Opened`.
    OpenDevice(DeviceIdentity),
    /// Close the device's handle; answer with `Done`.
    CloseDevice(DeviceIdentity),
    /// Send the request to the device and read its response; answer with
    /// `Reply`, or with `ExchangeFailed`.
    Exchange { device: DeviceIdentity, request: Vec<u8> },
    /// Sleep for so many milliseconds; answer with `Done`.
    Sleep(u64),
    /// Close the hot-plug monitor; answer with `Done`.
    CloseMonitor,
    /// Deliver the result. The operation is over.
    Complete(Result<Vec<u8>, ErrorKind>),
}

/// An action as a plain value.
pub enum ActionView {
    OpenMonitor,
    CheckAlive,
    PollMonitor,
    OpenDevice(Seq<u8>),
    CloseDevice(Seq<u8>),
    Exchange { device: Seq<u8>, request: Seq<u8> },
    Sleep(u64),
    CloseMonitor,
    Complete(Result<Seq<u8>, ErrorKind>),
}

/// A result with its bytes as a sequence.
pub open spec fn result_view(result: Result<Vec<u8>, ErrorKind>) -> Result<Seq<u8>, ErrorKind> {
    match result {
        Ok(bytes) => Ok(bytes@),
        Err(kind) => Err(kind),
    }
}

impl View for Action {
    type V = ActionView;

    open spec fn view(&self) -> ActionView {
        match self {
            Action::OpenMonitor => ActionView::OpenMonitor,
            Action::CheckAlive => ActionView::CheckAlive,
            Action::PollMonitor => ActionView::PollMonitor,
            Action::OpenDevice(device) => ActionView::OpenDevice(device@),
            Action::CloseDevice(device) => ActionView::CloseDevice(device@),
            Action::Exchange { device, request } => ActionView::Exchange {
                device: device@,
                request: request@,
            },
            Action::Sleep(millis) => ActionView::Sleep(*millis),
            Action::CloseMonitor => ActionView::CloseMonitor,
            Action::Complete(result) => ActionView::Complete(result_view(*result)),
        }
    }
}

/// What happened when the caller performed an action.
#[derive(Debug, PartialEq, Eq)]
pub enum Event {
    /// The monitor was opened (`true`) or could not be (`false`).
    MonitorOpened(bool),
    /// The run loop's answer.
    Liveness(Liveness),
    /// The events the monitor had, oldest first; may be empty.
    Events(Vec<DeviceEvent>),
    /// The device was opened (`true`) or could not be (`false`): not a key,
    /// busy, or not permitted.
    Opened(bool),
    /// The bytes a device answered with.
    Reply(Vec<u8>),
    /// The exchange with a device failed.
    ExchangeFailed,
    /// The action was carried out and has nothing to report.
    Done,
}

/// An event as a plain value.
pub enum EventView {
    MonitorOpened(bool),
    Liveness(Liveness),
    Events(Seq<DeviceEventView>),
    Opened(bool),
    Reply(Seq<u8>),
    ExchangeFailed,
    Done,
}

/// A batch of hot-plug events as plain values.
pub open spec fn events_view(events: Seq<DeviceEvent>) -> Seq<DeviceEventView> {
    Seq::new(events.len(), |i: int| events[i]@)
}

impl View for Event {
    type V = EventView;

    open spec fn view(&self) -> EventView {
        match self {
            Event::MonitorOpened(opened) => EventView::MonitorOpened(*opened),
            Event::Liveness(liveness) => EventView::Liveness(*liveness),
            Event::Events(events) => EventView::Events(events_view(events@)),
            Event::Opened(opened) => EventView::Opened(*opened),
            Event::Reply(bytes) => EventView::Reply(bytes@),
            Event::ExchangeFailed => EventView::ExchangeFailed,
            Event::Done => EventView::Done,
        }
    }
}

/// Whether applying `event` to `table` takes an action of the transport: an
/// added device has to be opened, a removed one has to be closed if it is in
/// the table. Removing an unknown device takes nothing.
pub open spec fn needs_transport(table: Seq<Seq<u8>>, event: DeviceEventView) -> bool {
    match event {
        DeviceEventView::Add(_) => true,
        DeviceEventView::Remove(identity) => table.contains(identity),
    }
}

/// The index of the first event at or after `from` that takes an action of
/// the transport, or the number of events if there is none.
pub open spec fn next_pending(table: Seq<Seq<u8>>, pending: Seq<DeviceEventView>, from: int) -> int
    decreases pending.len() - from,
{
    if from < 0 || from >= pending.len() {
        pending.len() as int
    } else if needs_transport(table, pending[from]) {
        from
    } else {
        next_pending(table, pending, from + 1)
    }
}

/// The state of a poller as a plain value.
pub struct PollerView {
    /// Milliseconds the operation may run; `0` for no limit.
    pub timeout: u64,
    /// The operation.
    pub mode: Mode,
    /// The challenge parameter.
    pub challenge: Seq<u8>,
    /// The application parameter.
    pub application: Seq<u8>,
    /// The key handle to sign with; empty in register mode.
    pub key_handle: Seq<u8>,
    /// The devices currently open.
    pub table: Seq<Seq<u8>>,
    /// The monitor events of this cycle.
    pub pending: Seq<DeviceEventView>,
    /// While events are applied, the index of the current event; while
    /// devices are tried, the index of the current device.
    pub cursor: int,
    /// The phase.
    pub phase: Phase,
    /// The result, once it is decided.
    pub result: Option<Result<Seq<u8>, ErrorKind>>,
}

impl PollerView {
    /// Whether the parameters have the sizes the operation allows.
    pub open spec fn valid_input(self) -> bool {
        match self.mode {
            Mode::Register => valid_register_input(self.challenge, self.application)
                && self.key_handle.len() == 0,
            Mode::Sign => valid_sign_input(self.challenge, self.application, self.key_handle),
        }
    }

    /// Whether the result is decided: from then on the poller only releases
    /// what is open and delivers.
    pub open spec fn decided(self) -> bool {
        self.phase == Phase::Releasing || self.phase == Phase::ClosingMonitor || self.phase
            == Phase::Finished
    }

    /// Whether `result` is one this poller can end with: a response, which
    /// in register mode is a register response; cancellation; a timeout; a
    /// transport error; or, in sign mode, an invalid key.
    pub open spec fn possible_result(self, result: Result<Seq<u8>, ErrorKind>) -> bool {
        match result {
            Ok(response) => self.mode == Mode::Register ==> is_register_response(response),
            Err(ErrorKind::Cancelled) | Err(ErrorKind::TimedOut) | Err(
                ErrorKind::TransportError,
            ) => true,
            Err(ErrorKind::InvalidKey) => self.mode == Mode::Sign,
            Err(_) => false,
        }
    }

    /// The invariant of a poller.
    pub open spec fn wf(self) -> bool {
        &&& self.valid_input()
        &&& self.table.no_duplicates()
        &&& self.decided() <==> self.result is Some
        &&& self.result is Some ==> self.possible_result(self.result->Some_0)
        &&& match self.phase {
            Phase::Start => self.table.len() == 0,
            Phase::Opening => 0 <= self.cursor < self.pending.len()
                && self.pending[self.cursor] is Add,
            Phase::Closing => 0 <= self.cursor < self.pending.len()
                && self.pending[self.cursor] is Remove && self.table.contains(
                self.pending[self.cursor].identity(),
            ),
            Phase::Registering => self.mode == Mode::Register && 0 <= self.cursor
                < self.table.len(),
            Phase::Checking | Phase::Signing | Phase::Blinking => self.mode == Mode::Sign && 0
                <= self.cursor < self.table.len(),
            Phase::Releasing => self.table.len() > 0,
            Phase::ClosingMonitor | Phase::Finished => self.table.len() == 0,
            _ => true,
        }
    }

    /// The state a new poller starts in.
    pub open spec fn initial(
        timeout: u64,
        mode: Mode,
        challenge: Seq<u8>,
        application: Seq<u8>,
        key_handle: Seq<u8>,
    ) -> PollerView {
        PollerView {
            timeout,
            mode,
            challenge,
            application,
            key_handle,
            table: Seq::empty(),
            pending: Seq::empty(),
            cursor: 0,
            phase: Phase::Start,
            result: None,
        }
    }

    /// The state in which the device at `index` is tried next, or, past the
    /// end of the table, the state that sleeps until the next cycle.
    pub open spec fn attempt_at(self, index: int) -> PollerView {
        if 0 <= index < self.table.len() {
            PollerView {
                pending: Seq::empty(),
                cursor: index,
                phase: match self.mode {
                    Mode::Register => Phase::Registering,
                    Mode::Sign => Phase::Checking,
                },
                ..self
            }
        } else {
            PollerView { pending: Seq::empty(), cursor: 0, phase: Phase::Sleeping, ..self }
        }
    }

    /// The state that goes on applying events from index `from`: it waits
    /// for the transport at the first event that takes an action, and starts
    /// trying devices when no such event is left.
    pub open spec fn resume(self, from: int) -> PollerView {
        let at = next_pending(self.table, self.pending, from);
        if at < self.pending.len() {
            PollerView {
                cursor: at,
                phase: if self.pending[at] is Add {
                    Phase::Opening
                } else {
                    Phase::Closing
                },
                ..self
            }
        } else {
            self.attempt_at(0)
        }
    }

    /// The state that has decided on `result` and starts releasing.
    pub open spec fn finish(self, result: Result<Seq<u8>, ErrorKind>) -> PollerView {
        PollerView {
            pending: Seq::empty(),
            cursor: 0,
            phase: if self.table.len() > 0 {
                Phase::Releasing
            } else {
                Phase::ClosingMonitor
            },
            result: Some(result),
            ..self
        }
    }

    /// The action the poller asks for in this state.
    pub open spec fn action(self) -> ActionView {
        match self.phase {
            Phase::Start => ActionView::OpenMonitor,
            Phase::CheckingLiveness => ActionView::CheckAlive,
            Phase::PollingMonitor => ActionView::PollMonitor,
            Phase::Opening => ActionView::OpenDevice(self.pending[self.cursor].identity()),
            Phase::Closing => ActionView::CloseDevice(self.pending[self.cursor].identity()),
            Phase::Registering | Phase::Blinking => ActionView::Exchange {
                device: self.table[self.cursor],
                request: register_frame(self.challenge, self.application),
            },
            Phase::Checking => ActionView::Exchange {
                device: self.table[self.cursor],
                request: check_frame(self.challenge, self.application, self.key_handle),
            },
            Phase::Signing => ActionView::Exchange {
                device: self.table[self.cursor],
                request: sign_frame(self.challenge, self.application, self.key_handle),
            },
            Phase::Sleeping => ActionView::Sleep(POLL_INTERVAL_MS),
            Phase::Releasing => ActionView::CloseDevice(self.table.last()),
            Phase::ClosingMonitor => ActionView::CloseMonitor,
            Phase::Finished => ActionView::Complete(self.result->Some_0),
        }
    }

    /// The state that follows when `event` arrives. An event that does not
    /// answer the current phase's action changes nothing.
    pub open spec fn step(self, event: EventView) -> PollerView {
        match (self.phase, event) {
            (Phase::Start, EventView::MonitorOpened(opened)) => if opened {
                PollerView { phase: Phase::CheckingLiveness, ..self }
            } else {
                PollerView {
                    phase: Phase::Finished,
                    result: Some(Err(ErrorKind::TransportError)),
                    ..self
                }
            },
            (Phase::CheckingLiveness, EventView::Liveness(liveness)) => match liveness {
                Liveness::Alive => PollerView { phase: Phase::PollingMonitor, ..self },
                Liveness::Cancelled => self.finish(Err(ErrorKind::Cancelled)),
                Liveness::TimedOut => self.finish(Err(ErrorKind::TimedOut)),
            },
            (Phase::PollingMonitor, EventView::Events(events)) => PollerView {
                pending: events,
                ..self
            }.resume(0),
            (Phase::Opening, EventView::Opened(opened)) => PollerView {
                table: table_apply(self.table, self.pending[self.cursor], opened),
                ..self
            }.resume(self.cursor + 1),
            (Phase::Closing, EventView::Done) => PollerView {
                table: table_apply(self.table, self.pending[self.cursor], false),
                ..self
            }.resume(self.cursor + 1),
            (Phase::Registering, EventView::Reply(bytes)) => match register_outcome(bytes) {
                Ok(response) => self.finish(Ok(response)),
                Err(_) => self.attempt_at(self.cursor + 1),
            },
            (Phase::Checking, EventView::Reply(bytes)) => match check_outcome(bytes) {
                Ok(true) => PollerView { phase: Phase::Signing, ..self },
                Ok(false) => PollerView { phase: Phase::Blinking, ..self },
                Err(_) => self.attempt_at(self.cursor + 1),
            },
            (Phase::Signing, EventView::Reply(bytes)) => match sign_outcome(bytes) {
                Ok(response) => self.finish(Ok(response)),
                Err(_) => self.attempt_at(self.cursor + 1),
            },
            (Phase::Blinking, EventView::Reply(bytes)) => match register_outcome(bytes) {
                Ok(_) => self.finish(Err(ErrorKind::InvalidKey)),
                Err(_) => self.attempt_at(self.cursor + 1),
            },
            (Phase::Registering, EventView::ExchangeFailed)
            | (Phase::Checking, EventView::ExchangeFailed)
            | (Phase::Signing, EventView::ExchangeFailed)
            | (Phase::Blinking, EventView::ExchangeFailed) => self.attempt_at(self.cursor + 1),
            (Phase::Sleeping, EventView::Done) => PollerView {
                phase: Phase::CheckingLiveness,
                ..self
            },
            (Phase::Releasing, EventView::Done) => PollerView {
                table: table_apply(self.table, DeviceEventView::Remove(self.table.last()), false),
                phase: if self.table.len() > 1 {
                    Phase::Releasing
                } else {
                    Phase::ClosingMonitor
                },
                ..self
            },
            (Phase::ClosingMonitor, EventView::Done) => PollerView {
                phase: Phase::Finished,
                ..self
            },
            _ => self,
        }
    }
}

/// What `next_pending` finds: nothing before it takes an action of the
/// transport, and the event at it, if there is one, does.
pub proof fn lemma_next_pending(table: Seq<Seq<u8>>, pending: Seq<DeviceEventView>, from: int)
    requires
        0 <= from <= pending.len(),
    ensures
        from <= next_pending(table, pending, from) <= pending.len(),
        next_pending(table, pending, from) < pending.len() ==> needs_transport(
            table,
            pending[next_pending(table, pending, from)],
        ),
        forall|k: int|
            from <= k < next_pending(table, pending, from) ==> !needs_transport(
                table,
                #[trigger] pending[k],
            ),
    decreases pending.len() - from,
{
    if from < pending.len() && !needs_transport(table, pending[from]) {
        lemma_next_pending(table, pending, from + 1);
    }
}

/// The state machine of one register or sign operation.
#[derive(Debug)]
pub struct Poller {
    timeout: u64,
    mode: Mode,
    challenge: Vec<u8>,
    application: Vec<u8>,
    key_handle: Vec<u8>,
    table: DeviceTable,
    pending: Vec<DeviceEvent>,
    cursor: usize,
    phase: Phase,
    result: Option<Result<Vec<u8>, ErrorKind>>,
}

impl View for Poller {
    type V = PollerView;

    closed spec fn view(&self) -> PollerView {
        PollerView {
            timeout: self.timeout,
            mode: self.mode,
            challenge: self.challenge@,
            application: self.application@,
            key_handle: self.key_handle@,
            table: self.table@,
            pending: events_view(self.pending@),
            cursor: self.cursor as int,
            phase: self.phase,
            result: match self.result {
                Some(result) => Some(result_view(result)),
                None => None,
            },
        }
    }
}

impl Poller {
    /// The poller's invariant, which every poller made by this module has
    /// and every step keeps.
    pub open spec fn wf(&self) -> bool {
        self@.wf()
    }

    /// A poller for a register operation, in its initial state.
    ///
    /// Fails with `InvalidInput` exactly when challenge or application is
    /// not 32 bytes long.
    pub fn register(timeout: u64, challenge: Vec<u8>, application: Vec<u8>) -> (result: Result<
        Poller,
        ErrorKind,
    >)
        ensures
            valid_register_input(challenge@, application@) ==> result is Ok && result->Ok_0.wf()
                && result->Ok_0@ == PollerView::initial(
                timeout,
                Mode::Register,
                challenge@,
                application@,
                Seq::empty(),
            ),
            !valid_register_input(challenge@, application@) ==> result == Err::<Poller, ErrorKind>(
                ErrorKind::InvalidInput,
            ),
    {
        if challenge.len() != crate::protocol::PARAMETER_SIZE || application.len()
            != crate::protocol::PARAMETER_SIZE {
            return Err(ErrorKind::InvalidInput);
        }
        let poller = Poller {
            timeout,
            mode: Mode::Register,
            challenge,
            application,
            key_handle: Vec::new(),
            table: DeviceTable::new(),
            pending: Vec::new(),
            cursor: 0,
            phase: Phase::Start,
            result: None,
        };
        assert(poller@.pending =~= Seq::empty());
        assert(poller@.key_handle =~= Seq::empty());
        Ok(poller)
    }

    /// A poller for a sign operation, in its initial state.
    ///
    /// Fails with `InvalidInput` exactly when challenge or application is
    /// not 32 bytes long or the key handle is longer than 256 bytes.
    pub fn sign(
        timeout: u64,
        challenge: Vec<u8>,
        application: Vec<u8>,
        key_handle: Vec<u8>,
    ) -> (result: Result<Poller, ErrorKind>)
        ensures
            valid_sign_input(challenge@, application@, key_handle@) ==> result is Ok
                && result->Ok_0.wf() && result->Ok_0@ == PollerView::initial(
                timeout,
                Mode::Sign,
                challenge@,
                application@,
                key_handle@,
            ),
            !valid_sign_input(challenge@, application@, key_handle@) ==> result == Err::<
                Poller,
                ErrorKind,
            >(ErrorKind::InvalidInput),
    {
        if challenge.len() != crate::protocol::PARAMETER_SIZE || application.len()
            != crate::protocol::PARAMETER_SIZE || key_handle.len()
            > crate::protocol::MAX_KEY_HANDLE_SIZE {
            return Err(ErrorKind::InvalidInput);
        }
        let poller = Poller {
            timeout,
            mode: Mode::Sign,
            challenge,
            application,
            key_handle,
            table: DeviceTable::new(),
            pending: Vec::new(),
            cursor: 0,
            phase: Phase::Start,
            result: None,
        };
        assert(poller@.pending =~= Seq::empty());
        Ok(poller)
    }

    /// Milliseconds the operation may run; `0` for no limit.
    pub fn timeout(&self) -> (millis: u64)
        ensures
            millis == self@.timeout,
    {
        self.timeout
    }

    /// The operation this poller drives.
    pub fn mode(&self) -> (mode: Mode)
        ensures
            mode == self@.mode,
    {
        self.mode
    }

    /// The phase the poller is in.
    pub fn phase(&self) -> (phase: Phase)
        ensures
            phase == self@.phase,
    {
        self.phase
    }

    /// The devices currently open, in the order in which they are tried.
    pub fn devices(&self) -> (identities: Vec<DeviceIdentity>)
        ensures
            identities@.len() == self@.table.len(),
            forall|i: int|
                0 <= i < self@.table.len() ==> (#[trigger] identities@[i])@ == self@.table[i],
    {
        self.table.values()
    }

    /// The device at the cursor.
    fn current_device(&self) -> (device: DeviceIdentity)
        requires
            self.cursor < self.table@.len(),
        ensures
            device@ == self.table@[self.cursor as int],
    {
        self.table.get(self.cursor).clone()
    }

    /// The action to perform next.
    pub fn action(&self) -> (action: Action)
        requires
            self.wf(),
        ensures
            action@ == self@.action(),
    {
        match self.phase {
            Phase::Start => Action::OpenMonitor,
            Phase::CheckingLiveness => Action::CheckAlive,
            Phase::PollingMonitor => Action::PollMonitor,
            Phase::Opening => Action::OpenDevice(self.pending[self.cursor].identity().clone()),
            Phase::Closing => Action::CloseDevice(self.pending[self.cursor].identity().clone()),
            Phase::Registering | Phase::Blinking => Action::Exchange {
                device: self.current_device(),
                request: encode_register(&self.challenge, &self.application),
            },
            Phase::Checking => Action::Exchange {
                device: self.current_device(),
                request: encode_check(&self.challenge, &self.application, &self.key_handle),
            },
            Phase::Signing => Action::Exchange {
                device: self.current_device(),
                request: encode_sign(&self.challenge, &self.application, &self.key_handle),
            },
            Phase::Sleeping => Action::Sleep(POLL_INTERVAL_MS),
            Phase::Releasing => Action::CloseDevice(
                self.table.get(self.table.len() - 1).clone(),
            ),
            Phase::ClosingMonitor => Action::CloseMonitor,
            Phase::Finished => match &self.result {
                Some(Ok(bytes)) => Action::Complete(Ok(copy_bytes(bytes))),
                Some(Err(kind)) => Action::Complete(Err(*kind)),
                None => vstd::pervasive::unreached(),
            },
        }
    }

    /// Goes on to try the device at `index`, or to sleep past the end of the
    /// table.
    fn attempt_at(self, index: usize) -> (next: Poller)
        requires
            self@.valid_input(),
            self@.table.no_duplicates(),
            self@.result is None,
        ensures
            next.wf(),
            next@ == self@.attempt_at(index as int),
    {
        let mut next = self;
        next.pending = Vec::new();
        assert(events_view(next.pending@) =~= Seq::empty());
        if index < next.table.len() {
            next.cursor = index;
            next.phase = match next.mode {
                Mode::Register => Phase::Registering,
                Mode::Sign => Phase::Checking,
            };
        } else {
            next.cursor = 0;
            next.phase = Phase::Sleeping;
        }
        next
    }

    /// Goes on applying the pending events from index `from`.
    fn resume(self, from: usize) -> (next: Poller)
        requires
            self@.valid_input(),
            self@.table.no_duplicates(),
            self@.result is None,
            from <= self@.pending.len(),
        ensures
            next.wf(),
            next@ == self@.resume(from as int),
    {
        let mut at: usize = from;
        let mut found: bool = false;
        while !found && at < self.pending.len()
            invariant
                from <= at <= self.pending@.len(),
                self.table.wf(),
                next_pending(self.table@, events_view(self.pending@), at as int) == next_pending(
                    self.table@,
                    events_view(self.pending@),
                    from as int,
                ),
                found ==> at < self.pending@.len() && needs_transport(
                    self.table@,
                    self.pending@[at as int]@,
                ),
            decreases self.pending@.len() - at + (if found { 0int } else { 1int }),
        {
            let needs = match &self.pending[at] {
                DeviceEvent::Add(_) => true,
                DeviceEvent::Remove(identity) => self.table.contains(identity),
            };
            if needs {
                found = true;
            } else {
                at += 1;
            }
        }
        if found {
            let mut next = self;
            next.cursor = at;
            next.phase = match &next.pending[at] {
                DeviceEvent::Add(_) => Phase::Opening,
                DeviceEvent::Remove(_) => Phase::Closing,
            };
            next
        } else {
            self.attempt_at(0)
        }
    }

    /// Decides on `result` and starts releasing what is open.
    fn finish(self, result: Result<Vec<u8>, ErrorKind>) -> (next: Poller)
        requires
            self@.valid_input(),
            self@.table.no_duplicates(),
            self@.possible_result(result_view(result)),
        ensures
            next.wf(),
            next@ == self@.finish(result_view(result)),
    {
        let mut next = self;
        next.pending = Vec::new();
        assert(events_view(next.pending@) =~= Seq::empty());
        next.cursor = 0;
        next.phase = if next.table.len() > 0 {
            Phase::Releasing
        } else {
            Phase::ClosingMonitor
        };
        next.result = Some(result);
        next
    }

    /// Takes in what happened when the caller performed the current action
    /// and moves to the next state. An event that does not answer the
    /// current action is ignored.
    pub fn step(self, event: Event) -> (next: Poller)
        requires
            self.wf(),
        ensures
            next.wf(),
            next@ == self@.step(event@),
    {
        proof {
            self.table.lemma_len_fits();
            assert(self@.pending.len() == self.pending.len());
        }
        let mut next = self;
        match next.phase {
            Phase::Start => match event {
                Event::MonitorOpened(opened) => {
                    if opened {
                        next.phase = Phase::CheckingLiveness;
                    } else {
                        next.phase = Phase::Finished;
                        next.result = Some(Err(ErrorKind::TransportError));
                    }
                    next
                },
                _ => next,
            },
            Phase::CheckingLiveness => match event {
                Event::Liveness(Liveness::Alive) => {
                    next.phase = Phase::PollingMonitor;
                    next
                },
                Event::Liveness(Liveness::Cancelled) => next.finish(Err(ErrorKind::Cancelled)),
                Event::Liveness(Liveness::TimedOut) => next.finish(Err(ErrorKind::TimedOut)),
                _ => next,
            },
            Phase::PollingMonitor => match event {
                Event::Events(events) => {
                    next.pending = events;
                    next.resume(0)
                },
                _ => next,
            },
            Phase::Opening => match event {
                Event::Opened(opened) => {
                    let current = next.pending[next.cursor].clone();
                    next.table.apply(&current, opened);
                    let from = next.cursor + 1;
                    next.resume(from)
                },
                _ => next,
            },
            Phase::Closing => match event {
                Event::Done => {
                    let current = next.pending[next.cursor].clone();
                    next.table.apply(&current, false);
                    let from = next.cursor + 1;
                    next.resume(from)
                },
                _ => next,
            },
            Phase::Registering => match event {
                Event::Reply(bytes) => match register_result(&bytes) {
                    Ok(response) => next.finish(Ok(response)),
                    Err(_) => {
                        let index = next.cursor + 1;
                        next.attempt_at(index)
                    },
                },
                Event::ExchangeFailed => {
                    let index = next.cursor + 1;
                    next.attempt_at(index)
                },
                _ => next,
            },
            Phase::Checking => match event {
                Event::Reply(bytes) => match check_result(&bytes) {
                    Ok(true) => {
                        next.phase = Phase::Signing;
                        next
                    },
                    Ok(false) => {
                        next.phase = Phase::Blinking;
                        next
                    },
                    Err(_) => {
                        let index = next.cursor + 1;
                        next.attempt_at(index)
                    },
                },
                Event::ExchangeFailed => {
                    let index = next.cursor + 1;
                    next.attempt_at(index)
                },
                _ => next,
            },
            Phase::Signing => match event {
                Event::Reply(bytes) => match sign_result(&bytes) {
                    Ok(response) => next.finish(Ok(response)),
                    Err(_) => {
                        let index = next.cursor + 1;
                        next.attempt_at(index)
                    },
                },
                Event::ExchangeFailed => {
                    let index = next.cursor + 1;
                    next.attempt_at(index)
                },
                _ => next,
            },
            Phase::Blinking => match event {
                Event::Reply(bytes) => match register_result(&bytes) {
                    Ok(_) => next.finish(Err(ErrorKind::InvalidKey)),
                    Err(_) => {
                        let index = next.cursor + 1;
                        next.attempt_at(index)
                    },
                },
                Event::ExchangeFailed => {
                    let index = next.cursor + 1;
                    next.attempt_at(index)
                },
                _ => next,
            },
            Phase::Sleeping => match event {
                Event::Done => {
                    next.phase = Phase::CheckingLiveness;
                    next
                },
                _ => next,
            },
            Phase::Releasing => match event {
                Event::Done => {
                    let last = next.table.get(next.table.len() - 1).clone();
                    next.table.apply(&DeviceEvent::Remove(last), false);
                    next.phase = if next.table.len() > 0 {
                        Phase::Releasing
                    } else {
                        Phase::ClosingMonitor
                    };
                    next
                },
                _ => next,
            },
            Phase::ClosingMonitor => match event {
                Event::Done => {
                    next.phase = Phase::Finished;
                    next
                },
                _ => next,
            },
            Phase::Finished => next,
        }
    }
}

} // verus!
