//! The manager a host application talks to.
//!
//! It checks the sizes of what the caller supplies and forwards to the
//! platform manager. It performs no I/O.

use vstd::prelude::*;
use runloop::RunLoop;
use crate::error::ErrorKind;
use crate::platform::PlatformManager;
use crate::poll::{Mode, Poller, PollerView};
use crate::protocol::{valid_register_input, valid_sign_input};
use crate::protocol::{MAX_KEY_HANDLE_SIZE, PARAMETER_SIZE};

verus! {

/// Starts and cancels register and sign operations, one at a time.
pub struct U2FManager {
    platform: PlatformManager,
}

impl U2FManager {
    /// The run loop the manager holds, if any.
    pub closed spec fn run_loop(&self) -> Option<RunLoop> {
        self.platform.run_loop()
    }

    /// Whether the manager holds the run loop of an operation.
    pub open spec fn active(&self) -> bool {
        self.run_loop() is Some
    }

    /// A manager with no operation.
    pub fn new() -> (manager: Self)
        ensures
            !manager.active(),
    {
        U2FManager { platform: PlatformManager::new() }
    }

    /// Starts a register operation and returns its state machine.
    ///
    /// Fails with `InvalidInput` exactly when challenge or application is
    /// not 32 bytes long; then nothing is started and the manager, with the
    /// operation it may be running, is left as it was. Otherwise the
    /// operation that is running, if any, is cancelled first.
    pub fn register(&mut self, timeout: u64, challenge: Vec<u8>, application: Vec<u8>) -> (result:
        Result<Poller, ErrorKind>)
        ensures
            valid_register_input(challenge@, application@) ==> !final(self).active() && result is Ok
                && result->Ok_0.wf() && result->Ok_0@ == PollerView::initial(
                timeout,
                Mode::Register,
                challenge@,
                application@,
                Seq::empty(),
            ),
            !valid_register_input(challenge@, application@) ==> *final(self) == *old(self)
                && result == Err::<Poller, ErrorKind>(ErrorKind::InvalidInput),
    {
        if challenge.len() != PARAMETER_SIZE || application.len() != PARAMETER_SIZE {
            return Err(ErrorKind::InvalidInput);
        }
        self.platform.register(timeout, challenge, application)
    }

    /// Starts a sign operation and returns its state machine.
    ///
    /// Fails with `InvalidInput` exactly when challenge or application is
    /// not 32 bytes long or the key handle is longer than 256 bytes; then
    /// nothing is started and the manager, with the operation it may be
    /// running, is left as it was. Otherwise the operation that is running,
    /// if any, is cancelled first.
    pub fn sign(
        &mut self,
        timeout: u64,
        challenge: Vec<u8>,
        application: Vec<u8>,
        key_handle: Vec<u8>,
    ) -> (result: Result<Poller, ErrorKind>)
        ensures
            valid_sign_input(challenge@, application@, key_handle@) ==> !final(self).active()
                && result is Ok && result->Ok_0.wf() && result->Ok_0@ == PollerView::initial(
                timeout,
                Mode::Sign,
                challenge@,
                application@,
                key_handle@,
            ),
            !valid_sign_input(challenge@, application@, key_handle@) ==> *final(self) == *old(self)
                && result == Err::<Poller, ErrorKind>(ErrorKind::InvalidInput),
    {
        if challenge.len() != PARAMETER_SIZE || application.len() != PARAMETER_SIZE {
            return Err(ErrorKind::InvalidInput);
        }
        if key_handle.len() > MAX_KEY_HANDLE_SIZE {
            return Err(ErrorKind::InvalidInput);
        }
        self.platform.sign(timeout, challenge, application, key_handle)
    }

    /// Takes over the run loop that drives the operation started last.
    pub fn attach(&mut self, run_loop: RunLoop)
        ensures
            final(self).run_loop() == Some(run_loop),
    {
        self.platform.attach(run_loop);
    }

    /// Cancels the running operation and waits for its worker to end. With
    /// no operation running this does nothing and returns at once.
    pub fn cancel(&mut self)
        ensures
            !final(self).active(),
            !old(self).active() ==> *final(self) == *old(self),
    {
        self.platform.cancel();
    }
}

} // verus!
