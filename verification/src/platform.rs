//! The platform manager: the owner of the one run loop that may be active.
//!
//! An operation runs on a worker thread inside a `runloop::RunLoop`. The
//! manager holds the run loop of the operation that was started last and
//! cancels it, waiting for its worker to end, before it hands out the state
//! machine of the next operation. So the workers of two operations of one
//! manager never run at the same time.
//!
//! Starting an operation takes two calls. `register` or `sign` ends the
//! previous operation and returns the new operation's `Poller`; the caller
//! spawns a run loop whose worker drives that poller and gives the run loop
//! to `attach`.

use vstd::prelude::*;
use runloop::RunLoop;
use crate::error::ErrorKind;
use crate::poll::{Mode, Poller, PollerView};
use crate::protocol::{valid_register_input, valid_sign_input};

verus! {

/// `runloop::RunLoop`: the handle of a worker thread that can be cancelled.
/// Nothing of its inside is visible here.
#[verifier::external_type_specification]
#[verifier::external_body]
pub struct ExRunLoop(runloop::RunLoop);

/// `RunLoop::cancel` clears the loop's liveness flag and joins the worker
/// thread, so it returns only when the worker has ended, which a worker does
/// that looks at its liveness check; on a loop whose worker is gone already
/// it does nothing. It reports nothing, so nothing is claimed of it.
pub assume_specification[ RunLoop::cancel ](run_loop: &RunLoop)
;

/// Keeps at most one operation running. A manager that is dropped leaves
/// its run loop to itself: call `cancel` before letting go of it.
pub struct PlatformManager {
    thread: Option<RunLoop>,
}

impl PlatformManager {
    /// The run loop the manager holds, if any.
    pub closed spec fn run_loop(&self) -> Option<RunLoop> {
        self.thread
    }

    /// Whether the manager holds the run loop of an operation.
    pub open spec fn active(&self) -> bool {
        self.run_loop() is Some
    }

    /// A manager with no operation.
    pub fn new() -> (manager: Self)
        ensures
            !manager.active(),
    {
        PlatformManager { thread: None }
    }

    /// Starts a register operation: first cancels the operation that is
    /// running, if any, and waits for its worker to end; then returns the
    /// state machine of the new operation.
    ///
    /// Fails with `InvalidInput` exactly when challenge or application is
    /// not 32 bytes long. The previous operation is cancelled either way.
    pub fn register(&mut self, timeout: u64, challenge: Vec<u8>, application: Vec<u8>) -> (result:
        Result<Poller, ErrorKind>)
        ensures
            !final(self).active(),
            valid_register_input(challenge@, application@) ==> result is Ok && result->Ok_0.wf()
                && result->Ok_0@ == PollerView::initial(
                timeout,
                Mode::Register,
                challenge@,
                application@,
                Seq::empty(),
            ),
            !valid_register_input(challenge@, application@) ==> result == Err::<Poller, ErrorKind>(
                ErrorKind::InvalidInput,
            ),
    {
        self.cancel();
        Poller::register(timeout, challenge, application)
    }

    /// Starts a sign operation: first cancels the operation that is running,
    /// if any, and waits for its worker to end; then returns the state
    /// machine of the new operation.
    ///
    /// Fails with `InvalidInput` exactly when challenge or application is
    /// not 32 bytes long or the key handle is longer than 256 bytes. The
    /// previous operation is cancelled either way.
    pub fn sign(
        &mut self,
        timeout: u64,
        challenge: Vec<u8>,
        application: Vec<u8>,
        key_handle: Vec<u8>,
    ) -> (result: Result<Poller, ErrorKind>)
        ensures
            !final(self).active(),
            valid_sign_input(challenge@, application@, key_handle@) ==> result is Ok
                && result->Ok_0.wf() && result->Ok_0@ == PollerView::initial(
                timeout,
                Mode::Sign,
                challenge@,
                application@,
                key_handle@,
            ),
            !valid_sign_input(challenge@, application@, key_handle@) ==> result == Err::<
                Poller,
                ErrorKind,
            >(ErrorKind::InvalidInput),
    {
        self.cancel();
        Poller::sign(timeout, challenge, application, key_handle)
    }

    /// Takes over the run loop that drives the operation started last. A
    /// run loop the manager still holds is cancelled first.
    pub fn attach(&mut self, run_loop: RunLoop)
        ensures
            final(self).run_loop() == Some(run_loop),
    {
        self.cancel();
        self.thread = Some(run_loop);
    }

    /// Cancels the running operation and waits for its worker to end. With
    /// no operation running this does nothing and returns at once. This is
    /// the one call that may block.
    pub fn cancel(&mut self)
        ensures
            !final(self).active(),
            !old(self).active() ==> *final(self) == *old(self),
    {
        if let Some(thread) = self.thread.take() {
            thread.cancel();
        }
    }
}

} // verus!
