//! The slot that tracks the supervised process, and the decisions taken on
//! startup and on window close.
//!
//! `H` is the caller's handle to a running process. The supervisor never
//! looks inside it: it keeps at most one, and hands it back exactly once,
//! when the process is to be terminated.

use vstd::prelude::*;
use crate::error::ProcessSpawnError;

verus! {

/// What is known of the supervised process.
///
/// A handle is held in `Started` and nowhere else, so at most one is
/// tracked at a time.
pub enum SupervisedProcess<H> {
    /// Nothing has been settled yet.
    NotAttempted,
    /// The process was launched here, and this is its handle.
    Started(H),
    /// The port was taken: a server runs that somebody else manages.
    SkippedExternal,
    /// The handle has been given up for termination.
    Terminated,
}

impl<H> SupervisedProcess<H> {
    /// The handle that is tracked, if any.
    pub open spec fn held(self) -> Option<H> {
        match self {
            SupervisedProcess::Started(handle) => Some(handle),
            _ => None,
        }
    }

    /// Whether a launch is called for, given the outcome of the port probe.
    pub open spec fn wants_launch(self, port_free: bool) -> bool {
        self is NotAttempted && port_free
    }

    /// The state after the port probe has been evaluated.
    pub open spec fn after_probe(self, port_free: bool) -> Self {
        if self is NotAttempted && !port_free {
            SupervisedProcess::SkippedExternal
        } else {
            self
        }
    }

    /// The state after a launch has produced `handle`.
    pub open spec fn after_launch(self, handle: H) -> Self {
        if self is NotAttempted {
            SupervisedProcess::Started(handle)
        } else {
            self
        }
    }

    /// The handle to terminate when the window closes, if any.
    pub open spec fn close_request(self) -> Option<H> {
        self.held()
    }

    /// The state after the window has closed.
    pub open spec fn after_close(self) -> Self {
        if self is Started {
            SupervisedProcess::Terminated
        } else {
            self
        }
    }

    /// The termination requests that `closes` window-close events in a row
    /// give rise to, in order.
    pub open spec fn close_requests(self, closes: nat) -> Seq<H>
        decreases closes,
    {
        if closes == 0 {
            Seq::empty()
        } else {
            let first = match self.close_request() {
                Some(handle) => seq![handle],
                None => Seq::empty(),
            };
            first + self.after_close().close_requests((closes - 1) as nat)
        }
    }
}

/// What the caller is to do after the port probe.
#[derive(Clone, Copy, Debug, PartialEq, Eq, Structural)]
pub enum AcquireStep {
    /// Launch the bundled server and report the outcome.
    Launch,
    /// Launch nothing.
    Skip,
}

/// Owner of the one slot for the supervised process.
pub struct ServerSupervisor<H> {
    process: SupervisedProcess<H>,
}

impl<H> View for ServerSupervisor<H> {
    type V = SupervisedProcess<H>;

    closed spec fn view(&self) -> SupervisedProcess<H> {
        self.process
    }
}

impl<H> ServerSupervisor<H> {
    /// A supervisor for which nothing has been settled.
    pub fn new() -> (supervisor: Self)
        ensures
            supervisor@ is NotAttempted,
    {
        ServerSupervisor { process: SupervisedProcess::NotAttempted }
    }

    /// Evaluates the port probe made at startup.
    ///
    /// A free port on a fresh supervisor calls for a launch, the outcome of
    /// which goes to `record_launch`. A taken port on a fresh supervisor
    /// means that a server is already running: the slot is marked as
    /// skipped. A supervisor that is no longer fresh is left as it is.
    pub fn acquire_or_skip(&mut self, port_free: bool) -> (step: AcquireStep)
        ensures
            final(self)@ == old(self)@.after_probe(port_free),
            step == (if old(self)@.wants_launch(port_free) {
                AcquireStep::Launch
            } else {
                AcquireStep::Skip
            }),
    {
        match &self.process {
            SupervisedProcess::NotAttempted => {
                if port_free {
                    AcquireStep::Launch
                } else {
                    self.process = SupervisedProcess::SkippedExternal;
                    AcquireStep::Skip
                }
            },
            _ => AcquireStep::Skip,
        }
    }

    /// Takes in the outcome of the launch.
    ///
    /// A failure is handed on and changes nothing. A handle is tracked if
    /// nothing has been settled yet; otherwise it comes back to the caller
    /// untouched, so that the handle tracked so far is never replaced.
    pub fn record_launch(&mut self, outcome: Result<H, ProcessSpawnError>) -> (res: Result<
        Option<H>,
        ProcessSpawnError,
    >)
        ensures
            match outcome {
                Ok(handle) => {
                    &&& final(self)@ == old(self)@.after_launch(handle)
                    &&& res == Ok::<Option<H>, ProcessSpawnError>(
                        if old(self)@ is NotAttempted {
                            None
                        } else {
                            Some(handle)
                        },
                    )
                },
                Err(error) => {
                    &&& final(self)@ == old(self)@
                    &&& res == Err::<Option<H>, ProcessSpawnError>(error)
                },
            },
    {
        match outcome {
            Ok(handle) => {
                match &self.process {
                    SupervisedProcess::NotAttempted => {
                        self.process = SupervisedProcess::Started(handle);
                        Ok(None)
                    },
                    _ => Ok(Some(handle)),
                }
            },
            Err(error) => Err(error),
        }
    }

    /// Reacts to the window's close request: gives up the tracked handle,
    /// which the caller is to terminate at once without waiting for it.
    ///
    /// Without a tracked handle there is nothing to terminate and nothing
    /// changes.
    pub fn on_window_close(&mut self) -> (request: Option<H>)
        ensures
            request == old(self)@.close_request(),
            final(self)@ == old(self)@.after_close(),
    {
        match &self.process {
            SupervisedProcess::Started(_) => {
                let mut taken = SupervisedProcess::Terminated;
                core::mem::swap(&mut self.process, &mut taken);
                match taken {
                    SupervisedProcess::Started(handle) => Some(handle),
                    _ => None,
                }
            },
            _ => None,
        }
    }

    /// Whether a handle is tracked.
    pub fn is_tracking(&self) -> (tracking: bool)
        ensures
            tracking == self@.held().is_some(),
    {
        match &self.process {
            SupervisedProcess::Started(_) => true,
            _ => false,
        }
    }

    /// Whether the launch was skipped because a server was already there.
    pub fn is_skipped(&self) -> (skipped: bool)
        ensures
            skipped == (self@ is SkippedExternal),
    {
        match &self.process {
            SupervisedProcess::SkippedExternal => true,
            _ => false,
        }
    }

    /// Whether the tracked handle has been given up for termination.
    pub fn is_terminated(&self) -> (terminated: bool)
        ensures
            terminated == (self@ is Terminated),
    {
        match &self.process {
            SupervisedProcess::Terminated => true,
            _ => false,
        }
    }

    /// Whether nothing has been settled yet.
    pub fn is_fresh(&self) -> (fresh: bool)
        ensures
            fresh == (self@ is NotAttempted),
    {
        match &self.process {
            SupervisedProcess::NotAttempted => true,
            _ => false,
        }
    }
}

} // verus!
