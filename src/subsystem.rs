use vstd::prelude::*;

use crate::error::HyperVError;

verus! {

/// Where the management runtime of one thread stands.
#[derive(Debug, Clone, Copy, PartialEq, Eq, Structural)]
pub enum Phase {
    /// Nothing has been initialised yet.
    Uninitialized,
    /// The runtime is initialised; its security posture is not configured.
    RuntimeUp,
    /// The runtime is initialised and configured: sessions may be opened.
    Ready,
    /// The handle has been released; nothing may touch the runtime.
    Released,
}

/// The abstract state of a [`Subsystem`].
pub struct Lifecycle {
    pub phase: Phase,
    /// Whether the runtime's initialisation ever succeeded.
    pub initialized: bool,
    /// How many times a teardown of the runtime was ordered.
    pub teardowns: nat,
}

/// The states that the operations of [`Subsystem`] can reach.
pub open spec fn lifecycle_wf(v: Lifecycle) -> bool {
    match v.phase {
        Phase::Uninitialized => !v.initialized && v.teardowns == 0,
        Phase::RuntimeUp | Phase::Ready => v.initialized && v.teardowns == 0,
        Phase::Released => v.teardowns == (if v.initialized { 1nat } else { 0nat }),
    }
}

/// Whether releasing in this state must tear the runtime down.
pub open spec fn needs_teardown(v: Lifecycle) -> bool {
    v.phase is RuntimeUp || v.phase is Ready
}

/// The state after a release.
pub open spec fn after_release(v: Lifecycle) -> Lifecycle {
    Lifecycle {
        phase: Phase::Released,
        initialized: v.initialized,
        teardowns: if needs_teardown(v) { v.teardowns + 1 } else { v.teardowns },
    }
}

/// The state after `n` releases in a row.
pub open spec fn released_times(v: Lifecycle, n: nat) -> Lifecycle
    decreases n,
{
    if n == 0 {
        v
    } else {
        after_release(released_times(v, (n - 1) as nat))
    }
}

/// The lifecycle of the process-wide management runtime, as seen from the
/// thread that owns it.
///
/// The caller makes the native calls and reports their status here; the
/// subsystem decides what follows. [`Subsystem::release`] says whether the
/// runtime must be torn down, and does so at most once: a caller that
/// releases on every exit path (a `Drop`) tears down exactly once whenever
/// initialisation got far enough to need it.
pub struct Subsystem {
    phase: Phase,
    initialized: Ghost<bool>,
    teardowns: Ghost<nat>,
}

impl View for Subsystem {
    type V = Lifecycle;

    closed spec fn view(&self) -> Lifecycle {
        Lifecycle { phase: self.phase, initialized: self.initialized@, teardowns: self.teardowns@ }
    }
}

impl Subsystem {
    /// A subsystem on which nothing has been initialised.
    pub fn new() -> (r: Subsystem)
        ensures
            r@ == (Lifecycle { phase: Phase::Uninitialized, initialized: false, teardowns: 0 }),
            lifecycle_wf(r@),
    {
        Subsystem { phase: Phase::Uninitialized, initialized: Ghost(false), teardowns: Ghost(0) }
    }

    /// The current phase.
    pub fn phase(&self) -> (r: Phase)
        ensures
            r == self@.phase,
    {
        self.phase
    }

    /// Records the status of the runtime's initialisation.
    ///
    /// Allowed only before anything was initialised; in any other phase
    /// nothing changes and the call fails with `SubsystemUnavailable`.
    pub fn runtime_started(&mut self, status: Result<(), i32>) -> (r: Result<(), HyperVError>)
        ensures
            lifecycle_wf(old(self)@) ==> lifecycle_wf(final(self)@),
            old(self)@.phase is Uninitialized ==> match status {
                Ok(_) => {
                    &&& r is Ok
                    &&& final(self)@ == (Lifecycle {
                        phase: Phase::RuntimeUp,
                        initialized: true,
                        teardowns: old(self)@.teardowns,
                    })
                },
                Err(c) => {
                    &&& r == Err::<(), HyperVError>(HyperVError::Initialization(c))
                    &&& final(self)@ == old(self)@
                },
            },
            !(old(self)@.phase is Uninitialized) ==> {
                &&& r == Err::<(), HyperVError>(HyperVError::SubsystemUnavailable)
                &&& final(self)@ == old(self)@
            },
    {
        match self.phase {
            Phase::Uninitialized => match status {
                Ok(_) => {
                    self.phase = Phase::RuntimeUp;
                    self.initialized = Ghost(true);
                    Ok(())
                },
                Err(c) => Err(HyperVError::Initialization(c)),
            },
            _ => Err(HyperVError::SubsystemUnavailable),
        }
    }

    /// Records the status of the security configuration.
    ///
    /// Allowed only once the runtime is up. When the configuration fails the
    /// runtime stays up, so that the release that follows tears it down.
    pub fn security_configured(&mut self, status: Result<(), i32>) -> (r: Result<
        (),
        HyperVError,
    >)
        ensures
            lifecycle_wf(old(self)@) ==> lifecycle_wf(final(self)@),
            old(self)@.phase is RuntimeUp ==> match status {
                Ok(_) => {
                    &&& r is Ok
                    &&& final(self)@ == (Lifecycle { phase: Phase::Ready, ..old(self)@ })
                },
                Err(c) => {
                    &&& r == Err::<(), HyperVError>(HyperVError::Initialization(c))
                    &&& final(self)@ == old(self)@
                },
            },
            !(old(self)@.phase is RuntimeUp) ==> {
                &&& r == Err::<(), HyperVError>(HyperVError::SubsystemUnavailable)
                &&& final(self)@ == old(self)@
            },
    {
        match self.phase {
            Phase::RuntimeUp => match status {
                Ok(_) => {
                    self.phase = Phase::Ready;
                    Ok(())
                },
                Err(c) => Err(HyperVError::Initialization(c)),
            },
            _ => Err(HyperVError::SubsystemUnavailable),
        }
    }

    /// Succeeds exactly when the runtime is ready for use; every operation
    /// that touches the runtime asks this first.
    pub fn ensure_ready(&self) -> (r: Result<(), HyperVError>)
        ensures
            self@.phase is Ready ==> r is Ok,
            !(self@.phase is Ready) ==> r == Err::<(), HyperVError>(
                HyperVError::SubsystemUnavailable,
            ),
    {
        match self.phase {
            Phase::Ready => Ok(()),
            _ => Err(HyperVError::SubsystemUnavailable),
        }
    }

    /// Releases the handle. Returns whether the caller must now tear the
    /// runtime down: only when it was initialised and not yet released.
    pub fn release(&mut self) -> (teardown: bool)
        ensures
            lifecycle_wf(old(self)@) ==> lifecycle_wf(final(self)@),
            final(self)@ == after_release(old(self)@),
            teardown == needs_teardown(old(self)@),
    {
        let teardown = match self.phase {
            Phase::RuntimeUp | Phase::Ready => true,
            _ => false,
        };
        if teardown {
            self.teardowns = Ghost(self.teardowns@ + 1);
        }
        self.phase = Phase::Released;
        teardown
    }
}

/// Releasing tears the runtime down exactly once, however often release is
/// asked for, once its initialisation succeeded, whether or not a session
/// was ever opened; a runtime whose initialisation failed is never torn down.
pub proof fn lemma_teardown_exactly_once(v: Lifecycle, n: nat)
    requires
        lifecycle_wf(v),
        n >= 1,
    ensures
        released_times(v, n).phase is Released,
        released_times(v, n).teardowns == (if v.initialized { 1nat } else { 0nat }),
    decreases n,
{
    if n > 1 {
        lemma_teardown_exactly_once(v, (n - 1) as nat);
    } else {
        assert(released_times(v, 0) == v);
    }
}

/// Once released, the runtime refuses every further use, however often
/// release was asked for.
pub proof fn lemma_released_refuses_use(v: Lifecycle, n: nat)
    requires
        n >= 1,
    ensures
        !(released_times(v, n).phase is Ready),
{
}

} // verus!
