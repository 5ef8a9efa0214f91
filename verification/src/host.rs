//! The host session controller: decides, once per process lifetime, whether
//! this process also runs the authoritative relay, and stands up the host
//! transport at most once. The one-time side effect is guarded by an
//! explicit state machine, not a boolean pair, so a second initialization
//! attempt is structurally impossible rather than handled at run time.
use vstd::prelude::*;

verus! {

/// How far the one-time host transport setup has come.
#[derive(Clone, Copy, Debug, PartialEq, Eq, Structural)]
pub enum HostInitPhase {
    /// No transport exists and none is being created.
    Uninitialized,
    /// This tick is creating the transport.
    Initializing,
    /// The transport exists; it is never created again.
    Ready,
}

/// The process-wide session role: whether this process is the session's host,
/// set once before the first tick and never reset, and how far its one-time
/// transport setup has come.
#[derive(Clone, Copy, Debug, PartialEq, Eq, Structural)]
pub struct HostState {
    pub is_host: bool,
    pub phase: HostInitPhase,
}

impl Default for HostState {
    /// A process starts as an ordinary client with no host transport.
    fn default() -> (r: Self)
        ensures
            r.is_host == false,
            r.phase == HostInitPhase::Uninitialized,
    {
        HostState { is_host: false, phase: HostInitPhase::Uninitialized }
    }
}

/// The state and decision of one relay tick's initialization check: the
/// transport is to be created exactly when the process is the host and setup
/// has never begun, and setup moves directly to `Ready`.
pub open spec fn host_tick_spec(s: HostState) -> (HostState, bool) {
    let create = s.is_host && s.phase is Uninitialized;
    (
        HostState {
            is_host: s.is_host,
            phase: if create {
                HostInitPhase::Ready
            } else {
                s.phase
            },
        },
        create,
    )
}

impl HostState {
    /// Claims the one-time setup: reports whether this caller must create
    /// the host transport now, and if so moves setup to `Initializing` so no
    /// later tick can claim it again.
    pub fn begin_host_init(&mut self) -> (start: bool)
        ensures
            start == (old(self).is_host && old(self).phase is Uninitialized),
            final(self).is_host == old(self).is_host,
            final(self).phase == if start {
                HostInitPhase::Initializing
            } else {
                old(self).phase
            },
    {
        let start = self.is_host && matches!(self.phase, HostInitPhase::Uninitialized);
        if start {
            self.phase = HostInitPhase::Initializing;
        }
        start
    }

    /// Records that the transport the claimed setup created is in place.
    pub fn complete_host_init(&mut self)
        requires
            old(self).phase is Initializing,
        ensures
            final(self).is_host == old(self).is_host,
            final(self).phase is Ready,
    {
        self.phase = HostInitPhase::Ready;
    }

    /// One relay tick's initialization step, as [`host_tick_spec`] states:
    /// returns whether the caller must create the host transport during this
    /// tick, and never returns true twice in a process lifetime.
    pub fn host_tick(&mut self) -> (create: bool)
        ensures
            (*final(self), create) == host_tick_spec(*old(self)),
    {
        let create = self.begin_host_init();
        if create {
            self.complete_host_init();
        }
        create
    }
}

/// How often initialization fires over `n` consecutive ticks from state
/// `s`.
pub open spec fn init_count(s: HostState, n: nat) -> nat
    decreases n,
{
    if n == 0 {
        0
    } else {
        let stepped = host_tick_spec(s);
        (if stepped.1 {
            1nat
        } else {
            0nat
        }) + init_count(stepped.0, (n - 1) as nat)
    }
}

/// Host one-shot initialization: over any number of consecutive ticks the
/// transport is created at most once; exactly once when the process is the
/// host, starts uninitialized, and ticks at least once; and never when it is
/// not the host or setup already began.
pub proof fn lemma_host_one_shot(s: HostState, n: nat)
    ensures
        init_count(s, n) <= 1,
        s.is_host && s.phase is Uninitialized && n >= 1 ==> init_count(s, n) == 1,
        !(s.is_host && s.phase is Uninitialized) ==> init_count(s, n) == 0,
    decreases n,
{
    if n > 0 {
        let stepped = host_tick_spec(s);
        lemma_host_one_shot(stepped.0, (n - 1) as nat);
    }
}

} // verus!
