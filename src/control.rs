use vstd::prelude::*;
use vstd::string::StrSliceExecFns;

verus! {

/// Length of one reconnect cycle at the least, in milliseconds.
pub const CONNECT_TIMEOUT: u64 = 18_000;

/// Outcome of trying to take the mismatch guard for `host` when it names `solver`.
pub open spec fn may_solve(solver: Seq<char>, host: Seq<char>) -> bool {
    solver.len() == 0 || solver == host
}

/// Names the one host that is recovering from a key mismatch; empty when none is.
pub struct PkMismatchGuard {
    pub solver: String,
}

impl PkMismatchGuard {
    pub fn new() -> (r: Self)
        ensures
            r.solver@.len() == 0,
    {
        PkMismatchGuard { solver: String::new() }
    }

    /// Whether `host` may recover now: the guard is free or already its own.
    pub fn allows(&self, host: &String) -> (r: bool)
        ensures
            r == may_solve(self.solver@, host@),
    {
        self.solver.as_str().unicode_len() == 0 || self.solver == *host
    }

    /// Takes the guard for `host` if it may; a host that may not leaves it as it was.
    pub fn try_acquire(&mut self, host: &String) -> (r: bool)
        ensures
            r == may_solve(old(self).solver@, host@),
            r ==> final(self).solver@ == host@,
            !r ==> final(self).solver@ == old(self).solver@,
    {
        if self.allows(host) {
            self.solver = host.clone();
            true
        } else {
            false
        }
    }

    /// Frees the guard, on key confirmation or at the start of a cycle.
    pub fn clear(&mut self)
        ensures
            final(self).solver@.len() == 0,
    {
        self.solver = String::new();
    }
}

/// Of two different hosts that race for a free guard, the first proceeds and the
/// second is turned away until the guard is cleared.
pub proof fn lemma_guard_single_flight(a: Seq<char>, b: Seq<char>)
    requires
        a != b,
        a.len() > 0,
    ensures
        may_solve(Seq::empty(), a),
        !may_solve(a, b),
        may_solve(Seq::empty(), b),
{
}

/// Process-wide flags that steer the reconnect cycle.
pub struct ControlFlags {
    /// Every registration loop ends at its next timer tick.
    pub should_exit: bool,
    /// The restart came from an operator: skip the cool-down.
    pub manual_restarted: bool,
}

impl ControlFlags {
    pub fn new() -> (r: Self)
        ensures
            !r.should_exit,
            !r.manual_restarted,
    {
        ControlFlags { should_exit: false, manual_restarted: false }
    }

    /// Restart every registration loop now.
    pub fn restart(&mut self)
        ensures
            final(self).should_exit,
            final(self).manual_restarted,
    {
        self.should_exit = true;
        self.manual_restarted = true;
    }

    /// Reset at the top of each cycle, before the loops start.
    pub fn reset(&mut self)
        ensures
            !final(self).should_exit,
            !final(self).manual_restarted,
    {
        self.should_exit = false;
        self.manual_restarted = false;
    }

    /// One host's loop has ended, by failure or otherwise: the others follow.
    pub fn host_exited(&mut self)
        ensures
            final(self).should_exit,
            final(self).manual_restarted == old(self).manual_restarted,
    {
        self.should_exit = true;
    }
}

pub open spec fn servers_view(v: Seq<String>) -> Seq<Seq<char>> {
    v.map_values(|s: String| s@)
}

/// Whether two server lists differ.
pub fn servers_differ(a: &Vec<String>, b: &Vec<String>) -> (r: bool)
    ensures
        r == (servers_view(a@) != servers_view(b@)),
{
    if a.len() != b.len() {
        assert(servers_view(a@).len() != servers_view(b@).len());
        return true;
    }
    let mut i: usize = 0;
    while i < a.len()
        invariant
            i <= a.len() == b.len(),
            forall|j: int| 0 <= j < i ==> #[trigger] a@[j]@ == b@[j]@,
        decreases a.len() - i,
    {
        if a[i] != b[i] {
            assert(servers_view(a@)[i as int] != servers_view(b@)[i as int]);
            return true;
        }
        i = i + 1;
    }
    assert(servers_view(a@) =~= servers_view(b@));
    false
}

/// A pushed server list restarts everything exactly when it differs from the current one.
pub fn handle_configure_update(
    flags: &mut ControlFlags,
    current: &Vec<String>,
    pushed: &Vec<String>,
) -> (r: bool)
    ensures
        r == (servers_view(current@) != servers_view(pushed@)),
        r ==> final(flags).should_exit && final(flags).manual_restarted,
        !r ==> *final(flags) == *old(flags),
{
    if servers_differ(current, pushed) {
        flags.restart();
        true
    } else {
        false
    }
}

/// Whole seconds to wait after a cycle that lasted `elapsed_ms`, so that a cycle
/// takes at least CONNECT_TIMEOUT unless it was restarted by hand. The wait is
/// rounded up, and never a whole second longer than needed.
pub fn cycle_cooldown_secs(elapsed_ms: u64, manual_restarted: bool) -> (r: u64)
    ensures
        !manual_restarted && elapsed_ms < CONNECT_TIMEOUT ==> elapsed_ms + r * 1000
            >= CONNECT_TIMEOUT && elapsed_ms + r * 1000 < CONNECT_TIMEOUT + 1000,
        manual_restarted || elapsed_ms >= CONNECT_TIMEOUT ==> r == 0,
{
    if !manual_restarted && elapsed_ms < CONNECT_TIMEOUT {
        (CONNECT_TIMEOUT - elapsed_ms + 999) / 1000
    } else {
        0
    }
}

/// Starts a reconnect cycle: frees the mismatch guard and resets the flags.
pub fn begin_cycle(flags: &mut ControlFlags, guard: &mut PkMismatchGuard)
    ensures
        final(guard).solver@.len() == 0,
        !final(flags).should_exit,
        !final(flags).manual_restarted,
{
    guard.clear();
    flags.reset();
}

/// What the direct-access listener does next.
#[derive(PartialEq, Eq, Structural)]
pub enum DirectStep {
    /// Start listening on this port.
    Listen(i32),
    /// Stop listening: disabled, or the port changed.
    Close,
    /// Wait for one inbound connection.
    Accept,
    /// Nothing to do for a while.
    Idle,
}

/// One round of the direct-access loop: `listening` on `port` or not, `disabled`
/// by configuration, `wanted` the port configured now.
pub fn direct_server_step(listening: bool, port: i32, disabled: bool, wanted: i32) -> (r: DirectStep)
    ensures
        r == if !listening {
            if disabled {
                DirectStep::Idle
            } else {
                DirectStep::Listen(wanted)
            }
        } else if disabled || port != wanted {
            DirectStep::Close
        } else {
            DirectStep::Accept
        },
{
    if !listening {
        if disabled {
            DirectStep::Idle
        } else {
            DirectStep::Listen(wanted)
        }
    } else if disabled || port != wanted {
        DirectStep::Close
    } else {
        DirectStep::Accept
    }
}

} // verus!
