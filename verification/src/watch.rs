//! What keeps an eye on the rest of the program.

use vstd::prelude::*;

verus! {

/// How long an interruption may go without being acknowledged, in milliseconds.
pub const CTRL_C_ACK_MAX_WAIT_MS: u64 = 5000;

/// How close together interruptions have to come to count as a burst.
pub const CTRL_C_BURST_PERIOD_MS: u64 = 1000;

/// How many interruptions make a burst.
pub const CTRL_C_BURST_AMOUNT: u8 = 3;

/// Why the program has to be ended from outside.
#[derive(Clone, Copy, Debug, PartialEq, Eq, Structural)]
pub enum ForceExit {
    /// An interruption went unheard for too long.
    Unacknowledged,
    /// Several interruptions in a short time went unheard.
    Burst,
}

/// The interruptions that have not been acknowledged: how many, and when the first
/// one came.
#[derive(Clone, Copy, Debug)]
pub struct InterruptWatch {
    pub pending: Option<(u8, u64)>,
}

impl InterruptWatch {
    /// With one more interruption.
    pub open spec fn interrupted_at(self, now: u64) -> (u8, u64) {
        match self.pending {
            Some((count, since)) => (
                if count < u8::MAX {
                    (count + 1) as u8
                } else {
                    u8::MAX
                },
                since,
            ),
            None => (1, now),
        }
    }

    /// Nothing pending.
    pub fn new() -> (r: InterruptWatch)
        ensures
            r.pending is None,
    {
        InterruptWatch { pending: None }
    }

    /// Notes an acknowledgement.
    pub fn acknowledge(&mut self)
        ensures
            final(self).pending is None,
    {
        self.pending = None;
    }

    /// Notes an interruption. The program has to be ended if the first one has been
    /// waiting for too long, or if a burst of them came at once.
    pub fn interrupt(&mut self, now: u64) -> (r: Option<ForceExit>)
        ensures
            final(self).pending == Some(old(self).interrupted_at(now)),
            ({
                let (count, since) = old(self).interrupted_at(now);
                r == (if now - since > CTRL_C_ACK_MAX_WAIT_MS {
                    Some(ForceExit::Unacknowledged)
                } else if now - since <= CTRL_C_BURST_PERIOD_MS && count >= CTRL_C_BURST_AMOUNT {
                    Some(ForceExit::Burst)
                } else {
                    None
                })
            }),
    {
        let (count, since): (u8, u64) = match self.pending {
            Some((count, since)) => (count.saturating_add(1), since),
            None => (1, now),
        };
        self.pending = Some((count, since));
        let waited: u64 = now.saturating_sub(since);
        if waited > CTRL_C_ACK_MAX_WAIT_MS {
            Some(ForceExit::Unacknowledged)
        } else if waited <= CTRL_C_BURST_PERIOD_MS && count >= CTRL_C_BURST_AMOUNT {
            Some(ForceExit::Burst)
        } else {
            None
        }
    }
}

/// The first two interruptions never end the program from outside, and neither does
/// any that is acknowledged in between.
pub proof fn law_acknowledged_interruptions_are_harmless(watch: InterruptWatch, now: u64, later: u64)
    requires
        watch.pending is None,
        now <= later <= now + CTRL_C_ACK_MAX_WAIT_MS,
    ensures
        watch.interrupted_at(now) == (1u8, now),
        ({
            let once = InterruptWatch { pending: Some(watch.interrupted_at(now)) };
            once.interrupted_at(later).0 < CTRL_C_BURST_AMOUNT
        }),
{
}

/// Whether what is logged still reaches a listener.
#[derive(Debug)]
pub struct TcpStreamHealth {
    ok: bool,
}

impl TcpStreamHealth {
    /// Whether the listener is reached.
    pub closed spec fn healthy(&self) -> bool {
        self.ok
    }

    /// A listener that is reached, or not.
    pub fn new(value: bool) -> (r: TcpStreamHealth)
        ensures
            r.healthy() == value,
    {
        TcpStreamHealth { ok: value }
    }

    /// Whether the listener is reached.
    pub fn is_ok(&self) -> (r: bool)
        ensures
            r == self.healthy(),
    {
        self.ok
    }

    /// Notes that the listener was not reached.
    pub fn mark_failed(&mut self)
        ensures
            !final(self).healthy(),
    {
        self.ok = false;
    }
}

} // verus!
