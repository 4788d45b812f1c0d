use vstd::prelude::*;
use crate::latency::{LatencyTracker, valid_raw, ema_next, publishes};

verus! {

/// Registration cadence, in milliseconds.
pub const REG_INTERVAL: u64 = 12_000;
/// First registration timeout, and the step of its backoff, in milliseconds.
pub const MIN_REG_TIMEOUT: u64 = 3_000;
/// Ceiling of the registration timeout, in milliseconds.
pub const MAX_REG_TIMEOUT: u64 = 30_000;
/// Consecutive failures after which latency is published as unknown.
pub const MAX_FAILS1: u64 = 2;
/// Consecutive failures after which latency is published as unreachable.
pub const MAX_FAILS2: u64 = 4;
/// Least time between two name resolutions of the host, in milliseconds.
pub const DNS_INTERVAL: u64 = 60_000;
/// Keep-alive interval before the server sets one, in milliseconds.
pub const DEFAULT_KEEP_ALIVE: i64 = 60_000;
/// Latency sentinel: probing, round trip unknown.
pub const LATENCY_UNKNOWN: i64 = 0;
/// Latency sentinel: host unreachable.
pub const LATENCY_UNREACHABLE: i64 = -1;

/// Milliseconds from `then` to `now` (both in microseconds), zero if the clock went back.
pub open spec fn elapsed_ms(now: u64, then: u64) -> int {
    if now >= then {
        (now - then) as int / 1000
    } else {
        0
    }
}

/// Microseconds from `then` to `now`, zero if the clock went back.
pub open spec fn elapsed_us(now: u64, then: u64) -> int {
    if now >= then {
        (now - then) as int
    } else {
        0
    }
}

fn elapsed_ms_exec(now: u64, then: u64) -> (r: u64)
    ensures
        r == elapsed_ms(now, then),
{
    if now >= then {
        (now - then) / 1000
    } else {
        0
    }
}

/// What the UDP loop does after one timer tick.
pub struct TickAction {
    /// The loop ends.
    pub exit: bool,
    /// A latency sentinel to publish.
    pub publish: Option<i64>,
    /// Resolve the host again and rebind the channel.
    pub refresh_dns: bool,
    /// Send a registration now.
    pub send_register: bool,
}

/// State of the UDP registration loop; all times are in microseconds of a monotonic clock.
pub struct UdpRegistration {
    pub reg_timeout: u64,
    pub fails: u64,
    pub last_register_resp: Option<u64>,
    pub last_register_sent: Option<u64>,
    pub last_dns_check: u64,
    pub latency: LatencyTracker,
}

impl UdpRegistration {
    pub open spec fn wf(&self) -> bool {
        &&& MIN_REG_TIMEOUT <= self.reg_timeout <= MAX_REG_TIMEOUT
        &&& self.reg_timeout % MIN_REG_TIMEOUT == 0
        &&& self.latency.wf()
    }

    pub open spec fn expired(&self, now: u64) -> bool {
        match self.last_register_resp {
            None => true,
            Some(t) => elapsed_ms(now, t) >= REG_INTERVAL,
        }
    }

    pub open spec fn timed_out(&self, now: u64) -> bool {
        match self.last_register_sent {
            None => false,
            Some(t) => elapsed_ms(now, t) >= self.reg_timeout,
        }
    }

    /// A registration is sent on a timeout, or when none is in flight and the last answer is old.
    pub open spec fn sends(&self, now: u64) -> bool {
        self.timed_out(now) || (self.last_register_sent is None && self.expired(now))
    }

    pub fn new(now: u64) -> (r: Self)
        ensures
            r.wf(),
            r.reg_timeout == MIN_REG_TIMEOUT,
            r.fails == 0,
            r.last_register_resp is None,
            r.last_register_sent is None,
            r.last_dns_check == now,
            r.latency.ema == 0,
            r.latency.published == 0,
    {
        UdpRegistration {
            reg_timeout: MIN_REG_TIMEOUT,
            fails: 0,
            last_register_resp: None,
            last_register_sent: None,
            last_dns_check: now,
            latency: LatencyTracker::new(),
        }
    }

    /// One tick of the 1-second timer at time `now`.
    pub fn on_tick(&mut self, now: u64, should_exit: bool, backoff: bool) -> (r: TickAction)
        requires
            old(self).wf(),
        ensures
            final(self).wf(),
            should_exit ==> (r.exit && !r.send_register && r.publish is None && !r.refresh_dns
                && *final(self) == *old(self)),
            !should_exit ==> {
                let timeout = old(self).timed_out(now);
                let send = old(self).sends(now);
                let fails = if timeout && old(self).fails < u64::MAX {
                    old(self).fails + 1
                } else {
                    old(self).fails as int
                };
                let dns = timeout && fails >= MAX_FAILS2 && elapsed_ms(now, old(self).last_dns_check)
                    > DNS_INTERVAL;
                &&& !r.exit
                &&& r.send_register == send
                &&& final(self).reg_timeout == if backoff && timeout && old(self).reg_timeout
                    < MAX_REG_TIMEOUT {
                    old(self).reg_timeout + MIN_REG_TIMEOUT
                } else {
                    old(self).reg_timeout as int
                }
                &&& final(self).fails == fails
                &&& final(self).last_register_sent == if send {
                    Some(now)
                } else {
                    old(self).last_register_sent
                }
                &&& final(self).last_register_resp == old(self).last_register_resp
                &&& r.publish == if timeout && fails >= MAX_FAILS2 {
                    Some(LATENCY_UNREACHABLE)
                } else if timeout && fails >= MAX_FAILS1 {
                    Some(LATENCY_UNKNOWN)
                } else {
                    None::<i64>
                }
                &&& r.refresh_dns == dns
                &&& final(self).last_dns_check == if dns {
                    now
                } else {
                    old(self).last_dns_check
                }
                &&& final(self).latency.ema == old(self).latency.ema
                &&& final(self).latency.published == if r.publish is Some {
                    0
                } else {
                    old(self).latency.published as int
                }
            },
            r.publish == Some(LATENCY_UNREACHABLE) ==> final(self).fails >= MAX_FAILS2,
            r.publish == Some(LATENCY_UNKNOWN) ==> MAX_FAILS1 <= final(self).fails < MAX_FAILS2,
    {
        let mut act = TickAction { exit: false, publish: None, refresh_dns: false, send_register: false };
        if should_exit {
            act.exit = true;
            return act;
        }
        let expired = match self.last_register_resp {
            None => true,
            Some(t) => elapsed_ms_exec(now, t) >= REG_INTERVAL,
        };
        let timeout = match self.last_register_sent {
            None => false,
            Some(t) => elapsed_ms_exec(now, t) >= self.reg_timeout,
        };
        if backoff && timeout && self.reg_timeout < MAX_REG_TIMEOUT {
            self.reg_timeout = self.reg_timeout + MIN_REG_TIMEOUT;
        }
        if timeout || (self.last_register_sent.is_none() && expired) {
            if timeout {
                if self.fails < u64::MAX {
                    self.fails = self.fails + 1;
                }
                if self.fails >= MAX_FAILS2 {
                    act.publish = Some(LATENCY_UNREACHABLE);
                    self.latency.forget_published();
                    if elapsed_ms_exec(now, self.last_dns_check) > DNS_INTERVAL {
                        act.refresh_dns = true;
                        self.last_dns_check = now;
                    }
                } else if self.fails >= MAX_FAILS1 {
                    act.publish = Some(LATENCY_UNKNOWN);
                    self.latency.forget_published();
                }
            }
            act.send_register = true;
            self.last_register_sent = Some(now);
        }
        act
    }

    /// A registration answer arrived at `now`: resets the failure ladder and
    /// measures the round trip; returns the latency to publish, if any.
    pub fn on_register_response(&mut self, now: u64) -> (r: Option<i64>)
        requires
            old(self).wf(),
        ensures
            final(self).wf(),
            final(self).fails == 0,
            final(self).reg_timeout == MIN_REG_TIMEOUT,
            final(self).last_register_resp == Some(now),
            final(self).last_register_sent is None,
            final(self).last_dns_check == old(self).last_dns_check,
            ({
                let raw = match old(self).last_register_sent {
                    None => 0,
                    Some(t) => elapsed_us(now, t),
                };
                if !valid_raw(raw) {
                    r is None && final(self).latency == old(self).latency
                } else {
                    let l = ema_next(old(self).latency.ema as int, raw);
                    &&& final(self).latency.ema == l
                    &&& publishes(old(self).latency.published as int, l) ==> (r == Some(l as i64)
                        && final(self).latency.published == l)
                    &&& !publishes(old(self).latency.published as int, l) ==> (r is None
                        && final(self).latency.published == old(self).latency.published)
                }
            }),
    {
        self.last_register_resp = Some(now);
        self.fails = 0;
        self.reg_timeout = MIN_REG_TIMEOUT;
        let raw: u64 = match self.last_register_sent {
            None => 0,
            Some(t) => if now >= t {
                now - t
            } else {
                0
            },
        };
        self.last_register_sent = None;
        self.latency.on_measurement(raw)
    }
}

/// What the TCP loop does after one timer tick.
#[derive(PartialEq, Eq, Structural)]
pub enum TcpTick {
    /// The process is shutting down this cycle: end the loop.
    Exit,
    /// Nothing arrived for too long: the connection is dead.
    Dead,
    /// Send a public-key registration.
    RegisterPk,
    Idle,
}

/// What to do with one payload read from the TCP stream.
#[derive(PartialEq, Eq, Structural)]
pub enum TcpInbound {
    /// An empty frame: echo an empty frame and dispatch nothing.
    Heartbeat,
    /// A frame to parse and dispatch.
    Message,
}

/// State of the TCP registration loop; all times are in microseconds of a monotonic clock.
pub struct TcpRegistration {
    pub last_recv: u64,
    pub last_register_sent: Option<u64>,
}

impl TcpRegistration {
    pub fn new(now: u64) -> (r: Self)
        ensures
            r.last_recv == now,
            r.last_register_sent is None,
    {
        TcpRegistration { last_recv: now, last_register_sent: None }
    }

    /// The round trip to publish when a registration answer arrives at `now`:
    /// microseconds since the last public-key registration, 0 when none was sent.
    pub fn on_register_response(&self, now: u64) -> (r: i64)
        ensures
            r == match self.last_register_sent {
                None => 0,
                Some(t) => if elapsed_us(now, t) > i64::MAX {
                    i64::MAX as int
                } else {
                    elapsed_us(now, t)
                },
            },
    {
        match self.last_register_sent {
            None => 0,
            Some(t) => {
                let d: u64 = if now >= t {
                    now - t
                } else {
                    0
                };
                if d > i64::MAX as u64 {
                    i64::MAX
                } else {
                    d as i64
                }
            },
        }
    }

    /// A payload arrived at `now`.
    pub fn on_data(&mut self, payload: &[u8], now: u64) -> (r: TcpInbound)
        ensures
            final(self).last_recv == now,
            final(self).last_register_sent == old(self).last_register_sent,
            r == (if payload@.len() == 0 {
                TcpInbound::Heartbeat
            } else {
                TcpInbound::Message
            }),
    {
        self.last_recv = now;
        if payload.len() == 0 {
            TcpInbound::Heartbeat
        } else {
            TcpInbound::Message
        }
    }

    /// One tick of the 1-second timer at time `now`; `keep_alive` is in milliseconds.
    pub fn on_tick(
        &mut self,
        now: u64,
        should_exit: bool,
        keep_alive: i64,
        key_confirmed: bool,
        host_key_confirmed: bool,
    ) -> (r: TcpTick)
        requires
            keep_alive >= 0,
        ensures
            final(self).last_recv == old(self).last_recv,
            ({
                let due = match old(self).last_register_sent {
                    None => true,
                    Some(t) => elapsed_ms(now, t) >= REG_INTERVAL,
                };
                if should_exit {
                    r == TcpTick::Exit
                } else if elapsed_ms(now, old(self).last_recv) > keep_alive * 3 / 2 {
                    r == TcpTick::Dead
                } else if (!key_confirmed || !host_key_confirmed) && due {
                    r == TcpTick::RegisterPk
                } else {
                    r == TcpTick::Idle
                }
            }),
            r == TcpTick::RegisterPk ==> final(self).last_register_sent == Some(now),
            r != TcpTick::RegisterPk ==> final(self).last_register_sent == old(
                self,
            ).last_register_sent,
    {
        if should_exit {
            return TcpTick::Exit;
        }
        if elapsed_ms_exec(now, self.last_recv) as i128 > keep_alive as i128 * 3 / 2 {
            return TcpTick::Dead;
        }
        let due = match self.last_register_sent {
            None => true,
            Some(t) => elapsed_ms_exec(now, t) >= REG_INTERVAL,
        };
        if (!key_confirmed || !host_key_confirmed) && due {
            self.last_register_sent = Some(now);
            TcpTick::RegisterPk
        } else {
            TcpTick::Idle
        }
    }
}

} // verus!
