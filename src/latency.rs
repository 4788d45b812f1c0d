use vstd::prelude::*;

verus! {

/// Largest round trip, in microseconds, that is taken as a real measurement.
pub const MAX_RAW_LATENCY: u64 = 1_000_000;

/// Smallest change, in microseconds, that is worth publishing.
pub const MIN_DEADBAND: i64 = 3000;

/// A raw round trip is used only when it lies in (0, MAX_RAW_LATENCY].
pub open spec fn valid_raw(raw: int) -> bool {
    0 < raw <= MAX_RAW_LATENCY as int
}

/// Exponential moving average with weight 1/30; a zero average means "no sample yet".
pub open spec fn ema_next(ema: int, raw: int) -> int {
    if ema == 0 {
        raw
    } else {
        raw / 30 + ema * 29 / 30
    }
}

/// The band around the last published value inside which nothing is published.
pub open spec fn deadband(latency: int) -> int {
    if latency / 5 < MIN_DEADBAND as int {
        MIN_DEADBAND as int
    } else {
        latency / 5
    }
}

pub open spec fn abs_int(x: int) -> int {
    if x < 0 {
        -x
    } else {
        x
    }
}

/// A smoothed value is published when nothing was published before, or when it left the band.
pub open spec fn publishes(published: int, latency: int) -> bool {
    published <= 0 || abs_int(latency - published) > deadband(latency)
}

/// Smoothing and deadband-filtered publication of round-trip measurements.
pub struct LatencyTracker {
    /// Current moving average in microseconds, 0 before the first sample.
    pub ema: i64,
    /// Last published value in microseconds, 0 when nothing counts as published.
    pub published: i64,
}

impl LatencyTracker {
    pub open spec fn wf(&self) -> bool {
        0 <= self.ema <= MAX_RAW_LATENCY && 0 <= self.published <= MAX_RAW_LATENCY
    }

    pub fn new() -> (r: Self)
        ensures
            r.wf(),
            r.ema == 0,
            r.published == 0,
    {
        LatencyTracker { ema: 0, published: 0 }
    }

    /// Feeds one raw round trip; returns the value to publish, if any.
    pub fn on_measurement(&mut self, raw: u64) -> (r: Option<i64>)
        requires
            old(self).wf(),
        ensures
            final(self).wf(),
            !valid_raw(raw as int) ==> (r is None && *final(self) == *old(self)),
            valid_raw(raw as int) ==> {
                let l = ema_next(old(self).ema as int, raw as int);
                &&& final(self).ema == l
                &&& publishes(old(self).published as int, l) ==> (r == Some(l as i64)
                    && final(self).published == l)
                &&& !publishes(old(self).published as int, l) ==> (r is None
                    && final(self).published == old(self).published)
            },
    {
        if raw == 0 || raw > MAX_RAW_LATENCY {
            return None;
        }
        let raw = raw as i64;
        let latency: i64;
        if self.ema == 0 {
            self.ema = raw;
            latency = raw;
        } else {
            self.ema = raw / 30 + self.ema * 29 / 30;
            latency = self.ema;
        }
        let mut n: i64 = latency / 5;
        if n < MIN_DEADBAND {
            n = MIN_DEADBAND;
        }
        let diff: i64 = if latency >= self.published {
            latency - self.published
        } else {
            self.published - latency
        };
        if diff > n || self.published <= 0 {
            self.published = latency;
            Some(latency)
        } else {
            None
        }
    }

    /// Forgets the published value, after a sentinel was published in its place.
    pub fn forget_published(&mut self)
        ensures
            final(self).ema == old(self).ema,
            final(self).published == 0,
    {
        self.published = 0;
    }
}

/// The tracker after a stream of `n` identical raw measurements.
pub open spec fn run_stream(ema: int, published: int, raw: int, n: nat) -> (int, int)
    decreases n,
{
    if n == 0 {
        (ema, published)
    } else {
        let (e, p) = run_stream(ema, published, raw, (n - 1) as nat);
        let l = ema_next(e, raw);
        (l, if publishes(p, l) {
            l
        } else {
            p
        })
    }
}

proof fn lemma_stream_stays_near(raw: int, n: nat)
    requires
        valid_raw(raw),
        n >= 1,
    ensures
        run_stream(0, 0, raw, n).1 == raw,
        0 <= run_stream(0, 0, raw, n).0 <= raw,
        raw - run_stream(0, 0, raw, n).0 <= 60,
    decreases n,
{
    if n == 1 {
        assert(run_stream(0, 0, raw, 0) == (0int, 0int));
    } else {
        lemma_stream_stays_near(raw, (n - 1) as nat);
        let e = run_stream(0, 0, raw, (n - 1) as nat).0;
        if e != 0 {
            let q1 = raw / 30;
            let q2 = e * 29 / 30;
            assert(30 * q1 <= raw < 30 * q1 + 30);
            assert(30 * q2 <= e * 29 < 30 * q2 + 30);
            assert(q1 + q2 <= raw);
            assert(raw - (q1 + q2) <= 60);
        }
    }
}

/// A stream of identical valid measurements, fed to a fresh tracker, leaves
/// exactly that measurement as the published value however long it runs.
pub proof fn lemma_identical_stream_publishes_raw(raw: int, n: nat)
    requires
        valid_raw(raw),
        n >= 1,
    ensures
        run_stream(0, 0, raw, n).1 == raw,
{
    lemma_stream_stays_near(raw, n);
}

} // verus!
