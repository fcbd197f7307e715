//! How much of a deposit has unlocked at a given time.

use crate::fixed_point::{
    fraction_floor, lemma_fraction_bounds, lemma_scaled_bounds, scale_floor, SCALE,
};
use crate::types::DirectStreamData;
use vstd::arithmetic::div_mod::{lemma_div_is_ordered, lemma_fundamental_div_mod, lemma_mod_bound};
use vstd::prelude::*;

verus! {

impl DirectStreamData {
    /// The part of the stream's duration that has passed at `now`, as a
    /// fixed-point fraction rounded down.
    pub open spec fn elapsed_fraction(&self, now: int) -> int {
        (now - self.start_time) * SCALE / (self.stop_time - self.start_time)
    }

    /// The amount that has unlocked at `now`: nothing before the cliff, the
    /// whole deposit from the stop time on, and in between the elapsed
    /// fraction of the deposit, rounded down.
    pub open spec fn streamed_at(&self, now: int) -> int {
        if now < self.cliff_time {
            0
        } else if now >= self.stop_time {
            self.deposit as int
        } else {
            self.deposit * self.elapsed_fraction(now) / (SCALE as int)
        }
    }

    /// Between start and stop the elapsed fraction lies between zero and one.
    pub proof fn lemma_elapsed_fraction_bounds(&self, now: int)
        requires
            self.wf(),
            self.start_time <= now <= self.stop_time,
        ensures
            0 <= self.elapsed_fraction(now) <= SCALE,
    {
        lemma_fraction_bounds(now - self.start_time, self.stop_time - self.start_time);
    }

    /// The streamed amount is never negative and never more than the deposit.
    pub proof fn lemma_streamed_bounds(&self, now: int)
        requires
            self.wf(),
        ensures
            0 <= self.streamed_at(now) <= self.deposit,
    {
        if self.cliff_time <= now < self.stop_time {
            self.lemma_elapsed_fraction_bounds(now);
            lemma_scaled_bounds(self.deposit as int, self.elapsed_fraction(now));
        }
    }

    /// The streamed amount never goes down as time goes on.
    pub proof fn lemma_streamed_monotonic(&self, earlier: int, later: int)
        requires
            self.wf(),
            earlier <= later,
        ensures
            self.streamed_at(earlier) <= self.streamed_at(later),
    {
        self.lemma_streamed_bounds(earlier);
        self.lemma_streamed_bounds(later);
        if self.cliff_time <= earlier && later < self.stop_time {
            let s = SCALE as int;
            let total = self.stop_time - self.start_time;
            let f1 = self.elapsed_fraction(earlier);
            let f2 = self.elapsed_fraction(later);
            assert((earlier - self.start_time) * s <= (later - self.start_time) * s)
                by (nonlinear_arith)
                requires
                    earlier <= later,
                    s > 0,
            ;
            lemma_div_is_ordered(
                (earlier - self.start_time) * s,
                (later - self.start_time) * s,
                total,
            );
            assert(self.deposit * f1 <= self.deposit * f2) by (nonlinear_arith)
                requires
                    f1 <= f2,
                    self.deposit > 0,
            ;
            lemma_div_is_ordered(self.deposit * f1, self.deposit * f2, s);
        }
    }

    /// Before the stop time some of the deposit is still locked.
    pub proof fn lemma_streamed_short_of_deposit(&self, now: int)
        requires
            self.wf(),
            now < self.stop_time,
        ensures
            self.streamed_at(now) < self.deposit,
    {
        if self.cliff_time <= now {
            let s = SCALE as int;
            let total = self.stop_time - self.start_time;
            let elapsed = now - self.start_time;
            let f = self.elapsed_fraction(now);
            lemma_fundamental_div_mod(elapsed * s, total);
            lemma_mod_bound(elapsed * s, total);
            assert(f < s) by (nonlinear_arith)
                requires
                    0 <= elapsed < total,
                    s > 0,
                    elapsed * s == total * f + (elapsed * s) % total,
                    0 <= (elapsed * s) % total,
            ;
            let d = self.deposit as int;
            let v = d * f / s;
            lemma_fundamental_div_mod(d * f, s);
            lemma_mod_bound(d * f, s);
            assert(v < d) by (nonlinear_arith)
                requires
                    d > 0,
                    f < s,
                    s > 0,
                    d * f == s * v + (d * f) % s,
                    0 <= (d * f) % s,
            ;
        }
    }

    /// Before the cliff nothing has streamed; from the stop time on the whole
    /// deposit has, with no rounding loss.
    pub proof fn lemma_streamed_boundaries(&self, before_cliff: int, from_stop: int)
        requires
            self.wf(),
            before_cliff < self.cliff_time,
            from_stop >= self.stop_time,
        ensures
            self.streamed_at(before_cliff) == 0,
            self.streamed_at(self.stop_time as int) == self.deposit,
            self.streamed_at(from_stop) == self.deposit,
    {
    }
}

/// The amount of `stream` that has unlocked at `now`. It depends on the
/// times and the deposit alone, not on what has been withdrawn.
pub fn get_streamed_amount(stream: &DirectStreamData, now: u64) -> (streamed: i128)
    requires
        stream.wf(),
    ensures
        streamed == stream.streamed_at(now as int),
        0 <= streamed <= stream.deposit,
{
    proof {
        stream.lemma_streamed_bounds(now as int);
    }
    if stream.cliff_time > now {
        return 0;
    }
    if now >= stream.stop_time {
        return stream.deposit;
    }
    let elapsed: u64 = now - stream.start_time;
    let total: u64 = stream.stop_time - stream.start_time;
    let fraction: i128 = fraction_floor(elapsed, total);
    proof {
        stream.lemma_elapsed_fraction_bounds(now as int);
    }
    let streamed: i128 = scale_floor(stream.deposit, fraction);
    // Rounding down never gives more than the deposit; the clamp stays as a guard.
    if streamed > stream.deposit {
        return stream.deposit;
    }
    streamed
}

} // verus!
