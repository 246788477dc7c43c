//! The output scheduler: periodic writers, each with its own cadence.
//!
//! Steps are numbered from 1: the engine advances its step counter at the start
//! of each update pass, so the writers consulted during the `k`-th iteration
//! see step number `k`. A writer with cadence `c` fires on every step number
//! that `c` divides; step 0, before any update, never fires.
use vstd::prelude::*;

verus! {

/// A physical quantity that a writer records, one row per particle.
#[derive(Clone, Copy, Debug, PartialEq, Eq, Structural)]
pub enum Quantity {
    Position,
    Velocity,
}

/// A periodic writer: what it records, how often, and where to.
#[derive(Clone, Debug)]
pub struct Writer {
    pub quantity: Quantity,
    pub cadence: u64,
    pub destination: String,
}

#[derive(Clone, Copy, Debug, PartialEq, Eq, Structural)]
pub enum ScheduleError {
    /// A cadence of zero steps was asked for.
    ZeroCadence,
}

/// Whether a writer with cadence `cadence` fires at step number `step`.
pub open spec fn fires_at(step: int, cadence: int) -> bool {
    step % cadence == 0
}

/// The number of firings of a writer with cadence `cadence` over the step
/// numbers `1..=steps`, counted one step at a time.
pub open spec fn firings(steps: nat, cadence: nat) -> nat
    decreases steps,
{
    if steps == 0 {
        0
    } else {
        firings((steps - 1) as nat, cadence) + if fires_at(steps as int, cadence as int) {
            1nat
        } else {
            0nat
        }
    }
}

/// The writers among the first `n` that fire at step `step`, by index, in
/// order of registration.
pub open spec fn due_among(ws: Seq<Writer>, step: int, n: nat) -> Seq<usize>
    decreases n,
{
    if n == 0 {
        Seq::empty()
    } else {
        let rest = due_among(ws, step, (n - 1) as nat);
        if fires_at(step, ws[n - 1].cadence as int) {
            rest.push((n - 1) as usize)
        } else {
            rest
        }
    }
}

/// Whether a writer with cadence `cadence` fires at step number `step`.
pub fn fires(step: u64, cadence: u64) -> (r: bool)
    requires
        cadence > 0,
    ensures
        r == fires_at(step as int, cadence as int),
{
    step % cadence == 0
}

/// Over a run of `steps` steps, a writer with cadence `cadence` fires exactly
/// `steps / cadence` times (rounding down).
pub proof fn lemma_firing_count(steps: nat, cadence: nat)
    requires
        cadence > 0,
    ensures
        firings(steps, cadence) == steps / cadence,
    decreases steps,
{
    if steps > 0 {
        lemma_firing_count((steps - 1) as nat, cadence);
        let s = steps as int;
        let c = cadence as int;
        vstd::arithmetic::div_mod::lemma_fundamental_div_mod(s, c);
        vstd::arithmetic::div_mod::lemma_fundamental_div_mod(s - 1, c);
        if s % c == 0 {
            assert((s - 1) / c == s / c - 1) by {
                assert((s / c - 1) * c == c * (s / c) - c) by (nonlinear_arith);
                vstd::arithmetic::div_mod::lemma_fundamental_div_mod_converse(
                    s - 1,
                    c,
                    s / c - 1,
                    c - 1,
                );
            }
        } else {
            assert((s - 1) / c == s / c) by {
                assert((s / c) * c == c * (s / c)) by (nonlinear_arith);
                vstd::arithmetic::div_mod::lemma_fundamental_div_mod_converse(
                    s - 1,
                    c,
                    s / c,
                    s % c - 1,
                );
            }
        }
    }
}

/// The number of firings of a writer with cadence `cadence` over a run of
/// `steps` steps.
pub fn firing_count(steps: u64, cadence: u64) -> (r: u64)
    requires
        cadence > 0,
    ensures
        r == firings(steps as nat, cadence as nat),
        r == steps / cadence,
{
    proof {
        lemma_firing_count(steps as nat, cadence as nat);
    }
    steps / cadence
}

/// With a population of `particles` that stays the same throughout, the number
/// of rows that a writer with cadence `cadence` appends over `steps` steps: one
/// group per firing, each of one row per particle. `None` where the count does
/// not fit in a `u64`.
pub fn record_count(steps: u64, cadence: u64, particles: u64) -> (r: Option<u64>)
    requires
        cadence > 0,
    ensures
        firings(steps as nat, cadence as nat) * particles <= u64::MAX ==> r == Some(
            (firings(steps as nat, cadence as nat) * particles) as u64,
        ),
        firings(steps as nat, cadence as nat) * particles > u64::MAX ==> r is None,
{
    let groups = firing_count(steps, cadence);
    groups.checked_mul(particles)
}

/// The registered writers. Every cadence is positive.
pub struct OutputSchedule {
    pub writers: Vec<Writer>,
}

impl OutputSchedule {
    pub open spec fn wf(&self) -> bool {
        forall|i: int| 0 <= i < self.writers@.len() ==> self.writers@[i].cadence > 0
    }

    /// A schedule with no writers.
    pub fn new() -> (r: OutputSchedule)
        ensures
            r.wf(),
            r.writers@.len() == 0,
    {
        OutputSchedule { writers: Vec::new() }
    }

    /// Registers a writer. A zero cadence is refused and leaves the schedule as
    /// it was; any other is appended after the writers already there.
    pub fn register(&mut self, quantity: Quantity, cadence: u64, destination: String) -> (r: Result<
        (),
        ScheduleError,
    >)
        requires
            old(self).wf(),
        ensures
            final(self).wf(),
            cadence == 0 ==> r == Err::<(), ScheduleError>(ScheduleError::ZeroCadence)
                && final(self).writers@ == old(self).writers@,
            cadence > 0 ==> r is Ok && final(self).writers@.len() == old(self).writers@.len() + 1
                && final(self).writers@.drop_last() == old(self).writers@
                && final(self).writers@.last().quantity == quantity
                && final(self).writers@.last().cadence == cadence
                && final(self).writers@.last().destination@ == destination@,
    {
        if cadence == 0 {
            return Err(ScheduleError::ZeroCadence);
        }
        let w = Writer { quantity, cadence, destination };
        self.writers.push(w);
        proof {
            assert(self.writers@.drop_last() =~= old(self).writers@);
        }
        Ok(())
    }

    /// The writers that fire at step number `step`, by index, in order of
    /// registration.
    pub fn due(&self, step: u64) -> (r: Vec<usize>)
        requires
            self.wf(),
        ensures
            r@ == due_among(self.writers@, step as int, self.writers@.len()),
    {
        let mut r: Vec<usize> = Vec::new();
        let mut i: usize = 0;
        while i < self.writers.len()
            invariant
                self.wf(),
                i <= self.writers@.len(),
                r@ == due_among(self.writers@, step as int, i as nat),
            decreases self.writers@.len() - i,
        {
            if fires(step, self.writers[i].cadence) {
                r.push(i);
            }
            i = i + 1;
        }
        r
    }
}

} // verus!
