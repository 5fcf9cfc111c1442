//! The footstep trigger itself: the state register together with the
//! wall-clock accumulator that paces the periodic footsteps.

use vstd::prelude::*;
use crate::state::{InputSnapshot, WalkingState, next_walking_state, spec_next_state};

verus! {

/// Milliseconds between footsteps while walking upright.
pub const WALK_CADENCE_MS: u64 = 470;

/// Milliseconds between footsteps while walking crouched; slower than the
/// upright cadence by design, to convey reduced movement speed.
pub const CROUCH_CADENCE_MS: u64 = 700;

/// Whether the state is one of the two moving states.
pub open spec fn spec_is_moving(s: WalkingState) -> bool {
    s is Walking || s is CrouchedWalking
}

/// The cadence of a state: the milliseconds of wall-clock time between two
/// periodic footsteps while the state is kept. `NotWalking` has none, here
/// written as zero; `timer_gate` never fires there.
pub open spec fn spec_cadence_ms(s: WalkingState) -> u64 {
    match s {
        WalkingState::NotWalking => 0,
        WalkingState::Walking => WALK_CADENCE_MS,
        WalkingState::CrouchedWalking => CROUCH_CADENCE_MS,
    }
}

/// The cadence of a moving state.
pub fn cadence_ms(s: WalkingState) -> (c: u64)
    ensures
        c == spec_cadence_ms(s),
{
    match s {
        WalkingState::NotWalking => 0,
        WalkingState::Walking => WALK_CADENCE_MS,
        WalkingState::CrouchedWalking => CROUCH_CADENCE_MS,
    }
}

/// The per-tick timer gate: in state `s`, with `elapsed_ms` milliseconds of
/// wall-clock time since this gate last fired, is a periodic footstep owed?
/// It never fires while the state is `NotWalking`.
pub fn timer_gate(s: WalkingState, elapsed_ms: u64) -> (fire: bool)
    ensures
        fire == (spec_is_moving(s) && elapsed_ms >= spec_cadence_ms(s)),
{
    match s {
        WalkingState::NotWalking => false,
        WalkingState::Walking => elapsed_ms >= WALK_CADENCE_MS,
        WalkingState::CrouchedWalking => elapsed_ms >= CROUCH_CADENCE_MS,
    }
}

/// The whole footstep trigger as one value: the current locomotion state and
/// the milliseconds of wall-clock time since the last footstep emitted in
/// that state.
#[derive(Clone, Copy, Debug, PartialEq, Eq, Structural)]
pub struct FootstepTicker {
    pub state: WalkingState,
    pub since_last_ms: u64,
}

impl FootstepTicker {
    /// The accumulator stays below the cadence of the current moving state,
    /// and is zero while not walking.
    pub open spec fn wf(self) -> bool {
        match self.state {
            WalkingState::NotWalking => self.since_last_ms == 0,
            WalkingState::Walking => self.since_last_ms < WALK_CADENCE_MS,
            WalkingState::CrouchedWalking => self.since_last_ms < CROUCH_CADENCE_MS,
        }
    }

    /// A fresh trigger: not walking, nothing accumulated.
    pub fn new() -> (t: Self)
        ensures
            t.state == WalkingState::NotWalking,
            t.since_last_ms == 0,
            t.wf(),
    {
        FootstepTicker { state: WalkingState::NotWalking, since_last_ms: 0 }
    }

    /// One simulation tick. `input` is the key snapshot the host read for
    /// this tick and `dt_ms` the wall-clock milliseconds since the previous
    /// tick. Returns how many footstep sounds the host owes for this tick:
    /// one on entering a moving state, the whole number of cadence periods
    /// the accumulator now covers while remaining in one, and none while not
    /// walking.
    pub fn tick(&mut self, input: InputSnapshot, dt_ms: u64) -> (emissions: u64)
        requires
            old(self).wf(),
            dt_ms <= u64::MAX - CROUCH_CADENCE_MS,
        ensures
            *final(self) == spec_step(*old(self), input, dt_ms),
            final(self).wf(),
            emissions == spec_emissions(*old(self), input, dt_ms),
    {
        let next = next_walking_state(input);
        if next == WalkingState::NotWalking {
            self.state = next;
            self.since_last_ms = 0;
            0
        } else if self.state != next {
            self.state = next;
            self.since_last_ms = 0;
            1
        } else {
            let cadence = cadence_ms(next);
            let total = self.since_last_ms + dt_ms;
            let n = total / cadence;
            self.since_last_ms = total % cadence;
            n
        }
    }
}

/// How many footsteps one tick owes: exactly one on entry into a moving
/// state from any other state, the whole number of cadence periods in
/// (carried accumulator + elapsed time) while remaining in one, and none
/// while not walking.
pub open spec fn spec_emissions(pre: FootstepTicker, i: InputSnapshot, dt_ms: u64) -> int {
    let next = spec_next_state(i);
    if !spec_is_moving(next) {
        0
    } else if pre.state != next {
        1
    } else {
        (pre.since_last_ms + dt_ms) / (spec_cadence_ms(next) as int)
    }
}

/// The accumulator after one tick: reset whenever the state is left or
/// entered, the remainder modulo the cadence while remaining in a moving
/// state.
pub open spec fn spec_residue_ms(pre: FootstepTicker, i: InputSnapshot, dt_ms: u64) -> int {
    let next = spec_next_state(i);
    if !spec_is_moving(next) || pre.state != next {
        0
    } else {
        (pre.since_last_ms + dt_ms) % (spec_cadence_ms(next) as int)
    }
}

/// The whole trigger after one tick.
pub open spec fn spec_step(pre: FootstepTicker, i: InputSnapshot, dt_ms: u64) -> FootstepTicker {
    FootstepTicker {
        state: spec_next_state(i),
        since_last_ms: spec_residue_ms(pre, i, dt_ms) as u64,
    }
}

/// Entering a moving state from any different state emits exactly one
/// immediate footstep and resets the accumulator, whatever the accumulator
/// held and however much time the tick covered: the entry action is
/// independent of the periodic timer.
pub proof fn lemma_entry_emission(pre: FootstepTicker, i: InputSnapshot, dt_ms: u64)
    requires
        spec_is_moving(spec_next_state(i)),
        pre.state != spec_next_state(i),
    ensures
        spec_emissions(pre, i, dt_ms) == 1,
        spec_step(pre, i, dt_ms).since_last_ms == 0,
{
}

/// Crouched footsteps pace strictly more slowly than upright ones.
pub proof fn lemma_crouched_cadence_slower()
    ensures
        spec_cadence_ms(WalkingState::CrouchedWalking) > spec_cadence_ms(WalkingState::Walking),
{
}

/// The trigger after a run of ticks, oldest tick first. Each tick pairs the
/// key snapshot with the milliseconds elapsed since the tick before it.
pub open spec fn spec_run(pre: FootstepTicker, ticks: Seq<(InputSnapshot, u64)>) -> FootstepTicker
    decreases ticks.len(),
{
    if ticks.len() == 0 {
        pre
    } else {
        spec_run(spec_step(pre, ticks[0].0, ticks[0].1), ticks.drop_first())
    }
}

/// The footsteps a run of ticks emits in all.
pub open spec fn spec_run_emissions(pre: FootstepTicker, ticks: Seq<(InputSnapshot, u64)>) -> int
    decreases ticks.len(),
{
    if ticks.len() == 0 {
        0
    } else {
        spec_emissions(pre, ticks[0].0, ticks[0].1) + spec_run_emissions(
            spec_step(pre, ticks[0].0, ticks[0].1),
            ticks.drop_first(),
        )
    }
}

/// The wall-clock time a run of ticks covers.
pub open spec fn spec_run_elapsed_ms(ticks: Seq<(InputSnapshot, u64)>) -> int
    decreases ticks.len(),
{
    if ticks.len() == 0 {
        0
    } else {
        ticks[0].1 + spec_run_elapsed_ms(ticks.drop_first())
    }
}

proof fn lemma_run_elapsed_nonneg(ticks: Seq<(InputSnapshot, u64)>)
    ensures
        spec_run_elapsed_ms(ticks) >= 0,
    decreases ticks.len(),
{
    if ticks.len() > 0 {
        lemma_run_elapsed_nonneg(ticks.drop_first());
    }
}

/// Steady cadence: while every tick of a run keeps the trigger in the one
/// moving state it starts in, the run emits exactly one footstep per full
/// cadence period of (carried accumulator + elapsed wall-clock time), and at
/// no other times; the accumulator carries the remainder out. In particular
/// a run of fewer milliseconds than the cadence emits nothing.
pub proof fn lemma_steady_cadence(pre: FootstepTicker, ticks: Seq<(InputSnapshot, u64)>)
    requires
        pre.wf(),
        spec_is_moving(pre.state),
        forall|k: int|
            0 <= k < ticks.len() ==> spec_next_state((#[trigger] ticks[k]).0) == pre.state,
    ensures
        spec_run(pre, ticks).state == pre.state,
        spec_run(pre, ticks).wf(),
        spec_run_emissions(pre, ticks) == (pre.since_last_ms + spec_run_elapsed_ms(ticks)) / (
        spec_cadence_ms(pre.state) as int),
        spec_run(pre, ticks).since_last_ms == (pre.since_last_ms + spec_run_elapsed_ms(ticks)) % (
        spec_cadence_ms(pre.state) as int),
    decreases ticks.len(),
{
    let c = spec_cadence_ms(pre.state) as int;
    if ticks.len() == 0 {
        vstd::arithmetic::div_mod::lemma_basic_div(pre.since_last_ms as int, c);
        vstd::arithmetic::div_mod::lemma_small_mod(pre.since_last_ms as nat, c as nat);
    } else {
        let s0 = pre.since_last_ms as int;
        let d = ticks[0].1;
        let e0 = (s0 + d) / c;
        let r0 = (s0 + d) % c;
        let stepped = spec_step(pre, ticks[0].0, ticks[0].1);
        assert(stepped.state == pre.state);
        assert(stepped.since_last_ms == r0);
        let rest = ticks.drop_first();
        assert forall|k: int|
            0 <= k < rest.len() implies spec_next_state((#[trigger] rest[k]).0)
            == stepped.state by {
            assert(rest[k] == ticks[k + 1]);
        }
        lemma_steady_cadence(stepped, rest);
        let e_rest = spec_run_elapsed_ms(rest);
        lemma_run_elapsed_nonneg(rest);
        vstd::arithmetic::div_mod::lemma_fundamental_div_mod(s0 + d, c);
        assert(s0 + d + e_rest == c * e0 + (r0 + e_rest));
        vstd::arithmetic::div_mod::lemma_hoist_over_denominator(r0 + e_rest, e0, c as nat);
        assert(e0 * c == c * e0) by (nonlinear_arith);
        vstd::arithmetic::div_mod::lemma_mod_multiples_vanish(e0, r0 + e_rest, c);
    }
}

} // verus!
