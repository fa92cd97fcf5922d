//! From gamepad buttons to command changes: the activation lock, gait
//! selection and the debounced step adjustments.
use vstd::prelude::*;

use crate::command::Gait;

verus! {

/// Shape of the curve that maps a stick deflection onto a command value.
#[derive(Debug, Clone, Copy, PartialEq, Eq, Structural)]
pub enum Curve {
    Linear,
    Exponential,
    SCurve,
}

/// The buttons of the gamepad that the decisions read, `true` while held.
#[derive(Debug, Clone, Copy, PartialEq, Eq, Structural)]
pub struct ButtonState {
    pub left_button: bool,
    pub right_button: bool,
    pub btn_south: bool,
    pub btn_east: bool,
    pub btn_north: bool,
    pub btn_west: bool,
    pub btn_dpad_up: bool,
    pub btn_dpad_down: bool,
    pub btn_dpad_left: bool,
    pub btn_dpad_right: bool,
}

/// Number of consecutive ticks with both shoulder buttons held that arm a toggle;
/// the toggle itself comes on the tick after.
pub const ACTIVATE_HOLD_TICKS: u8 = 10;

/// The activation lock: commands flow only while `activate` is set, and holding
/// both shoulder buttons long enough flips it, once per press.
#[derive(Debug, Clone, Copy, PartialEq, Eq, Structural)]
pub struct ActivationLock {
    pub activate: bool,
    /// Consecutive ticks with both shoulder buttons held, since the last toggle or release.
    pub activate_counter: u8,
    /// Set by a toggle, cleared on release: one press toggles at most once.
    pub activate_toggle_lock: bool,
}

/// The lock after one tick in which both shoulder buttons were (`both_held`) or were not held.
pub open spec fn activation_step(s: ActivationLock, both_held: bool) -> ActivationLock {
    if both_held {
        if s.activate_toggle_lock {
            s
        } else if s.activate_counter < ACTIVATE_HOLD_TICKS {
            ActivationLock { activate_counter: (s.activate_counter + 1) as u8, ..s }
        } else {
            ActivationLock { activate: !s.activate, activate_counter: 0, activate_toggle_lock: true }
        }
    } else {
        ActivationLock { activate: s.activate, activate_counter: 0, activate_toggle_lock: false }
    }
}

/// The lock after `n` ticks in a row with both shoulder buttons held.
pub open spec fn activation_hold(s: ActivationLock, n: nat) -> ActivationLock
    decreases n,
{
    if n == 0 {
        s
    } else {
        activation_step(activation_hold(s, (n - 1) as nat), true)
    }
}

/// The lock with no press under way and the given activation.
pub open spec fn released(activate: bool) -> ActivationLock {
    ActivationLock { activate, activate_counter: 0, activate_toggle_lock: false }
}

impl ActivationLock {
    /// A lock that is not active, with no press under way.
    pub fn new() -> (lock: ActivationLock)
        ensures
            lock == released(false),
    {
        ActivationLock { activate: false, activate_counter: 0, activate_toggle_lock: false }
    }

    /// Advances the lock by one tick of gamepad state.
    pub fn update_activate(&mut self, s: &ButtonState)
        ensures
            *final(self) == activation_step(*old(self), s.left_button && s.right_button),
    {
        if s.left_button && s.right_button {
            if self.activate_toggle_lock {
                return;
            }
            if self.activate_counter < ACTIVATE_HOLD_TICKS {
                self.activate_counter = self.activate_counter + 1;
            } else {
                self.activate = !self.activate;
                self.activate_counter = 0;
                self.activate_toggle_lock = true;
            }
        } else {
            self.activate_counter = 0;
            self.activate_toggle_lock = false;
        }
    }

}

/// Every step keeps the counter at or below `ACTIVATE_HOLD_TICKS`.
pub proof fn lemma_counter_bounded(s: ActivationLock, both_held: bool)
    requires
        s.activate_counter <= ACTIVATE_HOLD_TICKS,
    ensures
        activation_step(s, both_held).activate_counter <= ACTIVATE_HOLD_TICKS,
{
}

/// Releasing either shoulder button keeps the activation and re-arms the lock.
pub proof fn lemma_release_rearms(s: ActivationLock)
    ensures
        activation_step(s, false) == released(s.activate),
{
}

/// Holding both shoulder buttons from a released lock: for the first
/// `ACTIVATE_HOLD_TICKS` ticks nothing flips; on the next tick the activation
/// flips, and however long the press lasts after that, it does not flip again.
pub proof fn lemma_long_press_toggles_once(activate: bool, n: nat)
    ensures
        n <= ACTIVATE_HOLD_TICKS ==> activation_hold(released(activate), n) == (ActivationLock {
            activate,
            activate_counter: n as u8,
            activate_toggle_lock: false,
        }),
        n > ACTIVATE_HOLD_TICKS ==> activation_hold(released(activate), n) == (ActivationLock {
            activate: !activate,
            activate_counter: 0,
            activate_toggle_lock: true,
        }),
    decreases n,
{
    if n > 0 {
        lemma_long_press_toggles_once(activate, (n - 1) as nat);
    }
}

/// The gait after the face buttons of one tick: east selects walking, south
/// standing; west and north, which take precedence in that order, leave it as it is.
pub open spec fn gait_after(s: ButtonState, gait: Gait) -> Gait {
    if s.btn_west {
        gait
    } else if s.btn_east {
        Gait::WALK
    } else if s.btn_north {
        gait
    } else if s.btn_south {
        Gait::STAND
    } else {
        gait
    }
}

/// What the face buttons do to the gait, for every button state and gait:
/// west held keeps it whatever else is held; otherwise east selects walking
/// from any gait; otherwise north keeps it; otherwise south selects standing;
/// with none of them held it stays; and the only gaits the buttons ever select
/// are walking and standing.
pub proof fn lemma_gait_buttons(s: ButtonState, gait: Gait)
    ensures
        s.btn_west ==> gait_after(s, gait) == gait,
        !s.btn_west && s.btn_east ==> gait_after(s, gait) == Gait::WALK,
        !s.btn_west && !s.btn_east && s.btn_north ==> gait_after(s, gait) == gait,
        !s.btn_west && !s.btn_east && !s.btn_north && s.btn_south ==> gait_after(s, gait) == Gait::STAND,
        !s.btn_west && !s.btn_east && !s.btn_north && !s.btn_south ==> gait_after(s, gait) == gait,
        gait_after(s, gait) == gait || gait_after(s, gait) == Gait::WALK || gait_after(s, gait) == Gait::STAND,
{
}

/// The gait selected by the face buttons, starting from `gait`.
pub fn map_gait(s: &ButtonState, gait: Gait) -> (next: Gait)
    ensures
        next == gait_after(*s, gait),
        !s.btn_west && s.btn_east ==> next == Gait::WALK,
        !s.btn_west && !s.btn_east && !s.btn_north && s.btn_south ==> next == Gait::STAND,
        next != gait ==> next == Gait::WALK || next == Gait::STAND,
{
    if s.btn_west {
        gait
    } else if s.btn_east {
        Gait::WALK
    } else if s.btn_north {
        gait
    } else if s.btn_south {
        Gait::STAND
    } else {
        gait
    }
}

/// What happens to one adjustable command value on a tick.
#[derive(Debug, Clone, Copy, PartialEq, Eq, Structural)]
pub enum Adjust {
    /// Lower it by one step and restart its debounce timer.
    Lower,
    /// Raise it by one step and restart its debounce timer.
    Raise,
    /// Leave it and its timer as they are.
    Keep,
}

/// The adjustments of one tick, one per adjustable value.
#[derive(Debug, Clone, Copy, PartialEq, Eq, Structural)]
pub struct IncrementPlan {
    pub step_height: Adjust,
    pub step_duration: Adjust,
    pub base_height: Adjust,
}

/// One value's adjustment: the lowering button wins over the raising one, and
/// nothing happens before `min_interval_ms` have passed since the last change.
pub open spec fn adjust_for(lower: bool, raise: bool, elapsed_ms: u128, min_interval_ms: u64) -> Adjust {
    if lower {
        if elapsed_ms >= min_interval_ms {
            Adjust::Lower
        } else {
            Adjust::Keep
        }
    } else if raise {
        if elapsed_ms >= min_interval_ms {
            Adjust::Raise
        } else {
            Adjust::Keep
        }
    } else {
        Adjust::Keep
    }
}

fn decide_adjust(lower: bool, raise: bool, elapsed_ms: u128, min_interval_ms: u64) -> (a: Adjust)
    ensures
        a == adjust_for(lower, raise, elapsed_ms, min_interval_ms),
{
    if lower {
        if elapsed_ms >= min_interval_ms as u128 {
            Adjust::Lower
        } else {
            Adjust::Keep
        }
    } else if raise {
        if elapsed_ms >= min_interval_ms as u128 {
            Adjust::Raise
        } else {
            Adjust::Keep
        }
    } else {
        Adjust::Keep
    }
}

/// The debounced adjustments of one tick: the left/right shoulder buttons lower or
/// raise the step height, d-pad left/right the step duration, d-pad down/up the
/// base height. Each `*_elapsed_ms` is the time since that value last changed.
pub fn plan_increments(
    s: &ButtonState,
    step_height_elapsed_ms: u128,
    step_duration_elapsed_ms: u128,
    base_height_elapsed_ms: u128,
    min_interval_ms: u64,
) -> (plan: IncrementPlan)
    ensures
        plan.step_height == adjust_for(s.left_button, s.right_button, step_height_elapsed_ms, min_interval_ms),
        plan.step_duration == adjust_for(s.btn_dpad_left, s.btn_dpad_right, step_duration_elapsed_ms, min_interval_ms),
        plan.base_height == adjust_for(s.btn_dpad_down, s.btn_dpad_up, base_height_elapsed_ms, min_interval_ms),
{
    IncrementPlan {
        step_height: decide_adjust(s.left_button, s.right_button, step_height_elapsed_ms, min_interval_ms),
        step_duration: decide_adjust(s.btn_dpad_left, s.btn_dpad_right, step_duration_elapsed_ms, min_interval_ms),
        base_height: decide_adjust(s.btn_dpad_down, s.btn_dpad_up, base_height_elapsed_ms, min_interval_ms),
    }
}

/// Nanoseconds in a millisecond.
pub const NANOS_PER_MILLI: u128 = 1_000_000;

/// When each adjustable value last changed, in nanoseconds on a monotonic clock.
#[derive(Debug, Clone, Copy, PartialEq, Eq, Structural)]
pub struct DebounceTimers {
    pub step_height_ns: u128,
    pub step_duration_ns: u128,
    pub base_height_ns: u128,
}

/// Whole milliseconds from `last_ns` to `now_ns` (zero where `now_ns` is earlier).
pub open spec fn elapsed_ms(last_ns: u128, now_ns: u128) -> u128 {
    if now_ns >= last_ns {
        ((now_ns - last_ns) as u128 / NANOS_PER_MILLI) as u128
    } else {
        0
    }
}

/// A value's last-change instant after adjustment `a` at `now_ns`: restarted
/// where the value changed, kept where it did not.
pub open spec fn restart_at(last_ns: u128, a: Adjust, now_ns: u128) -> u128 {
    if a == Adjust::Keep {
        last_ns
    } else {
        now_ns
    }
}

/// The adjustments at `now_ns` given when each value last changed.
pub open spec fn timed_plan(t: DebounceTimers, s: ButtonState, now_ns: u128, min_interval_ms: u64) -> IncrementPlan {
    IncrementPlan {
        step_height: adjust_for(s.left_button, s.right_button, elapsed_ms(t.step_height_ns, now_ns), min_interval_ms),
        step_duration: adjust_for(s.btn_dpad_left, s.btn_dpad_right, elapsed_ms(t.step_duration_ns, now_ns), min_interval_ms),
        base_height: adjust_for(s.btn_dpad_down, s.btn_dpad_up, elapsed_ms(t.base_height_ns, now_ns), min_interval_ms),
    }
}

/// The last-change instants after carrying out plan `p` at `now_ns`.
pub open spec fn timers_after(t: DebounceTimers, p: IncrementPlan, now_ns: u128) -> DebounceTimers {
    DebounceTimers {
        step_height_ns: restart_at(t.step_height_ns, p.step_height, now_ns),
        step_duration_ns: restart_at(t.step_duration_ns, p.step_duration, now_ns),
        base_height_ns: restart_at(t.base_height_ns, p.base_height, now_ns),
    }
}

fn elapsed_millis(last_ns: u128, now_ns: u128) -> (ms: u128)
    ensures
        ms == elapsed_ms(last_ns, now_ns),
{
    if now_ns >= last_ns {
        (now_ns - last_ns) / NANOS_PER_MILLI
    } else {
        0
    }
}

fn restarted(last_ns: u128, a: Adjust, now_ns: u128) -> (ns: u128)
    ensures
        ns == restart_at(last_ns, a, now_ns),
{
    match a {
        Adjust::Keep => last_ns,
        _ => now_ns,
    }
}

impl DebounceTimers {
    /// Every value counts as changed at `now_ns`.
    pub fn new(now_ns: u128) -> (t: DebounceTimers)
        ensures
            t == (DebounceTimers { step_height_ns: now_ns, step_duration_ns: now_ns, base_height_ns: now_ns }),
    {
        DebounceTimers { step_height_ns: now_ns, step_duration_ns: now_ns, base_height_ns: now_ns }
    }

    /// The debounced adjustments at `now_ns`; restarts the timer of every value
    /// that changes.
    pub fn plan(&mut self, s: &ButtonState, now_ns: u128, min_interval_ms: u64) -> (p: IncrementPlan)
        ensures
            p == timed_plan(*old(self), *s, now_ns, min_interval_ms),
            *final(self) == timers_after(*old(self), p, now_ns),
    {
        let p = plan_increments(
            s,
            elapsed_millis(self.step_height_ns, now_ns),
            elapsed_millis(self.step_duration_ns, now_ns),
            elapsed_millis(self.base_height_ns, now_ns),
            min_interval_ms,
        );
        self.step_height_ns = restarted(self.step_height_ns, p.step_height, now_ns);
        self.step_duration_ns = restarted(self.step_duration_ns, p.step_duration, now_ns);
        self.base_height_ns = restarted(self.base_height_ns, p.base_height, now_ns);
        p
    }
}

/// Each value changes at most once per interval: after it changes at `now_ns`,
/// no buttons change it again at a later instant less than `min_interval_ms`
/// after, whatever the buttons; and a value that did not change keeps its timer.
pub proof fn lemma_one_change_per_interval(
    t: DebounceTimers,
    s: ButtonState,
    now_ns: u128,
    min_interval_ms: u64,
    later_s: ButtonState,
    later_ns: u128,
)
    requires
        now_ns <= later_ns,
        elapsed_ms(now_ns, later_ns) < min_interval_ms,
    ensures
        ({
            let p = timed_plan(t, s, now_ns, min_interval_ms);
            let q = timed_plan(timers_after(t, p, now_ns), later_s, later_ns, min_interval_ms);
            &&& p.step_height != Adjust::Keep ==> q.step_height == Adjust::Keep
            &&& p.step_duration != Adjust::Keep ==> q.step_duration == Adjust::Keep
            &&& p.base_height != Adjust::Keep ==> q.base_height == Adjust::Keep
            &&& p.step_height == Adjust::Keep ==> timers_after(t, p, now_ns).step_height_ns == t.step_height_ns
            &&& p.step_duration == Adjust::Keep ==> timers_after(t, p, now_ns).step_duration_ns == t.step_duration_ns
            &&& p.base_height == Adjust::Keep ==> timers_after(t, p, now_ns).base_height_ns == t.base_height_ns
        }),
{
}

/// What one tick changes in the command while the lock is active.
#[derive(Debug, Clone, Copy, PartialEq, Eq, Structural)]
pub struct TickPlan {
    pub gait: Gait,
    pub increments: IncrementPlan,
}

impl ActivationLock {
    /// The button-driven part of one mapper tick at `now_ns`: advances the lock and,
    /// while it is active, gives the gait that the face buttons select and the
    /// debounced adjustments, restarting the timers of the values that change;
    /// `None` (nothing to send, timers untouched) while it is not active.
    pub fn plan_tick(
        &mut self,
        s: &ButtonState,
        gait: Gait,
        timers: &mut DebounceTimers,
        now_ns: u128,
        min_interval_ms: u64,
    ) -> (plan: Option<TickPlan>)
        ensures
            *final(self) == activation_step(*old(self), s.left_button && s.right_button),
            final(self).activate <==> plan is Some,
            plan is None ==> *final(timers) == *old(timers),
            plan matches Some(p) ==> p.gait == gait_after(*s, gait)
                && p.increments == timed_plan(*old(timers), *s, now_ns, min_interval_ms)
                && *final(timers) == timers_after(*old(timers), p.increments, now_ns),
    {
        self.update_activate(s);
        if !self.activate {
            return None;
        }
        let next_gait = map_gait(s, gait);
        let increments = timers.plan(s, now_ns, min_interval_ms);
        Some(TickPlan { gait: next_gait, increments })
    }
}

} // verus!
