use dog_teleop::command::Gait;
use dog_teleop::mapping::{
    map_gait, plan_increments, ActivationLock, Adjust, ButtonState, Curve, DebounceTimers, IncrementPlan,
    TickPlan, ACTIVATE_HOLD_TICKS, NANOS_PER_MILLI,
};

fn none() -> ButtonState {
    ButtonState {
        left_button: false,
        right_button: false,
        btn_south: false,
        btn_east: false,
        btn_north: false,
        btn_west: false,
        btn_dpad_up: false,
        btn_dpad_down: false,
        btn_dpad_left: false,
        btn_dpad_right: false,
    }
}

fn both_shoulders() -> ButtonState {
    ButtonState { left_button: true, right_button: true, ..none() }
}

#[test]
fn gait_codes_match_message() {
    assert_eq!(Gait::STAND.code(), 0);
    assert_eq!(Gait::WALK.code(), 1);
    assert_eq!(Gait::JUMP.code(), 2);
    assert_eq!(Gait::DEACTIVE.code(), 3);
}

#[test]
fn new_lock_is_inactive() {
    let lock = ActivationLock::new();
    assert!(!lock.activate);
    assert_eq!(lock.activate_counter, 0);
    assert!(!lock.activate_toggle_lock);
}

#[test]
fn long_press_toggles_on_eleventh_tick() {
    let mut lock = ActivationLock::new();
    let s = both_shoulders();
    for tick in 1..=ACTIVATE_HOLD_TICKS {
        lock.update_activate(&s);
        assert!(!lock.activate);
        assert_eq!(lock.activate_counter, tick);
    }
    lock.update_activate(&s);
    assert!(lock.activate);
    assert_eq!(lock.activate_counter, 0);
    assert!(lock.activate_toggle_lock);
}

#[test]
fn held_press_toggles_only_once() {
    let mut lock = ActivationLock::new();
    let s = both_shoulders();
    for _ in 0..100 {
        lock.update_activate(&s);
    }
    assert!(lock.activate);
    assert!(lock.activate_toggle_lock);
}

#[test]
fn release_rearms_and_second_press_deactivates() {
    let mut lock = ActivationLock::new();
    let s = both_shoulders();
    for _ in 0..11 {
        lock.update_activate(&s);
    }
    assert!(lock.activate);
    lock.update_activate(&none());
    assert!(lock.activate);
    assert!(!lock.activate_toggle_lock);
    assert_eq!(lock.activate_counter, 0);
    for _ in 0..11 {
        lock.update_activate(&s);
    }
    assert!(!lock.activate);
}

#[test]
fn one_shoulder_resets_counter() {
    let mut lock = ActivationLock::new();
    for _ in 0..5 {
        lock.update_activate(&both_shoulders());
    }
    assert_eq!(lock.activate_counter, 5);
    lock.update_activate(&ButtonState { left_button: true, ..none() });
    assert_eq!(lock.activate_counter, 0);
    for _ in 0..10 {
        lock.update_activate(&both_shoulders());
    }
    assert!(!lock.activate);
}

#[test]
fn gait_buttons_by_priority() {
    assert_eq!(map_gait(&ButtonState { btn_east: true, ..none() }, Gait::STAND), Gait::WALK);
    assert_eq!(map_gait(&ButtonState { btn_south: true, ..none() }, Gait::WALK), Gait::STAND);
    assert_eq!(map_gait(&ButtonState { btn_west: true, btn_east: true, ..none() }, Gait::STAND), Gait::STAND);
    assert_eq!(map_gait(&ButtonState { btn_north: true, btn_south: true, ..none() }, Gait::WALK), Gait::WALK);
    assert_eq!(map_gait(&ButtonState { btn_east: true, btn_south: true, ..none() }, Gait::STAND), Gait::WALK);
    assert_eq!(map_gait(&none(), Gait::JUMP), Gait::JUMP);
}

#[test]
fn increments_wait_for_interval() {
    let s = ButtonState { right_button: true, btn_dpad_left: true, btn_dpad_up: true, ..none() };
    let plan = plan_increments(&s, 150, 149, 1000, 150);
    assert_eq!(
        plan,
        IncrementPlan { step_height: Adjust::Raise, step_duration: Adjust::Keep, base_height: Adjust::Raise }
    );
}

#[test]
fn lowering_button_wins() {
    let s = ButtonState {
        left_button: true,
        right_button: true,
        btn_dpad_left: true,
        btn_dpad_right: true,
        btn_dpad_down: true,
        btn_dpad_up: true,
        ..none()
    };
    let plan = plan_increments(&s, 500, 500, 500, 150);
    assert_eq!(
        plan,
        IncrementPlan { step_height: Adjust::Lower, step_duration: Adjust::Lower, base_height: Adjust::Lower }
    );
    let idle = plan_increments(&none(), 500, 500, 500, 150);
    assert_eq!(idle, IncrementPlan { step_height: Adjust::Keep, step_duration: Adjust::Keep, base_height: Adjust::Keep });
}

#[test]
fn plan_tick_sends_nothing_while_inactive() {
    let mut lock = ActivationLock::new();
    let mut timers = DebounceTimers::new(0);
    let s = ButtonState { btn_east: true, left_button: true, ..none() };
    assert_eq!(lock.plan_tick(&s, Gait::STAND, &mut timers, 1000 * NANOS_PER_MILLI, 150), None);
    assert_eq!(timers, DebounceTimers::new(0));
}

#[test]
fn plan_tick_while_active() {
    let mut lock = ActivationLock { activate: true, activate_counter: 0, activate_toggle_lock: false };
    let s = ButtonState { btn_east: true, btn_dpad_down: true, ..none() };
    let mut timers = DebounceTimers { step_height_ns: 0, step_duration_ns: 0, base_height_ns: 0 };
    let now = 200 * NANOS_PER_MILLI;
    let plan = lock.plan_tick(&s, Gait::STAND, &mut timers, now, 150);
    assert_eq!(
        plan,
        Some(TickPlan {
            gait: Gait::WALK,
            increments: IncrementPlan { step_height: Adjust::Keep, step_duration: Adjust::Keep, base_height: Adjust::Lower },
        })
    );
    assert_eq!(timers, DebounceTimers { step_height_ns: 0, step_duration_ns: 0, base_height_ns: now });
}

#[test]
fn held_button_changes_once_per_interval() {
    let s = ButtonState { right_button: true, ..none() };
    let mut timers = DebounceTimers::new(0);
    let ms = |m: u128| m * NANOS_PER_MILLI;
    // Within the first interval after start nothing changes.
    assert_eq!(timers.plan(&s, ms(149), 150).step_height, Adjust::Keep);
    assert_eq!(timers.plan(&s, ms(150), 150).step_height, Adjust::Raise);
    assert_eq!(timers.step_height_ns, ms(150));
    // Held on: the next change comes a full interval later.
    assert_eq!(timers.plan(&s, ms(299) + 999_999, 150).step_height, Adjust::Keep);
    assert_eq!(timers.plan(&s, ms(300), 150).step_height, Adjust::Raise);
    assert_eq!(timers.step_height_ns, ms(300));
    // Other timers untouched.
    assert_eq!(timers.step_duration_ns, 0);
    assert_eq!(timers.base_height_ns, 0);
}

#[test]
fn earlier_clock_reading_counts_as_no_time() {
    let s = ButtonState { btn_dpad_up: true, ..none() };
    let mut timers = DebounceTimers::new(1_000_000_000);
    assert_eq!(timers.plan(&s, 0, 0).base_height, Adjust::Raise);
    assert_eq!(timers.plan(&s, 0, 1).base_height, Adjust::Keep);
}

#[test]
fn curve_variants_distinct() {
    assert_ne!(Curve::Linear, Curve::Exponential);
    assert_ne!(Curve::Exponential, Curve::SCurve);
}
