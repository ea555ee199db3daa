//! Passive recovery of health and mana points: every four seconds a living
//! character recovers, more while sitting, up to its maximum.

use vstd::prelude::*;

verus! {

/// Nanoseconds between two recoveries.
pub const RECOVERY_INTERVAL_NANOS: u128 = 4_000_000_000;

/// The longest duration, in nanoseconds.
pub const MAX_DURATION_NANOS: u128 = 18_446_744_073_709_551_615_999_999_999;

/// How a character recovers: normally, or faster while sitting.
#[derive(PartialEq, Eq, Structural, Clone, Copy)]
pub enum PassiveRecoveryState {
    Normal,
    Sitting,
}

/// The recovery state of a character that is or is not sitting.
pub fn recovery_state(sitting: bool) -> (res: PassiveRecoveryState)
    ensures
        res == (if sitting { PassiveRecoveryState::Sitting } else { PassiveRecoveryState::Normal }),
{
    if sitting {
        PassiveRecoveryState::Sitting
    } else {
        PassiveRecoveryState::Normal
    }
}

/// The time gathered towards the next recovery after a frame of `delta`:
/// one interval is taken off once the gathered time exceeds it.
pub open spec fn recovery_time_after(time: int, delta: int) -> int {
    if time + delta > RECOVERY_INTERVAL_NANOS {
        time + delta - RECOVERY_INTERVAL_NANOS
    } else {
        time + delta
    }
}

/// How a character recovers after a frame of `delta`, if it does: only when
/// the gathered time exceeds the interval, and never while dead.
pub open spec fn recovery_after(time: int, delta: int, dead: bool, sitting: bool) -> Option<PassiveRecoveryState> {
    if time + delta > RECOVERY_INTERVAL_NANOS && !dead {
        Some(if sitting { PassiveRecoveryState::Sitting } else { PassiveRecoveryState::Normal })
    } else {
        None
    }
}

/// A character's recovery timer after a frame, and whether it recovers now.
pub struct RecoveryTick {
    /// The time gathered towards the next recovery, in nanoseconds.
    pub time: u128,
    /// How the character recovers this frame, if it does.
    pub recover: Option<PassiveRecoveryState>,
}

/// Advances a character's recovery timer by the frame's `delta`. Once the
/// gathered time exceeds the interval, one interval is taken off it, and the
/// character recovers unless it is dead.
pub fn passive_recovery_tick(time: u128, delta: u128, dead: bool, sitting: bool) -> (res: RecoveryTick)
    requires
        time + delta <= MAX_DURATION_NANOS,
    ensures
        res.time == recovery_time_after(time as int, delta as int),
        res.recover == recovery_after(time as int, delta as int, dead, sitting),
        dead ==> res.recover is None,
        time + delta <= RECOVERY_INTERVAL_NANOS ==> res.recover is None && res.time == time + delta,
        time + delta > RECOVERY_INTERVAL_NANOS ==> res.time == time + delta - RECOVERY_INTERVAL_NANOS,
        time + delta > RECOVERY_INTERVAL_NANOS && !dead && sitting ==> res.recover == Some(PassiveRecoveryState::Sitting),
        time + delta > RECOVERY_INTERVAL_NANOS && !dead && !sitting ==> res.recover == Some(PassiveRecoveryState::Normal),
{
    let mut gathered: u128 = time + delta;
    if gathered > RECOVERY_INTERVAL_NANOS {
        gathered = gathered - RECOVERY_INTERVAL_NANOS;
        if dead {
            return RecoveryTick { time: gathered, recover: None };
        }
        RecoveryTick { time: gathered, recover: Some(recovery_state(sitting)) }
    } else {
        RecoveryTick { time: gathered, recover: None }
    }
}

/// Points after a recovery of `recover`: raised by it, but not past `max`.
pub fn recovered_points(current: i32, recover: i32, max: i32) -> (res: i32)
    requires
        i32::MIN <= current + recover <= i32::MAX,
    ensures
        res == (if current + recover < max { current + recover } else { max as int }),
        res <= max,
        recover >= 0 && current <= max ==> current <= res,
{
    let raised: i32 = current + recover;
    if raised < max {
        raised
    } else {
        max
    }
}

/// While no frame lasts longer than the interval, the recovery timer never
/// holds more than one interval, and it never loses time but the interval it
/// pays for a recovery.
pub proof fn law_recovery_timer_bounded(time: int, delta: int)
    requires
        0 <= time <= RECOVERY_INTERVAL_NANOS,
        0 <= delta <= RECOVERY_INTERVAL_NANOS,
    ensures
        0 <= recovery_time_after(time, delta) <= RECOVERY_INTERVAL_NANOS,
        recovery_time_after(time, delta) == time + delta
            || recovery_time_after(time, delta) == time + delta - RECOVERY_INTERVAL_NANOS,
{
}

/// A dead character never recovers; a living one recovers exactly when the
/// gathered time passes the interval, faster while sitting; and the timer pays
/// one interval for each time it passes it.
pub proof fn law_recovery_rules(time: int, delta: int, dead: bool, sitting: bool)
    ensures
        dead ==> recovery_after(time, delta, dead, sitting) is None,
        time + delta <= RECOVERY_INTERVAL_NANOS ==> recovery_after(time, delta, dead, sitting) is None,
        time + delta > RECOVERY_INTERVAL_NANOS && !dead && sitting
            ==> recovery_after(time, delta, dead, sitting) == Some(PassiveRecoveryState::Sitting),
        time + delta > RECOVERY_INTERVAL_NANOS && !dead && !sitting
            ==> recovery_after(time, delta, dead, sitting) == Some(PassiveRecoveryState::Normal),
        time + delta > RECOVERY_INTERVAL_NANOS ==> recovery_time_after(time, delta) == time + delta - RECOVERY_INTERVAL_NANOS,
        time + delta <= RECOVERY_INTERVAL_NANOS ==> recovery_time_after(time, delta) == time + delta,
{
}

} // verus!
