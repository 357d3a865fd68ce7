//! Batteries as UPower reports them: which devices count as batteries and
//! how the state and times of several batteries combine.

use vstd::prelude::*;

verus! {

/// UPower's device type for batteries.
pub const DEVICE_TYPE_BATTERY: u32 = 2;

/// UPower's battery state for charging.
pub const STATE_CHARGING: u32 = 1;

/// UPower's battery state for discharging.
pub const STATE_DISCHARGING: u32 = 2;

/// UPower's battery state for fully charged.
pub const STATE_FULLY_CHARGED: i32 = 4;

/// Whether a UPower device is one of the system's batteries: a battery that
/// powers the system.
pub fn is_system_battery(device_type: u32, power_supply: bool) -> (b: bool)
    ensures
        b == (device_type == DEVICE_TYPE_BATTERY && power_supply),
{
    device_type == DEVICE_TYPE_BATTERY && power_supply
}

/// Whether one of the states read is `state`.
pub open spec fn some_state_is(states: Seq<Option<u32>>, state: u32) -> bool {
    exists|i: int| 0 <= i < states.len() && states[i] == Some(state)
}

/// The state of several batteries, from the state read of each (`None`
/// where it could not be read): charging when one charges, else
/// discharging when one discharges, else fully charged.
pub fn combined_state(states: &Vec<Option<u32>>) -> (s: i32)
    ensures
        some_state_is(states@, STATE_CHARGING) ==> s == STATE_CHARGING,
        !some_state_is(states@, STATE_CHARGING) && some_state_is(states@, STATE_DISCHARGING) ==> s
            == STATE_DISCHARGING,
        !some_state_is(states@, STATE_CHARGING) && !some_state_is(states@, STATE_DISCHARGING) ==> s
            == STATE_FULLY_CHARGED,
{
    let mut charging = false;
    let mut discharging = false;
    let mut i: usize = 0;
    while i < states.len()
        invariant
            i <= states@.len(),
            charging == exists|j: int| 0 <= j < i && states@[j] == Some(STATE_CHARGING),
            discharging == exists|j: int| 0 <= j < i && states@[j] == Some(STATE_DISCHARGING),
        decreases states@.len() - i,
    {
        match states[i] {
            Some(v) => {
                if v == STATE_CHARGING {
                    charging = true;
                } else if v == STATE_DISCHARGING {
                    discharging = true;
                }
            },
            None => {},
        }
        i = i + 1;
    }
    if charging {
        1
    } else if discharging {
        2
    } else {
        4
    }
}

/// The sum of the times that could be read.
pub open spec fn times_sum(times: Seq<Option<i64>>) -> int
    decreases times.len(),
{
    if times.len() == 0 {
        0
    } else {
        times_sum(times.drop_last()) + match times.last() {
            Some(t) => t as int,
            None => 0,
        }
    }
}

/// Whether every partial sum of the times read fits in an `i64`.
pub open spec fn partial_sums_fit(times: Seq<Option<i64>>) -> bool {
    forall|k: int| 0 <= k <= times.len() ==> i64::MIN <= #[trigger] times_sum(times.take(k)) <= i64::MAX
}

/// The time to empty (or to full) of several batteries: the sum of the
/// times read, in seconds.
pub fn total_time(times: &Vec<Option<i64>>) -> (t: i64)
    requires
        partial_sums_fit(times@),
    ensures
        t == times_sum(times@),
{
    let mut total: i64 = 0;
    let mut i: usize = 0;
    while i < times.len()
        invariant
            i <= times@.len(),
            partial_sums_fit(times@),
            total == times_sum(times@.take(i as int)),
        decreases times@.len() - i,
    {
        proof {
            assert(times@.take(i + 1).drop_last() =~= times@.take(i as int));
            assert(i64::MIN <= times_sum(times@.take(i + 1)) <= i64::MAX);
        }
        match times[i] {
            Some(v) => {
                total = total + v;
            },
            None => {},
        }
        i = i + 1;
    }
    proof {
        assert(times@.take(times@.len() as int) =~= times@);
    }
    total
}

} // verus!
