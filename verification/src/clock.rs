//! The ledger clock and the jump that brings it to a wall-clock timestamp.

use vstd::prelude::*;

verus! {

/// Nanoseconds in one second.
pub const NANOS_PER_SECOND: i64 = 1_000_000_000;

/// The clock of the ledger: a slot counter and the wall-clock time it reports.
#[derive(Clone, Copy, Debug, PartialEq, Eq, Structural)]
pub struct ClockState {
    pub slot: u64,
    pub unix_timestamp: i64,
}

/// Why a clock jump was refused.
#[derive(Clone, Copy, Debug, PartialEq, Eq, Structural)]
pub enum WarpError {
    /// The target does not lie after the current timestamp: time cannot be
    /// moved backward.
    InvalidWarpSlot,
}

/// Whole slots that fit between two timestamps, given the length of a slot in
/// nanoseconds.
pub open spec fn projected_slots(now: i64, target: i64, ns_per_slot: u128) -> int {
    ((target - now) * NANOS_PER_SECOND) / (ns_per_slot as int)
}

/// The inputs for which the jump can be computed in machine integers: the
/// distance in nanoseconds fits a signed 64-bit integer, a slot has a length,
/// and the slot to jump to fits an unsigned 64-bit integer.
pub open spec fn warp_computable(clock: ClockState, target: i64, ns_per_slot: u128) -> bool {
    clock.unix_timestamp < target ==> {
        &&& (target - clock.unix_timestamp) * NANOS_PER_SECOND <= i64::MAX
        &&& ns_per_slot > 0
        &&& clock.slot + projected_slots(clock.unix_timestamp, target, ns_per_slot) <= u64::MAX
    }
}

/// What a jump to `target` makes of the clock, and the slot to jump to: a
/// target that does not lie after the current timestamp is refused; otherwise
/// the clock reports `target` at its old slot, and the slot to jump to lies
/// ahead of that by the whole slots that fit into the distance.
pub open spec fn warped(clock: ClockState, target: i64, ns_per_slot: u128) -> Result<
    (ClockState, int),
    WarpError,
> {
    if clock.unix_timestamp >= target {
        Err(WarpError::InvalidWarpSlot)
    } else {
        Ok(
            (
                ClockState { slot: clock.slot, unix_timestamp: target },
                clock.slot + projected_slots(clock.unix_timestamp, target, ns_per_slot),
            ),
        )
    }
}

/// Time cannot be moved backward: every target at or before the current
/// timestamp is refused as an invalid warp slot, whatever the slot length.
pub proof fn lemma_backward_warp_is_refused(clock: ClockState, target: i64, ns_per_slot: u128)
    requires
        target <= clock.unix_timestamp,
    ensures
        warped(clock, target, ns_per_slot) == Err::<(ClockState, int), WarpError>(
            WarpError::InvalidWarpSlot,
        ),
{
}

/// A jump by `seconds` ahead is granted: the clock then reports the old
/// timestamp plus `seconds`, so no earlier time than the target, and the slot
/// to jump to is the old slot plus the seconds in nanoseconds divided by the
/// slot length, rounded down.
pub proof fn lemma_forward_warp_projects_slots(clock: ClockState, seconds: int, ns_per_slot: u128)
    requires
        0 < seconds,
        clock.unix_timestamp + seconds <= i64::MAX,
        0 < ns_per_slot,
    ensures
        ({
            let target = (clock.unix_timestamp + seconds) as i64;
            &&& warped(clock, target, ns_per_slot) matches Ok((after, slot))
            &&& after.unix_timestamp >= clock.unix_timestamp + seconds
            &&& after.slot == clock.slot
            &&& slot == clock.slot + (seconds * 1_000_000_000) / (ns_per_slot as int)
            &&& slot >= clock.slot
        }),
{
    let nanos = seconds * 1_000_000_000;
    lemma_quotient_bounded(nanos, ns_per_slot as int);
}

/// Decides whether [`warp_to_timestamp`] can be called on these inputs.
pub fn can_warp(clock: &ClockState, target: i64, ns_per_slot: u128) -> (ok: bool)
    ensures
        ok == warp_computable(*clock, target, ns_per_slot),
{
    let now = clock.unix_timestamp;
    if now >= target {
        return true;
    }
    let distance: i128 = target as i128 - now as i128;
    let nanos: i128 = distance * 1_000_000_000;
    if nanos > i64::MAX as i128 || ns_per_slot == 0 {
        return false;
    }
    let slots: u128 = nanos as u128 / ns_per_slot;
    proof {
        lemma_quotient_bounded(nanos as int, ns_per_slot as int);
    }
    slots <= (u64::MAX - clock.slot) as u128
}

/// A quotient by a positive divisor lies between zero and the dividend.
proof fn lemma_quotient_bounded(x: int, d: int)
    requires
        0 <= x,
        0 < d,
    ensures
        0 <= x / d <= x,
{
    vstd::arithmetic::div_mod::lemma_div_pos_is_pos(x, d);
    vstd::arithmetic::div_mod::lemma_div_is_ordered_by_denominator(x, 1, d);
    vstd::arithmetic::div_mod::lemma_div_basics(x);
}

/// Brings the clock to `target` and returns the slot to jump to.
///
/// A target that does not lie after the current timestamp is refused and the
/// clock is left as it was. Otherwise the clock reports `target`, keeps its
/// slot, and the slot returned lies ahead of it by the whole slots that fit
/// into the distance.
pub fn warp_to_timestamp(
    clock: &mut ClockState,
    target: i64,
    ns_per_slot: u128,
) -> (result: Result<u64, WarpError>)
    requires
        warp_computable(*old(clock), target, ns_per_slot),
    ensures
        match warped(*old(clock), target, ns_per_slot) {
            Err(refusal) => result == Err::<u64, WarpError>(refusal) && *final(clock) == *old(
                clock,
            ),
            Ok((after, slot)) => result is Ok && result->Ok_0 == slot && *final(clock) == after,
        },
{
    let now = clock.unix_timestamp;
    if now >= target {
        return Err(WarpError::InvalidWarpSlot);
    }
    let distance: i64 = target - now;
    let nanos: i64 = distance * NANOS_PER_SECOND;
    let slots_wide: u128 = nanos as u128 / ns_per_slot;
    proof {
        lemma_quotient_bounded(nanos as int, ns_per_slot as int);
    }
    let slots: u64 = slots_wide as u64;
    clock.unix_timestamp = target;
    Ok(clock.slot + slots)
}

/// Slots by which the stepwise strategy moves the ledger at a time.
pub const SLOT_STEP: u64 = 2;

/// What the stepwise strategy does next.
#[derive(Clone, Copy, Debug, PartialEq, Eq, Structural)]
pub enum WarpStep {
    /// The clock reports the target or a later time: nothing is left to do.
    Reached,
    /// Jump to this slot, then read the clock again.
    Advance { slot: u64 },
}

/// Decides the next move of the stepwise strategy, which jumps
/// [`SLOT_STEP`] slots ahead for as long as the clock reports a time before
/// `target`.
///
/// Whether the clock ever reaches the target is up to the runtime: the
/// strategy ends only if jumping ahead moves the reported time.
pub fn next_warp_step(clock: &ClockState, target: i64) -> (step: WarpStep)
    requires
        clock.unix_timestamp < target ==> clock.slot + SLOT_STEP <= u64::MAX,
    ensures
        clock.unix_timestamp >= target ==> step == WarpStep::Reached,
        clock.unix_timestamp < target ==> (step matches WarpStep::Advance { slot } && slot
            == clock.slot + SLOT_STEP),
{
    if clock.unix_timestamp < target {
        WarpStep::Advance { slot: clock.slot + SLOT_STEP }
    } else {
        WarpStep::Reached
    }
}

} // verus!
