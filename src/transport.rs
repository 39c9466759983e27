//! Seeking and volume arithmetic.
//!
//! Times are whole milliseconds. Volume is held in hundredths of the
//! output's unit gain, so `100` plays at the recording's own loudness and
//! `MAX_VOLUME` at twice that.

use vstd::prelude::*;

verus! {

/// Highest volume, in hundredths: twice the recording's own loudness.
pub const MAX_VOLUME: u32 = 200;

/// How far one press of a volume key moves the volume, in hundredths.
pub const VOLUME_STEP: u32 = 5;

/// How far one press of a seek key moves the position, in milliseconds.
pub const SEEK_STEP_MS: u64 = 5000;

/// A forward seek never lands closer to the end than this.
pub const END_MARGIN_MS: u64 = 1000;

/// A rewind never lands earlier than this.
pub const REWIND_FLOOR_MS: u64 = 1000;

/// `a - b`, or zero where `b` is larger.
pub open spec fn saturating_diff(a: int, b: int) -> int {
    if a >= b { a - b } else { 0 }
}

/// `x` brought into `[0, MAX_VOLUME]`.
pub open spec fn clamp_volume(x: int) -> int {
    if x < 0 { 0 } else if x > MAX_VOLUME as int { MAX_VOLUME as int } else { x }
}

/// Where a forward seek of `amount` from `pos` lands in a track of length
/// `dur`, if it moves at all.
pub open spec fn forward_spec(pos: int, dur: int, amount: int) -> Option<int> {
    let remaining = saturating_diff(dur, pos);
    if pos + amount < dur {
        Some(pos + amount)
    } else if remaining < amount && remaining > END_MARGIN_MS as int {
        Some(dur - END_MARGIN_MS as int)
    } else {
        None
    }
}

/// Where a rewind of `amount` from `pos` lands.
pub open spec fn rewind_spec(pos: int, amount: int) -> int {
    let back = saturating_diff(pos, amount);
    if back > REWIND_FLOOR_MS as int { back } else { REWIND_FLOOR_MS as int }
}

/// The position that a forward seek of `forward_dur` from `current_pos`
/// should move to, in a track of length `track_dur`.
///
/// The seek goes through when it lands before the end. Otherwise, when more
/// than `END_MARGIN_MS` is left, it stops `END_MARGIN_MS` short of the end;
/// else the position stays where it is (`None`). A seek therefore never lands
/// on or past the end, where the output would drain and read as finished.
pub fn forward(current_pos: u64, track_dur: u64, forward_dur: u64) -> (r: Option<u64>)
    ensures
        r matches Some(t) ==> forward_spec(current_pos as int, track_dur as int, forward_dur as int)
            == Some(t as int),
        r is None ==> forward_spec(current_pos as int, track_dur as int, forward_dur as int) is None,
        r matches Some(t) ==> t < track_dur,
{
    if current_pos >= track_dur {
        return None;
    }
    let remaining = track_dur - current_pos;
    if forward_dur < remaining {
        Some(current_pos + forward_dur)
    } else if remaining < forward_dur && remaining > END_MARGIN_MS {
        Some(track_dur - END_MARGIN_MS)
    } else {
        None
    }
}

/// The position that a rewind of `rewind_dur` from `current_pos` should move
/// to: `rewind_dur` earlier, but never before `REWIND_FLOOR_MS`.
pub fn rewind(current_pos: u64, rewind_dur: u64) -> (r: u64)
    ensures
        r as int == rewind_spec(current_pos as int, rewind_dur as int),
        r >= REWIND_FLOOR_MS,
        r <= current_pos || r == REWIND_FLOOR_MS,
{
    if current_pos > rewind_dur && current_pos - rewind_dur > REWIND_FLOOR_MS {
        current_pos - rewind_dur
    } else {
        REWIND_FLOOR_MS
    }
}

/// `volume` raised by `amount`, held at `MAX_VOLUME`.
pub fn increase_volume(volume: u32, amount: u32) -> (r: u32)
    ensures
        r as int == clamp_volume(volume + amount),
        r <= MAX_VOLUME,
{
    if volume >= MAX_VOLUME || amount >= MAX_VOLUME - volume {
        MAX_VOLUME
    } else {
        volume + amount
    }
}

/// `volume` lowered by `amount`, held at zero (and at `MAX_VOLUME`).
pub fn decrease_volume(volume: u32, amount: u32) -> (r: u32)
    ensures
        r as int == clamp_volume(volume - amount),
        r <= MAX_VOLUME,
{
    if amount >= volume {
        0
    } else if volume - amount > MAX_VOLUME {
        MAX_VOLUME
    } else {
        volume - amount
    }
}

/// The sum of `amounts`.
pub open spec fn total(amounts: Seq<u32>) -> int
    decreases amounts.len(),
{
    if amounts.len() == 0 {
        0
    } else {
        amounts[0] + total(amounts.drop_first())
    }
}

/// The volume after `increase_volume` by each of `amounts` in turn.
pub open spec fn raised_by_all(volume: int, amounts: Seq<u32>) -> int
    decreases amounts.len(),
{
    if amounts.len() == 0 {
        volume
    } else {
        raised_by_all(clamp_volume(volume + amounts[0]), amounts.drop_first())
    }
}

/// The volume after `decrease_volume` by each of `amounts` in turn.
pub open spec fn lowered_by_all(volume: int, amounts: Seq<u32>) -> int
    decreases amounts.len(),
{
    if amounts.len() == 0 {
        volume
    } else {
        lowered_by_all(clamp_volume(volume - amounts[0]), amounts.drop_first())
    }
}

/// Clamping is settled once: a run of volume increases ends where a single
/// increase by their sum would, so once the increases reach the ceiling the
/// volume rests at exactly `MAX_VOLUME`; likewise a run of decreases that
/// reaches the floor rests at exactly zero.
pub proof fn repeated_volume_changes_clamp(volume: int, amounts: Seq<u32>)
    requires
        0 <= volume <= MAX_VOLUME,
    ensures
        raised_by_all(volume, amounts) == clamp_volume(volume + total(amounts)),
        lowered_by_all(volume, amounts) == clamp_volume(volume - total(amounts)),
        volume + total(amounts) >= MAX_VOLUME ==> raised_by_all(volume, amounts) == MAX_VOLUME,
        volume - total(amounts) <= 0 ==> lowered_by_all(volume, amounts) == 0,
    decreases amounts.len(),
{
    if amounts.len() > 0 {
        let rest = amounts.drop_first();
        total_nonnegative(rest);
        repeated_volume_changes_clamp(clamp_volume(volume + amounts[0]), rest);
        repeated_volume_changes_clamp(clamp_volume(volume - amounts[0]), rest);
    }
}

proof fn total_nonnegative(amounts: Seq<u32>)
    ensures
        total(amounts) >= 0,
    decreases amounts.len(),
{
    if amounts.len() > 0 {
        total_nonnegative(amounts.drop_first());
    }
}

} // verus!
