//! The game's clock: how long a day lasts and what time of day it is, in milliseconds.

use vstd::prelude::*;

use crate::numbers::{clamp_to, Uf32};

verus! {

/// The largest value a `Uf32` holds.
pub open spec fn uf32_top() -> u32 {
    16777216
}

/// A `Uf32` operation's result held within its range.
pub open spec fn held(raw: int) -> u32 {
    clamp_to(raw, 0, uf32_top())
}

/// The time from sunrise to sunset in milliseconds, for a day length in minutes.
pub open spec fn day_length_ms_of(day_length_min: u32) -> u32 {
    held(held(day_length_min * 60) * 1000)
}

/// The time from sunrise to sunset in milliseconds, for a day length in minutes, held
/// within the range of a `Uf32`.
pub fn day_length_ms(day_length: Uf32) -> (r: Uf32)
    requires
        day_length.wf(),
        day_length@ * 60 <= u32::MAX,
        held(day_length@ * 60) * 1000 <= u32::MAX,
    ensures
        r@ == day_length_ms_of(day_length@),
        r.wf(),
{
    let minutes = day_length.mul(Uf32::new(60));
    minutes.mul(Uf32::new(1000))
}

/// The time of day in milliseconds since sunrise: the game starts at three tenths of the
/// day, and a full day and night last twice the day length.
pub open spec fn game_time_of(day_length_min: u32, ticks_ms: u32) -> u32 {
    let day = day_length_ms_of(day_length_min);
    let base_offset = held(held((day / 10u32) as int) * 3);
    held((held(base_offset + ticks_ms) % held(day * 2)) as int)
}

/// The current game time in milliseconds since sunrise, given the milliseconds since the
/// game started.
pub fn get_time(day_length: Uf32, ticks_ms: u64) -> (r: Uf32)
    requires
        day_length.wf(),
        day_length@ * 60 <= u32::MAX,
        held(day_length@ * 60) * 1000 <= u32::MAX,
        day_length@ >= 1,
        ticks_ms <= uf32_top(),
    ensures
        r@ == game_time_of(day_length@, ticks_ms as u32),
        r.wf(),
{
    let day = day_length_ms(day_length);
    let tenth = day.div(Uf32::new(10));
    let base_offset = tenth.mul(Uf32::new(3));
    let elapsed = Uf32::new(ticks_ms as u32);
    let full_cycle = day.mul(Uf32::new(2));
    let since = base_offset.add(elapsed);
    proof {
        assert(full_cycle@ != 0);
    }
    since.rem(full_cycle)
}

/// The game starts at three tenths of the day: at zero milliseconds the clock shows three
/// tenths of the time from sunrise to sunset.
pub proof fn lemma_game_starts_at_three_tenths(day_length_min: u32)
    requires
        1 <= day_length_min,
        day_length_min * 60000 <= uf32_top(),
    ensures
        day_length_ms_of(day_length_min) == day_length_min * 60000,
        game_time_of(day_length_min, 0) == (day_length_ms_of(day_length_min) / 10) * 3,
{
    let d = day_length_min as int;
    assert(d * 60 <= d * 60000) by (nonlinear_arith)
        requires
            d >= 0,
    ;
    assert(held(d * 60) == d * 60);
    assert((d * 60) * 1000 == d * 60000) by (nonlinear_arith);
    let day = day_length_ms_of(day_length_min);
    assert(day == d * 60000);
    assert(day / 10u32 == d * 6000) by (nonlinear_arith)
        requires
            day == d * 60000,
            d >= 0,
    ;
    assert(held(d * 6000) == d * 6000);
    assert(held((d * 6000) * 3) == d * 18000);
    assert(held(d * 18000 + 0) == d * 18000);
    let m = held(day * 2);
    assert(m > d * 18000);
    vstd::arithmetic::div_mod::lemma_small_mod((d * 18000) as nat, m as nat);
}

} // verus!
