//! The chip's shared rate counter: one 15-bit-range tick counter from which
//! envelope and noise rates derive when they fire.

use vstd::prelude::*;

verus! {

/// The counter runs over `0..COUNTER_RANGE` and then starts again.
pub const COUNTER_RANGE: i32 = 30720;

/// The period, in ticks, of each of the 32 rates; rate 0 never fires.
pub open spec fn counter_rate(rate: u8) -> int {
    match rate {
        0 => 30721,
        1 => 2048,
        2 => 1536,
        3 => 1280,
        4 => 1024,
        5 => 768,
        6 => 640,
        7 => 512,
        8 => 384,
        9 => 320,
        10 => 256,
        11 => 192,
        12 => 160,
        13 => 128,
        14 => 96,
        15 => 80,
        16 => 64,
        17 => 48,
        18 => 40,
        19 => 32,
        20 => 24,
        21 => 20,
        22 => 16,
        23 => 12,
        24 => 10,
        25 => 8,
        26 => 6,
        27 => 5,
        28 => 4,
        29 => 3,
        30 => 2,
        _ => 1,
    }
}

/// The phase offset of each of the 32 rates.
pub open spec fn counter_offset(rate: u8) -> int {
    match rate {
        0 => 1,
        1 => 0,
        2 => 1040,
        3 => 536,
        4 => 0,
        5 => 1040,
        6 => 536,
        7 => 0,
        8 => 1040,
        9 => 536,
        10 => 0,
        11 => 1040,
        12 => 536,
        13 => 0,
        14 => 1040,
        15 => 536,
        16 => 0,
        17 => 1040,
        18 => 536,
        19 => 0,
        20 => 1040,
        21 => 536,
        22 => 0,
        23 => 1040,
        24 => 536,
        25 => 0,
        26 => 1040,
        27 => 536,
        28 => 0,
        29 => 1040,
        30 => 0,
        _ => 0,
    }
}

/// Whether an event of the given rate is due at this counter value.
pub open spec fn counter_fires(counter: int, rate: u8) -> bool {
    (counter + counter_offset(rate)) % counter_rate(rate) == 0
}

fn rate_period(rate: u8) -> (r: i32)
    requires
        rate < 32,
    ensures
        r == counter_rate(rate),
        1 <= r <= 30721,
{
    match rate {
        0 => 30721,
        1 => 2048,
        2 => 1536,
        3 => 1280,
        4 => 1024,
        5 => 768,
        6 => 640,
        7 => 512,
        8 => 384,
        9 => 320,
        10 => 256,
        11 => 192,
        12 => 160,
        13 => 128,
        14 => 96,
        15 => 80,
        16 => 64,
        17 => 48,
        18 => 40,
        19 => 32,
        20 => 24,
        21 => 20,
        22 => 16,
        23 => 12,
        24 => 10,
        25 => 8,
        26 => 6,
        27 => 5,
        28 => 4,
        29 => 3,
        30 => 2,
        _ => 1,
    }
}

fn rate_offset(rate: u8) -> (r: i32)
    requires
        rate < 32,
    ensures
        r == counter_offset(rate),
        0 <= r <= 1040,
{
    match rate {
        0 => 1,
        1 => 0,
        2 => 1040,
        3 => 536,
        4 => 0,
        5 => 1040,
        6 => 536,
        7 => 0,
        8 => 1040,
        9 => 536,
        10 => 0,
        11 => 1040,
        12 => 536,
        13 => 0,
        14 => 1040,
        15 => 536,
        16 => 0,
        17 => 1040,
        18 => 536,
        19 => 0,
        20 => 1040,
        21 => 536,
        22 => 0,
        23 => 1040,
        24 => 536,
        25 => 0,
        26 => 1040,
        27 => 536,
        28 => 0,
        29 => 1040,
        30 => 0,
        _ => 0,
    }
}

/// Whether an event of the given rate is due at this counter value.
pub fn fires(counter: i32, rate: u8) -> (r: bool)
    requires
        0 <= counter < COUNTER_RANGE,
        rate < 32,
    ensures
        r == counter_fires(counter as int, rate),
{
    (counter + rate_offset(rate)) % rate_period(rate) == 0
}

} // verus!
