//! The row that records one poll of a registered computer.

use vstd::prelude::*;

use crate::models::ComputerId;

verus! {

/// The signed 64-bit number whose two's complement pattern is `u`
/// (with `0 <= u < 2^64`).
pub open spec fn signed64(u: int) -> int {
    if u >= 0x8000_0000_0000_0000 {
        u - 0x1_0000_0000_0000_0000
    } else {
        u
    }
}

/// The low 64 bits of `t`, as a signed number.
pub open spec fn low_half(t: u128) -> int {
    signed64((t as int) % 0x1_0000_0000_0000_0000)
}

/// The high 64 bits of `t`, as a signed number.
pub open spec fn high_half(t: u128) -> int {
    signed64((t as int) / 0x1_0000_0000_0000_0000)
}

/// Whether `first` and `second` are the two 64-bit halves of `t`, in either
/// order: a bitwise reinterpretation lays them out in the byte order of the
/// machine.
pub open spec fn halves_of(t: u128, first: int, second: int) -> bool {
    ||| first == low_half(t) && second == high_half(t)
    ||| first == high_half(t) && second == low_half(t)
}

/// Calls `bytemuck::cast`, which reinterprets the 16 bytes of `t` in memory
/// as two `i64`s. Which half comes first depends on the byte order of the
/// machine, so only that the two results are the two halves is stated.
#[verifier::external_body]
fn split_u128(t: u128) -> (r: [i64; 2])
    ensures
        halves_of(t, r@[0] as int, r@[1] as int),
{
    bytemuck::cast(t)
}

/// One row of the ping table: the computer that polled and the time of the
/// poll in milliseconds since the Unix epoch, split into two 64-bit columns.
#[derive(Debug, Clone, Copy, PartialEq, Eq, Structural)]
pub struct PingRow {
    pub computer: u32,
    pub time_hi: i64,
    pub time_lo: i64,
}

impl PingRow {
    /// The row recording a poll of `id` at `millis` milliseconds since the
    /// Unix epoch. The columns `time_hi` and `time_lo` take the two 64-bit
    /// halves of `millis` in the order the machine stores them: the half
    /// stored first goes to `time_hi` (see [`PingRow::from_halves`]).
    pub fn new(id: ComputerId, millis: u128) -> (r: PingRow)
        ensures
            r.computer == id@,
            halves_of(millis, r.time_hi as int, r.time_lo as int),
    {
        let halves = split_u128(millis);
        PingRow::from_halves(id, halves)
    }

    /// The row recording a poll of `id` whose time columns hold `halves`,
    /// the first in `time_hi` and the second in `time_lo`.
    pub fn from_halves(id: ComputerId, halves: [i64; 2]) -> (r: PingRow)
        ensures
            r.computer == id@,
            r.time_hi == halves@[0],
            r.time_lo == halves@[1],
    {
        PingRow { computer: id.inner(), time_hi: halves[0], time_lo: halves[1] }
    }
}

} // verus!
