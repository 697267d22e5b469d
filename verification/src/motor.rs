//! The drive-state decisions of the two-wheel motor controller.
//!
//! The controller receives four plain bytes per command — an x direction,
//! an x power, a y direction, and a y power — and turns them into a signed
//! speed per wheel. Everything here is pure decision logic; putting the
//! speeds on the PWM channels stays with the host.

use vstd::prelude::*;

verus! {

/// A joystick axis direction, decoded from one command byte.
#[derive(Clone, Copy, Debug, PartialEq, Eq, Structural)]
pub enum Direction {
    Forward,
    Backwards,
    Neutral,
}

/// The direction encoded by one command byte: 1 is forward, 2 backwards,
/// everything else neutral.
pub open spec fn direction_of(value: u8) -> Direction {
    if value == 1 {
        Direction::Forward
    } else if value == 2 {
        Direction::Backwards
    } else {
        Direction::Neutral
    }
}

/// Truncating division (towards zero) of `n` by a positive `d`: the
/// semantics of native signed division.
pub open spec fn spec_div_toward_zero(n: int, d: int) -> int {
    if n >= 0 {
        n / d
    } else {
        -((-n) / d)
    }
}

/// The signed base speed a y-axis command yields for both wheels.
pub open spec fn base_speed(direction: Direction, power: u8) -> int {
    match direction {
        Direction::Forward => power as int,
        Direction::Backwards => -(power as int),
        Direction::Neutral => 0,
    }
}

/// The speed steering interpolates towards: full speed in the current
/// direction of travel.
pub open spec fn steer_target(direction: Direction) -> int {
    match direction {
        Direction::Forward => 100,
        Direction::Backwards => -100,
        Direction::Neutral => 0,
    }
}

/// The drive state decoded from the latest command.
#[derive(Clone, Copy, Debug, PartialEq, Eq, Structural)]
pub struct State {
    pub maximum_power: u32,
    pub minimum_power: u32,
    pub x_direction: Direction,
    pub x_power: u8,
    pub y_direction: Direction,
    pub y_power: u8,
}

/// Truncating division (towards zero) of `n` by a positive `d`.
fn div_toward_zero(n: i32, d: i32) -> (q: i32)
    requires
        0 < d,
        i32::MIN < n,
    ensures
        q == spec_div_toward_zero(n as int, d as int),
{
    if n >= 0 {
        proof {
            vstd::arithmetic::div_mod::lemma_div_nonincreasing(n as int, d as int);
            vstd::arithmetic::div_mod::lemma_div_pos_is_pos(n as int, d as int);
        }
        (n as u32 / d as u32) as i32
    } else {
        let m: u32 = (-n) as u32 / d as u32;
        proof {
            vstd::arithmetic::div_mod::lemma_div_nonincreasing(-n as int, d as int);
            vstd::arithmetic::div_mod::lemma_div_pos_is_pos(-n as int, d as int);
        }
        -(m as i32)
    }
}

/// Linear interpolation of `value` from the range `[low1, high1]` onto the
/// range between `low2` and `high2`, dividing towards zero as native
/// signed division does. The result always lies between `low2` and `high2`.
pub fn interpolate(value: i8, low1: i8, high1: i8, low2: i8, high2: i8) -> (r: i8)
    requires
        low1 < high1,
        low1 <= value <= high1,
        high1 as int - low1 as int <= 100,
        -100 <= low2 <= 100,
        -100 <= high2 <= 100,
    ensures
        r as int == low2 + spec_div_toward_zero(
            (high2 as int - low2 as int) * (value as int - low1 as int),
            high1 as int - low1 as int,
        ),
        low2 <= high2 ==> low2 <= r <= high2,
        high2 < low2 ==> high2 <= r <= low2,
{
    let v = value as i32;
    let l1 = low1 as i32;
    let h1 = high1 as i32;
    let l2 = low2 as i32;
    let h2 = high2 as i32;
    assert(-20000 <= (h2 - l2) as int * (v - l1) as int <= 20000) by (nonlinear_arith)
        requires
            -200 <= ((h2 - l2) as int) <= 200,
            0 <= ((v - l1) as int) <= 100,
    ;
    let n: i32 = (h2 - l2) * (v - l1);
    let d: i32 = h1 - l1;
    let q = div_toward_zero(n, d);
    proof {
        let ni = n as int;
        let di = d as int;
        let span = h2 as int - l2 as int;
        if span >= 0 {
            assert(0 <= ni <= span * di) by (nonlinear_arith)
                requires
                    0 <= span,
                    0 <= (v as int - l1 as int) <= di,
                    ni == span * (v as int - l1 as int),
            ;
            vstd::arithmetic::div_mod::lemma_div_is_ordered(ni, span * di, di);
            vstd::arithmetic::div_mod::lemma_div_multiples_vanish(span, di);
            vstd::arithmetic::div_mod::lemma_div_pos_is_pos(ni, di);
            assert((di * span) / di == span);
            assert(di * span == span * di) by (nonlinear_arith);
        } else {
            assert(0 <= -ni <= (-span) * di) by (nonlinear_arith)
                requires
                    span < 0,
                    0 <= (v as int - l1 as int) <= di,
                    ni == span * (v as int - l1 as int),
            ;
            vstd::arithmetic::div_mod::lemma_div_is_ordered(-ni, (-span) * di, di);
            vstd::arithmetic::div_mod::lemma_div_multiples_vanish(-span, di);
            vstd::arithmetic::div_mod::lemma_div_pos_is_pos(-ni, di);
            assert((di * (-span)) / di == -span);
            assert(di * (-span) == (-span) * di) by (nonlinear_arith);
        }
    }
    (l2 + q) as i8
}

impl State {
    /// Decodes a four-byte command into the drive state: bytes 0 and 2
    /// carry the x and y directions, bytes 1 and 3 the powers. The power
    /// limits are left untouched.
    pub fn update(&mut self, data: [u8; 4])
        ensures
            final(self).x_power == data[1],
            final(self).y_power == data[3],
            final(self).x_direction == direction_of(data[0]),
            final(self).y_direction == direction_of(data[2]),
            final(self).maximum_power == old(self).maximum_power,
            final(self).minimum_power == old(self).minimum_power,
    {
        self.x_power = data[1];
        self.y_power = data[3];

        self.x_direction = match data[0] {
            1 => Direction::Forward,
            2 => Direction::Backwards,
            _ => Direction::Neutral,
        };

        self.y_direction = match data[2] {
            1 => Direction::Forward,
            2 => Direction::Backwards,
            _ => Direction::Neutral,
        };
    }

    /// The signed speed of each wheel for the current state: both wheels
    /// run at the y-axis base speed, and an x-axis command steers the
    /// matching wheel towards full speed in the direction of travel.
    /// Both speeds stay within `[-100, 100]`.
    pub fn wheel_speeds(&self) -> (speeds: (i8, i8))
        requires
            self.x_power <= 100,
            self.y_power <= 100,
        ensures
            ({
                let base = base_speed(self.y_direction, self.y_power);
                let target = steer_target(self.y_direction);
                let steered = base + spec_div_toward_zero(
                    (target - base) * (self.x_power as int),
                    100,
                );
                &&& speeds.0 as int == (if self.x_direction == Direction::Backwards {
                    steered
                } else {
                    base
                })
                &&& speeds.1 as int == (if self.x_direction == Direction::Forward {
                    steered
                } else {
                    base
                })
                &&& -100 <= speeds.0 as int <= 100
                &&& -100 <= speeds.1 as int <= 100
            }),
    {
        let base: i8 = match self.y_direction {
            Direction::Forward => self.y_power as i8,
            Direction::Backwards => -(self.y_power as i8),
            Direction::Neutral => 0,
        };

        let mut left_wheel: i8 = base;
        let mut right_wheel: i8 = base;

        let target: i8 = match self.y_direction {
            Direction::Forward => 100,
            Direction::Backwards => -100,
            Direction::Neutral => 0,
        };

        if self.x_direction == Direction::Backwards {
            left_wheel = interpolate(self.x_power as i8, 0, 100, left_wheel, target);
        }

        if self.x_direction == Direction::Forward {
            right_wheel = interpolate(self.x_power as i8, 0, 100, right_wheel, target);
        }

        (left_wheel, right_wheel)
    }
}

} // verus!
