//! The four-digit seven-segment display fed by the rotary encoder: the
//! segment encoding of each digit, the decimal decomposition of a value
//! into the four display cells, and the encoder's effect on the counter
//! and brightness.

use vstd::prelude::*;

verus! {

/// The display's brightness never exceeds this level.
pub const MAX_BRIGHTNESS: u8 = 7;

/// The counter never exceeds this value.
pub const MAX_COUNTER: u16 = 9999;

/// `10^k`.
pub open spec fn pow10(k: nat) -> int
    decreases k,
{
    if k == 0 {
        1
    } else {
        10 * pow10((k - 1) as nat)
    }
}

/// `pow10` is positive.
pub proof fn lemma_pow10_pos(k: nat)
    ensures
        1 <= pow10(k),
    decreases k,
{
    if k > 0 {
        lemma_pow10_pos((k - 1) as nat);
    }
}

/// `pow10` does not decrease.
pub proof fn lemma_pow10_increases(a: nat, b: nat)
    requires
        a <= b,
    ensures
        pow10(a) <= pow10(b),
    decreases b,
{
    if a < b {
        lemma_pow10_increases(a, (b - 1) as nat);
        lemma_pow10_pos((b - 1) as nat);
    }
}

/// The `k`-th decimal digit of `value`, counting from the least
/// significant.
pub open spec fn decimal_digit(value: int, k: nat) -> int {
    (value / pow10(k)) % 10
}

/// The raw segments lighting up hexadecimal digit `d`.
pub open spec fn spec_segment(d: u8) -> u8 {
    if d == 0 {
        0x3f
    } else if d == 1 {
        0x06
    } else if d == 2 {
        0x5b
    } else if d == 3 {
        0x4f
    } else if d == 4 {
        0x66
    } else if d == 5 {
        0x6d
    } else if d == 6 {
        0x7d
    } else if d == 7 {
        0x07
    } else if d == 8 {
        0x7f
    } else if d == 9 {
        0x6f
    } else if d == 10 {
        0x77
    } else if d == 11 {
        0x7c
    } else if d == 12 {
        0x39
    } else if d == 13 {
        0x5e
    } else if d == 14 {
        0x79
    } else {
        0x71
    }
}

/// The raw segments lighting up hexadecimal digit `d`.
#[verifier::when_used_as_spec(spec_segment)]
pub fn segment(d: u8) -> (b: u8)
    requires
        d < 16,
    ensures
        b == spec_segment(d),
{
    match d {
        0 => 0x3f,
        1 => 0x06,
        2 => 0x5b,
        3 => 0x4f,
        4 => 0x66,
        5 => 0x6d,
        6 => 0x7d,
        7 => 0x07,
        8 => 0x7f,
        9 => 0x6f,
        10 => 0x77,
        11 => 0x7c,
        12 => 0x39,
        13 => 0x5e,
        14 => 0x79,
        _ => 0x71,
    }
}

/// The segment byte the display cell for decimal digit `k` (least
/// significant first) shows for `value`: the digit's segments where
/// `value` has such a digit, and blank above its leading digit.
pub open spec fn display_cell(value: int, k: int) -> u8 {
    if k == 0 || value / pow10(k as nat) > 0 {
        spec_segment(decimal_digit(value, k as nat) as u8)
    } else {
        0u8
    }
}

/// The four segment bytes that show `value` in decimal, most significant
/// cell first: the lowest four decimal digits of `value`, right-aligned,
/// with unused leading cells blank.
pub fn get_digits(value: u16) -> (cells: Vec<u8>)
    ensures
        cells@.len() == 4,
        forall|j: int| 0 <= j < 4 ==> #[trigger] cells@[j] == display_cell(value as int, 3 - j),
{
    let mut reversed: Vec<u8> = Vec::new();
    let mut n: u16 = value;
    proof {
        assert(pow10(0) == 1);
        assert(pow10(1) == 10);
        vstd::arithmetic::div_mod::lemma_mod_pos_bound(value as int, 10);
        assert(decimal_digit(value as int, 0) == value as int % 10);
    }
    reversed.push(segment((n % 10) as u8));
    n = n / 10;
    while n > 0
        invariant
            1 <= reversed@.len(),
            n as int == value as int / pow10(reversed@.len() as nat),
            forall|k: int|
                0 <= k < reversed@.len() ==> reversed@[k] == spec_segment(
                    decimal_digit(value as int, k as nat) as u8,
                ),
            forall|k: int|
                1 <= k < reversed@.len() ==> value as int / #[trigger] pow10(k as nat) > 0,
        decreases n,
    {
        let ghost len = reversed@.len();
        proof {
            lemma_pow10_pos(len);
            vstd::arithmetic::div_mod::lemma_mod_pos_bound(n as int, 10);
            vstd::arithmetic::div_mod::lemma_div_denominator(value as int, pow10(len), 10);
            assert(pow10(len + 1) == 10 * pow10(len));
            assert(pow10(len) * 10 == 10 * pow10(len)) by (nonlinear_arith);
            assert(decimal_digit(value as int, len) == n as int % 10);
        }
        reversed.push(segment((n % 10) as u8));
        n = n / 10;
        proof {
            assert(n as int == value as int / pow10(reversed@.len() as nat));
        }
    }
    let ghost digit_count = reversed@.len();
    proof {
        assert forall|k: int| digit_count <= k implies value as int / #[trigger] pow10(k as nat) <= 0 by {
            lemma_pow10_pos(digit_count);
            lemma_pow10_pos(k as nat);
            lemma_pow10_increases(digit_count, k as nat);
            vstd::arithmetic::div_mod::lemma_div_is_ordered_by_denominator(
                value as int,
                pow10(digit_count),
                pow10(k as nat),
            );
        }
    }
    while reversed.len() > 4
        invariant
            1 <= reversed@.len() <= digit_count,
            reversed@.len() >= 4 || reversed@.len() == digit_count,
            forall|k: int|
                0 <= k < reversed@.len() ==> reversed@[k] == spec_segment(
                    decimal_digit(value as int, k as nat) as u8,
                ),
            forall|k: int| 1 <= k < digit_count ==> value as int / #[trigger] pow10(k as nat) > 0,
            1 <= digit_count,
        decreases reversed@.len(),
    {
        reversed.pop();
    }
    while reversed.len() < 4
        invariant
            1 <= reversed@.len() <= 4,
            reversed@.len() >= digit_count || reversed@.len() == 4,
            forall|k: int|
                0 <= k < reversed@.len() && k < digit_count ==> reversed@[k] == spec_segment(
                    decimal_digit(value as int, k as nat) as u8,
                ),
            forall|k: int|
                digit_count <= k < reversed@.len() ==> reversed@[k] == 0,
            forall|k: int| 1 <= k < digit_count ==> value as int / #[trigger] pow10(k as nat) > 0,
            forall|k: int| digit_count <= k ==> value as int / #[trigger] pow10(k as nat) <= 0,
            1 <= digit_count,
        decreases 4 - reversed@.len(),
    {
        reversed.push(0);
    }
    let mut cells: Vec<u8> = Vec::new();
    let mut i: usize = 0;
    while i < 4
        invariant
            i <= 4,
            reversed@.len() == 4,
            cells@.len() == i,
            forall|j: int| 0 <= j < i ==> cells@[j] == reversed@[3 - j],
            reversed@.len() >= digit_count || reversed@.len() == 4,
            forall|k: int|
                0 <= k < 4 && k < digit_count ==> reversed@[k] == spec_segment(
                    decimal_digit(value as int, k as nat) as u8,
                ),
            forall|k: int| digit_count <= k < 4 ==> reversed@[k] == 0,
            forall|k: int| 1 <= k < digit_count ==> value as int / #[trigger] pow10(k as nat) > 0,
            forall|k: int| digit_count <= k ==> value as int / #[trigger] pow10(k as nat) <= 0,
            1 <= digit_count,
        decreases 4 - i,
    {
        cells.push(reversed[3 - i]);
        i = i + 1;
    }
    proof {
        assert forall|j: int| 0 <= j < 4 implies #[trigger] cells@[j] == display_cell(
            value as int,
            3 - j,
        ) by {
            let k = 3 - j;
            lemma_pow10_pos(k as nat);
            vstd::arithmetic::div_mod::lemma_div_pos_is_pos(value as int, pow10(k as nat));
        }
    }
    cells
}

/// The direction a rotary encoder step reports.
#[derive(Clone, Copy, Debug, PartialEq, Eq, Structural)]
pub enum TurnDirection {
    Clockwise,
    Anticlockwise,
    Idle,
}

/// What the encoder currently adjusts.
#[derive(Clone, Copy, Debug, PartialEq, Eq, Structural)]
pub enum Mode {
    Counter,
    SetBrightness,
}

/// Applies one encoder step: clockwise decrements and anticlockwise
/// increments the value the current mode selects, the counter floored at
/// 0 and capped at [`MAX_COUNTER`], the brightness floored at 0 and
/// capped at [`MAX_BRIGHTNESS`]; the other value never moves.
pub fn handle_encoder(
    direction: TurnDirection,
    current_mode: &Mode,
    counter: &mut u16,
    brightness: &mut u8,
)
    ensures
        *current_mode == Mode::Counter ==> *final(brightness) == *old(brightness),
        *current_mode == Mode::SetBrightness ==> *final(counter) == *old(counter),
        direction == TurnDirection::Idle ==> *final(counter) == *old(counter)
            && *final(brightness) == *old(brightness),
        direction == TurnDirection::Clockwise && *current_mode == Mode::Counter
            ==> *final(counter) == (if *old(counter) > 0 {
            (*old(counter) - 1) as u16
        } else {
            0u16
        }),
        direction == TurnDirection::Anticlockwise && *current_mode == Mode::Counter
            ==> *final(counter) == (if *old(counter) < MAX_COUNTER {
            (*old(counter) + 1) as u16
        } else {
            *old(counter)
        }),
        direction == TurnDirection::Clockwise && *current_mode == Mode::SetBrightness
            ==> *final(brightness) == (if *old(brightness) > 0 {
            (*old(brightness) - 1) as u8
        } else {
            0u8
        }),
        direction == TurnDirection::Anticlockwise && *current_mode == Mode::SetBrightness
            ==> *final(brightness) == (if *old(brightness) < MAX_BRIGHTNESS {
            (*old(brightness) + 1) as u8
        } else {
            *old(brightness)
        }),
{
    match direction {
        TurnDirection::Clockwise => {
            match current_mode {
                Mode::Counter => {
                    if *counter > 0 {
                        *counter = *counter - 1;
                    }
                },
                Mode::SetBrightness => {
                    if *brightness > 0 {
                        *brightness = *brightness - 1;
                    }
                },
            }
        },
        TurnDirection::Anticlockwise => {
            match current_mode {
                Mode::Counter => {
                    if *counter < MAX_COUNTER {
                        *counter = *counter + 1;
                    }
                },
                Mode::SetBrightness => {
                    if *brightness < MAX_BRIGHTNESS {
                        *brightness = *brightness + 1;
                    }
                },
            }
        },
        TurnDirection::Idle => {},
    }
}

} // verus!
