//! Decoding of the DTMF receiver's four parallel output lines into the
//! key label the display shows.

use vstd::prelude::*;
use vstd::string::StringExecFns;

verus! {

/// The key code the four output lines encode: line `qN` carries bit
/// `N - 1` and a high line is a set bit.
pub fn key_code(q1: bool, q2: bool, q3: bool, q4: bool) -> (code: u8)
    ensures
        code as int == (if q1 { 1int } else { 0int }) + (if q2 { 2int } else { 0int }) + (if q3 {
            4int
        } else {
            0int
        }) + (if q4 { 8int } else { 0int }),
        code < 16,
{
    let mut code: u8 = 0;
    if q1 {
        code = code + 1;
    }
    if q2 {
        code = code + 2;
    }
    if q3 {
        code = code + 4;
    }
    if q4 {
        code = code + 8;
    }
    code
}

/// The label the keypad prints for a key code: the digits keep their
/// value, 10 is the zero key, and the rest are the star, hash, and letter
/// keys.
pub open spec fn spec_key_label(code: u8) -> Seq<char> {
    if code == 0 {
        "D"@
    } else if code == 1 {
        "1"@
    } else if code == 2 {
        "2"@
    } else if code == 3 {
        "3"@
    } else if code == 4 {
        "4"@
    } else if code == 5 {
        "5"@
    } else if code == 6 {
        "6"@
    } else if code == 7 {
        "7"@
    } else if code == 8 {
        "8"@
    } else if code == 9 {
        "9"@
    } else if code == 10 {
        "0"@
    } else if code == 11 {
        "*"@
    } else if code == 12 {
        "#"@
    } else if code == 13 {
        "A"@
    } else if code == 14 {
        "B"@
    } else {
        "C"@
    }
}

/// The label the keypad prints for a key code.
pub fn key_label(code: u8) -> (s: String)
    requires
        code < 16,
    ensures
        s@ == spec_key_label(code),
{
    match code {
        0 => String::from_str("D"),
        1 => String::from_str("1"),
        2 => String::from_str("2"),
        3 => String::from_str("3"),
        4 => String::from_str("4"),
        5 => String::from_str("5"),
        6 => String::from_str("6"),
        7 => String::from_str("7"),
        8 => String::from_str("8"),
        9 => String::from_str("9"),
        10 => String::from_str("0"),
        11 => String::from_str("*"),
        12 => String::from_str("#"),
        13 => String::from_str("A"),
        14 => String::from_str("B"),
        _ => String::from_str("C"),
    }
}

} // verus!
