//! Validation of the option values.

use crate::cli::decimal::{i32_literal, parse_i32, parse_u64, u64_literal};
use vstd::prelude::*;

verus! {

/// Said of a value that is no decimal integer, or one out of range.
pub const NOT_AN_INTEGER: &'static str = "must be valid positive integer";

/// Said of an integer below zero where none is admitted.
pub const NEGATIVE: &'static str = "must be positive integer";

/// Reads the idle threshold, in minutes.
///
/// Accepts exactly the unsigned decimal literals that fit in a `u64` and
/// rejects everything else with [`NOT_AN_INTEGER`].
pub fn idle_time(value: &str) -> (result: Result<u64, &'static str>)
    ensures
        match u64_literal(value@) {
            Some(minutes) => result == Ok::<u64, &'static str>(minutes),
            None => result is Err && result->Err_0@ == NOT_AN_INTEGER@,
        },
{
    match parse_u64(value) {
        Some(number) => Ok(number),
        None => Err(NOT_AN_INTEGER),
    }
}

/// Reads the movement range, in pixels.
///
/// Accepts exactly the signed decimal literals that fit in an `i32` and are
/// not negative. An integer below zero is rejected with [`NEGATIVE`],
/// anything else with [`NOT_AN_INTEGER`].
pub fn mouse_range(value: &str) -> (result: Result<i32, &'static str>)
    ensures
        match i32_literal(value@) {
            Some(pixels) => if pixels >= 0 {
                result == Ok::<i32, &'static str>(pixels)
            } else {
                result is Err && result->Err_0@ == NEGATIVE@
            },
            None => result is Err && result->Err_0@ == NOT_AN_INTEGER@,
        },
{
    match parse_i32(value) {
        Some(number) => {
            if number >= 0 {
                Ok(number)
            } else {
                Err(NEGATIVE)
            }
        },
        None => Err(NOT_AN_INTEGER),
    }
}

} // verus!
