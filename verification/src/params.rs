//! Per-sample parameter resolution.
//!
//! A parameter sequence supplied for a render call is either empty (use the
//! default 0), a single value (broadcast to every sample of the block), or
//! one value per sample. Whatever it resolves to is clamped into the
//! parameter's admissible range.

use vstd::prelude::*;

verus! {

/// The value `v` forced into the closed interval `[lo, hi]`.
pub open spec fn clamp_spec(lo: int, hi: int, v: int) -> int {
    if v < lo {
        lo
    } else if v > hi {
        hi
    } else {
        v
    }
}

/// Forces `value` into the closed interval `[min_value, max_value]`.
pub fn clamp(min_value: i64, max_value: i64, value: i64) -> (r: i64)
    ensures
        r as int == clamp_spec(min_value as int, max_value as int, value as int),
{
    if value < min_value {
        min_value
    } else {
        if value > max_value {
            max_value
        } else {
            value
        }
    }
}

/// The scalar a parameter sequence yields at `index`: element `index` when
/// the sequence carries one value per sample, the lone element when it
/// carries a single broadcast value, the default 0 when it is empty — and
/// in every case clamped into `[lo, hi]`.
pub open spec fn resolve_spec(param: Seq<i64>, lo: int, hi: int, index: int) -> int {
    if param.len() > 1 {
        clamp_spec(lo, hi, param[index] as int)
    } else if param.len() == 0 {
        clamp_spec(lo, hi, 0)
    } else {
        clamp_spec(lo, hi, param[0] as int)
    }
}

/// A sequence length a caller may supply for a parameter: absent, a single
/// broadcast value, or one value per sample of the block.
pub open spec fn valid_len(len: nat, quantum: nat) -> bool {
    len == 0 || len == 1 || len == quantum
}

/// Resolves one parameter sequence at one sample index, per-sample values
/// taking precedence over a broadcast value, which takes precedence over
/// the default 0; the result is clamped into `[min_value, max_value]`.
pub fn get_parameter(param: &Vec<i64>, min_value: i64, max_value: i64, index: usize) -> (r: i64)
    requires
        param@.len() > 1 ==> index < param@.len(),
    ensures
        r as int == resolve_spec(param@, min_value as int, max_value as int, index as int),
{
    if param.len() > 1 {
        clamp(min_value, max_value, param[index])
    } else {
        if param.len() == 0 {
            clamp(min_value, max_value, 0)
        } else {
            clamp(min_value, max_value, param[0])
        }
    }
}

} // verus!
