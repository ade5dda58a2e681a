//! The sum probe: three-argument unsigned 32-bit addition with wraparound.
//!
//! A host loads the compiled module and invokes the probe by symbol name to
//! check its calling convention; the probe has no error conditions and no
//! side effects.

use vstd::prelude::*;

verus! {

/// Adds three unsigned 32-bit integers modulo 2^32.
///
/// The result is the mathematical sum reduced mod 2^32, i.e. standard
/// wraparound arithmetic; no input is rejected.
pub fn sum(a: u32, b: u32, c: u32) -> (r: u32)
    ensures
        r as int == (a as int + b as int + c as int) % 0x1_0000_0000,
{
    a.wrapping_add(b).wrapping_add(c)
}

} // verus!
