//! Checked and wrapping arithmetic over unsigned bytes.

use vstd::prelude::*;
use vstd::string::StringExecFns;

verus! {

/// Sum of two bytes, wrapping around modulo 256 on overflow.
pub fn add(a: u8, b: u8) -> (r: u8)
    ensures
        r == (a + b) % 256,
{
    a.wrapping_add(b)
}

/// Difference of two bytes; reports an error instead of underflowing.
pub fn sub(a: u8, b: u8) -> (r: Result<u8, String>)
    ensures
        a >= b ==> (r matches Ok(v) && v == a - b),
        a < b ==> (r matches Err(m) && m@ == "Subtraction resulted in underflow."@),
{
    match a.checked_sub(b) {
        Some(v) => Ok(v),
        None => Err(String::from_str("Subtraction resulted in underflow.")),
    }
}

/// Product of two bytes, wrapping around modulo 256 on overflow.
pub fn mul(a: u8, b: u8) -> (r: u8)
    ensures
        r == (a * b) % 256,
{
    a.wrapping_mul(b)
}

/// Quotient of two bytes; reports an error instead of dividing by zero.
pub fn div(a: u8, b: u8) -> (r: Result<u8, String>)
    ensures
        b != 0 ==> (r matches Ok(v) && v == a / b),
        b == 0 ==> (r matches Err(m) && m@ == "Division by zero is not allowed."@),
{
    if b == 0 {
        Err(String::from_str("Division by zero is not allowed."))
    } else {
        Ok(a / b)
    }
}

} // verus!
