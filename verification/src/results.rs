//! `Result` as the return type of a function that can fail.

use vstd::prelude::*;
use vstd::string::*;

verus! {

/// The quotient of `a` by `b`, rounded towards zero.
pub open spec fn quotient(a: int, b: int) -> int
    recommends
        b != 0,
{
    if a >= 0 && b > 0 {
        a / b
    } else if a >= 0 {
        -(a / (-b))
    } else if b > 0 {
        -((-a) / b)
    } else {
        (-a) / (-b)
    }
}

/// The quotient rounds towards zero: what is left of `a` beyond `b` times the
/// quotient is smaller than `b` in size, and is on the side of `a`.
pub proof fn lemma_quotient_rounds_towards_zero(a: int, b: int)
    requires
        b != 0,
    ensures
        ({
            let rest = a - b * quotient(a, b);
            &&& -b < rest < b || b < rest < -b
            &&& a >= 0 ==> rest >= 0
            &&& a <= 0 ==> rest <= 0
        }),
{
    let x = if a >= 0 { a } else { -a };
    let d = if b > 0 { b } else { -b };
    assert(0 <= x - d * (x / d) < d) by (nonlinear_arith)
        requires
            x >= 0,
            d > 0,
    ;
    let q = x / d;
    assert(b * quotient(a, b) == if a >= 0 { d * q } else { -(d * q) }) by (nonlinear_arith)
        requires
            quotient(a, b) == (if (a >= 0) == (b > 0) { q } else { -q }),
            d == (if b > 0 { b } else { -b }),
            b != 0,
    ;
}

/// Dividing by a negative number gives the negated quotient.
proof fn lemma_negative_divisor(x: int, d: int)
    requires
        x >= 0,
        d > 0,
    ensures
        x / (-d) == -(x / d),
{
    assert(x / (-d) == -(x / d)) by (nonlinear_arith)
        requires
            x >= 0,
            d > 0,
    ;
}

/// Whether the quotient of `a` by `b` can be handed out: it is neither
/// negative nor above what an `i8` holds.
pub open spec fn quotient_fits(a: i8, b: i8) -> bool {
    0 <= quotient(a as int, b as int) <= i8::MAX
}

/// Whether `test_Result` and `test_Result_1` take `a` and `b`: they take
/// every division by zero, and every other one whose quotient fits.
pub fn can_divide(a: i8, b: i8) -> (taken: bool)
    ensures
        taken == (b != 0 ==> quotient_fits(a, b)),
{
    if b == 0 {
        true
    } else if a == i8::MIN && b == -1 {
        assert(128int / 1 == 128);
        false
    } else {
        proof {
            let x: int = if a >= 0 { a as int } else { -a };
            let d: int = if b > 0 { b as int } else { -b };
            if b < 0 {
                lemma_negative_divisor(x, d);
            }
            assert(0 <= x / d <= x) by (nonlinear_arith)
                requires
                    x >= 0,
                    d > 0,
            ;
            assert(x == 128 && d > 1 ==> x / d < 128) by (nonlinear_arith)
                requires
                    x >= 0,
                    d > 0,
            ;
        }
        a / b >= 0
    }
}

/// The quotient of `a` by `b` as an unsigned number.
fn divide(a: i8, b: i8) -> (res: u8)
    requires
        b != 0,
        quotient_fits(a, b),
    ensures
        res == quotient(a as int, b as int),
{
    proof {
        if b < 0 {
            lemma_negative_divisor(if a >= 0 { a as int } else { -a }, -b);
        }
        assert(!(a == i8::MIN && b == -1)) by {
            assert(128int / 1 == 128);
        }
    }
    let res: i8 = a / b;
    let converted: Result<u8, std::num::TryFromIntError> = res.try_into();
    converted.unwrap()
}

/// Divides `a` by `b`. Division by zero is refused with a message. The
/// quotient must fit: see `quotient_fits`, and `can_divide` to test it.
pub fn test_Result(a: i8, b: i8) -> (res: Result<u8, String>)
    requires
        b != 0 ==> quotient_fits(a, b),
    ensures
        b == 0 ==> res is Err && res->Err_0@ == "Cannot divide with zero"@,
        b != 0 ==> res is Ok && res->Ok_0 == quotient(a as int, b as int),
{
    match b {
        0 => Err(String::from_str("Cannot divide with zero")),
        _ => Ok(divide(a, b)),
    }
}

/// Divides `a` by `b`, with the test for zero written as a conditional.
/// Division by zero is refused with a message. The quotient must fit: see
/// `quotient_fits`, and `can_divide` to test it.
pub fn test_Result_1(a: i8, b: i8) -> (res: Result<u8, String>)
    requires
        b != 0 ==> quotient_fits(a, b),
    ensures
        b == 0 ==> res is Err && res->Err_0@ == "Cannot divide with zero."@,
        b != 0 ==> res is Ok && res->Ok_0 == quotient(a as int, b as int),
{
    if b == 0 {
        Err(String::from_str("Cannot divide with zero."))
    } else {
        Ok(divide(a, b))
    }
}

/// Divides 22 by 0 and by 4: the first is refused, the second gives 5.
pub fn test_Result_2() -> (found: (Result<u8, String>, Result<u8, String>))
    ensures
        found.0 is Err,
        found.0->Err_0@ == "Cannot divide with zero."@,
        found.1 == Ok::<u8, String>(5u8),
{
    assert(quotient(22, 4) == 5);
    let result1 = test_Result_1(22, 0);
    let result2 = test_Result_1(22, 4);
    (result1, result2)
}

} // verus!
