//! A `u16` calculator, and the first steps with conditionals, arrays, loops
//! and closures.

use vstd::prelude::*;
use vstd::string::*;

verus! {

/// The sum of `a` and `b`, which must fit in a `u16`.
pub fn calc_sum(a: u16, b: u16) -> (sum: u16)
    requires
        a + b <= u16::MAX,
    ensures
        sum == a + b,
{
    let sum: u16 = a + b;
    sum
}

/// The difference of `a` and `b`, where `b` is not the larger one.
pub fn calc_diff(a: u16, b: u16) -> (diff: u16)
    requires
        b <= a,
    ensures
        diff == a - b,
{
    let diff: u16 = a - b;
    diff
}

/// The product of `a` and `b`, which must fit in a `u16`.
pub fn calc_prod(a: u16, b: u16) -> (prod: u16)
    requires
        a * b <= u16::MAX,
    ensures
        prod == a * b,
{
    let prod: u16 = a * b;
    prod
}

/// The quotient of `a` by `b`, rounded down, where `b` is not zero.
pub fn calc_res(a: u16, b: u16) -> (res: u16)
    requires
        b != 0,
    ensures
        res == a / b,
{
    let res: u16 = a / b;
    res
}

/// What `test_if_int` says of an age of `input` years.
pub open spec fn driving_verdict(input: int) -> Seq<char> {
    if input > 16 {
        "User can drive a car!\n"@
    } else if input == 16 {
        "User is close to driving a car!\n"@
    } else {
        "User cannot drive a car!\n"@
    }
}

/// The line to show for an age of `input` years.
pub fn test_if_int(input: i16) -> (msg: &'static str)
    ensures
        msg@ == driving_verdict(input as int),
{
    if input > 16 {
        "User can drive a car!\n"
    } else if input == 16 {
        "User is close to driving a car!\n"
    } else {
        "User cannot drive a car!\n"
    }
}

/// The label for one element of the array: above the mark of 20 or not.
pub open spec fn size_label(x: u16) -> Seq<char> {
    if x > 20 {
        "Above 20"@
    } else {
        "Below 20"@
    }
}

/// The label of each element of `arr`, in the array's order.
pub fn iterate_arr(arr: [u16; 5]) -> (labels: Vec<&'static str>)
    ensures
        labels@.len() == 5,
        forall|i: int| 0 <= i < 5 ==> (#[trigger] labels@[i])@ == size_label(arr@[i]),
{
    let mut labels: Vec<&'static str> = Vec::new();
    for i in 0..5usize
        invariant
            labels@.len() == i,
            forall|j: int| 0 <= j < i ==> (#[trigger] labels@[j])@ == size_label(arr@[j]),
    {
        let x: u16 = arr[i];
        if x > 20 {
            labels.push("Above 20");
        } else {
            labels.push("Below 20");
        }
    }
    labels
}

/// How many rounds the loop makes that counts from `num` up to 16: one for
/// each number below 16, starting at `num`.
pub fn test_while(num: u16) -> (rounds: u16)
    ensures
        rounds == if num < 16 { 16 - num } else { 0 },
{
    let mut at: u16 = num;
    let mut rounds: u16 = 0;
    while at < 16
        invariant
            at == num + rounds,
            rounds == 0 || at <= 16,
        decreases 16 - at,
    {
        rounds += 1;
        at += 1;
    }
    rounds
}

/// What the closure without parameters yields when it is called.
pub fn closure_test() -> (msg: &'static str)
    ensures
        msg@ == "Hello from the closure!"@,
{
    let clos = || -> (m: &'static str)
        ensures
            m@ == "Hello from the closure!"@,
        { "Hello from the closure!" };
    clos()
}

/// The greeting that `closure_test_2` builds from two words.
pub open spec fn greeting(a: Seq<char>, b: Seq<char>) -> Seq<char> {
    "Hello World, "@ + a + " "@ + b + "!"@
}

/// Greets with the two words, through a closure that takes them as
/// parameters.
pub fn closure_test_2(a: &str, b: &str) -> (msg: String)
    ensures
        msg@ == greeting(a@, b@),
{
    let clos = |x: &str, y: &str| -> (m: String)
        ensures
            m@ == greeting(x@, y@),
        {
            let mut m = String::from_str("Hello World, ");
            m.append(x);
            m.append(" ");
            m.append(y);
            m.append("!");
            m
        };
    clos(a, b)
}

} // verus!
