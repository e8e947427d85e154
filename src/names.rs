//! The names under which registered resources are used in content streams.
use vstd::prelude::*;

verus! {

/// The ASCII decimal digits of `n`, most significant first.
pub open spec fn decimal(n: nat) -> Seq<u8>
    decreases n,
{
    if n < 10 {
        seq![(48 + n) as u8]
    } else {
        decimal(n / 10).push((48 + n % 10) as u8)
    }
}

/// The digits of `n` after the digits of its prefix `n / 10^k`, built from
/// the right.
fn digits(n: usize) -> (r: Vec<u8>)
    ensures
        r@ == decimal(n as nat),
    decreases n,
{
    if n < 10 {
        let d: u8 = 48 + n as u8;
        vec![d]
    } else {
        let mut r = digits(n / 10);
        r.push(48 + (n % 10) as u8);
        r
    }
}

/// The name of the gradient registered under `handle`: `Gr` followed by the
/// handle in decimal.
pub fn gradient_name(handle: usize) -> (r: Vec<u8>)
    ensures
        r@ == seq![71u8, 114u8] + decimal(handle as nat),
{
    let mut r: Vec<u8> = vec![71, 114];
    let mut d = digits(handle);
    r.append(&mut d);
    r
}

} // verus!
