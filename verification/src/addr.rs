//! Formatting of the wildcard bind address.
//!
//! A server started with only a port number listens on every interface;
//! the bind address handed to the operating system is the text
//! `0.0.0.0:` followed by the port in decimal.

use vstd::prelude::*;
use vstd::string::StrSliceExecFns;
use vstd::string::StringSliceAdditionalSpecFns;

verus! {

/// The decimal digits of `n`, most significant first, as ASCII bytes,
/// without leading zeros (`0` itself is the single digit `0`).
pub open spec fn decimal_digits(n: nat) -> Seq<u8>
    decreases n,
{
    if n < 10 {
        seq![(0x30 + n) as u8]
    } else {
        decimal_digits(n / 10).push((0x30 + n % 10) as u8)
    }
}

/// The bytes of the wildcard bind address for `port`:
/// `0.0.0.0:` followed by the port in decimal.
pub open spec fn bind_address_bytes(port: u32) -> Seq<u8> {
    "0.0.0.0:".spec_bytes() + decimal_digits(port as nat)
}

/// Append the decimal digits of `n` to `out`.
fn push_decimal(n: u32, out: &mut Vec<u8>)
    ensures
        final(out)@ == old(out)@ + decimal_digits(n as nat),
    decreases n,
{
    if n < 10 {
        out.push(0x30 + n as u8);
        proof {
            assert(out@ =~= old(out)@ + decimal_digits(n as nat));
        }
    } else {
        proof {
            assert(n / 10 < n) by (nonlinear_arith)
                requires
                    n >= 10,
            ;
        }
        push_decimal(n / 10, out);
        out.push(0x30 + (n % 10) as u8);
        proof {
            assert(out@ =~= old(out)@ + decimal_digits(n as nat));
        }
    }
}

/// The wildcard bind address for `port`, e.g. the bytes of
/// `0.0.0.0:8080` for port 8080.
pub fn bind_address(port: u32) -> (r: Vec<u8>)
    ensures
        r@ == bind_address_bytes(port),
{
    let mut r: Vec<u8> = "0.0.0.0:".as_bytes_vec();
    push_decimal(port, &mut r);
    r
}

} // verus!
