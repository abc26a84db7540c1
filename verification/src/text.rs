//! Numbers and hashes written out.

use crate::primitives::B256;
use vstd::prelude::*;
use vstd::string::{StrSliceExecFns, StringExecFns};

verus! {

/// The digit that writes `n` in base sixteen.
pub open spec fn hex_digit(n: int) -> char {
    "0123456789abcdef"@[n]
}

/// The digit that writes `n` in base sixteen.
fn digit(n: u8) -> (r: &'static str)
    requires
        n < 16,
    ensures
        r@ == seq![hex_digit(n as int)],
{
    let digits: &'static str = "0123456789abcdef";
    proof {
        reveal_strlit("0123456789abcdef");
    }
    let at = n as usize;
    digits.substring_ascii(at, at + 1)
}

/// Bytes in base sixteen, two digits each, behind `0x`.
pub open spec fn hex_text(bytes: Seq<u8>) -> Seq<char> {
    "0x"@ + Seq::new(
        2 * bytes.len(),
        |i: int|
            hex_digit(
                if i % 2 == 0 {
                    bytes[i / 2] as int / 16
                } else {
                    bytes[i / 2] as int % 16
                },
            ),
    )
}

/// Writes a hash whole, in lower-case hexadecimal behind `0x`.
pub fn hash_text(hash: &B256) -> (r: String)
    ensures
        r@ == hex_text(hash@),
{
    let mut text = "0x".to_owned();
    let mut i: usize = 0;
    while i < 32
        invariant
            i <= 32,
            text@ =~= hex_text(hash@.take(i as int)),
        decreases 32 - i,
    {
        let byte = hash[i];
        let ghost before = text@;
        text.append(digit(byte / 16));
        text.append(digit(byte % 16));
        proof {
            let shorter = hash@.take(i as int);
            let longer = hash@.take(i + 1);
            assert(longer =~= shorter.push(byte));
            assert(text@ =~= before.push(hex_digit(byte as int / 16)).push(
                hex_digit(byte as int % 16),
            ));
            assert forall|k: int| 0 <= k < hex_text(longer).len() implies hex_text(longer)[k]
                == text@[k] by {
                reveal_strlit("0x");
                if k >= 2 + 2 * i {
                    assert(longer[(k - 2) / 2] == byte);
                }
            }
            assert(text@ =~= hex_text(longer));
        }
        i += 1;
    }
    assert(hash@.take(32) =~= hash@);
    text
}

/// A number in base ten, without leading zeros.
pub open spec fn decimal_text(n: nat) -> Seq<char>
    decreases n,
{
    if n < 10 {
        seq![hex_digit(n as int)]
    } else {
        decimal_text(n / 10).push(hex_digit(n as int % 10))
    }
}

/// Writes a number in base ten.
pub fn number_text(n: u64) -> (r: String)
    ensures
        r@ == decimal_text(n as nat),
    decreases n,
{
    if n < 10 {
        digit(n as u8).to_owned()
    } else {
        let text = number_text(n / 10).concat(digit((n % 10) as u8));
        assert(text@ =~= decimal_text(n as nat));
        text
    }
}

} // verus!
