//! What big-endian bytes stand for.
use crate::encoding::{all_zero, be_bytes, be_value, lemma_be_bytes_len};
use vstd::arithmetic::power::{lemma_pow0, lemma_pow_positive, pow};
use vstd::prelude::*;

verus! {

/// The byte at distance `k` from the end is the digit of that power of 256.
pub proof fn bytes_are_the_digits_of_the_number(x: nat, n: nat, k: int)
    requires
        0 <= k < n,
    ensures
        be_bytes(x, n).len() == n,
        be_bytes(x, n)[n - 1 - k] == x as int / pow(256, k as nat) % 256,
    decreases n,
{
    lemma_be_bytes_len(x, n);
    let rest = be_bytes(x / 256, (n - 1) as nat);
    lemma_be_bytes_len(x / 256, (n - 1) as nat);
    if k == 0 {
        lemma_pow0(256);
        assert(be_bytes(x, n)[n - 1] == (x % 256) as u8);
    } else {
        bytes_are_the_digits_of_the_number(x / 256, (n - 1) as nat, k - 1);
        assert(be_bytes(x, n)[n - 1 - k] == rest[n - 1 - k]);
        reveal(pow);
        assert(pow(256, k as nat) == 256 * pow(256, (k - 1) as nat));
        lemma_pow_positive(256, (k - 1) as nat);
        vstd::arithmetic::div_mod::lemma_div_denominator(
            x as int,
            256,
            pow(256, (k - 1) as nat),
        );
    }
}

/// The number of two and of eight bytes, the first being the most significant.
pub proof fn bytes_are_read_most_significant_first(s: Seq<u8>)
    ensures
        s.len() == 2 ==> be_value(s) == 0x100 * s[0] + s[1],
        s.len() == 4 ==> be_value(s) == 0x1_00_0000 * s[0] + 0x1_0000 * s[1] + 0x100 * s[2] + s[3],
        s.len() == 8 ==> be_value(s) == 0x100_0000_0000_0000 * s[0] + 0x1_0000_0000_0000 * s[1]
            + 0x100_0000_0000 * s[2] + 0x1_0000_0000 * s[3] + 0x100_0000 * s[4] + 0x1_0000 * s[5]
            + 0x100 * s[6] + s[7],
{
    reveal_with_fuel(be_value, 9);
}

/// Bytes count as zero where not one of them is another number.
pub proof fn zero_bytes_have_no_other_byte(bytes: Seq<u8>)
    ensures
        all_zero(bytes) <==> !exists|i: int| 0 <= i < bytes.len() && #[trigger] bytes[i] != 0u8,
{
}

/// Each further byte makes the number 256 times as large and adds itself.
pub proof fn each_byte_is_a_digit_of_the_number(s: Seq<u8>, b: u8)
    ensures
        be_value(Seq::empty()) == 0,
        be_value(s.push(b)) == 256 * be_value(s) + b,
{
    assert(s.push(b).drop_last() =~= s);
}

} // verus!
