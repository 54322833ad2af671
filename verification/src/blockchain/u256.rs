use vstd::prelude::*;

use crate::hexcodec::{hex_digit, hex_digit_value, is_hex_digit};
use vstd::arithmetic::div_mod::{lemma_fundamental_div_mod, lemma_fundamental_div_mod_converse};

verus! {

/// 2^64.
pub open spec fn p64() -> int {
    0x1_0000_0000_0000_0000int
}

/// 2^128.
pub open spec fn p128() -> int {
    0x1_0000_0000_0000_0000_0000_0000_0000_0000int
}

/// 2^192.
pub open spec fn p192() -> int {
    0x1_0000_0000_0000_0000_0000_0000_0000_0000_0000_0000_0000_0000int
}

/// 2^256.
pub open spec fn p256() -> int {
    0x1_0000_0000_0000_0000_0000_0000_0000_0000_0000_0000_0000_0000_0000_0000_0000_0000int
}

/// An unsigned 256-bit quantity, the width of on-chain token amounts and
/// allowances, as four 64-bit limbs, least significant first.
#[derive(Clone, Copy, Debug, PartialEq, Eq, Structural)]
pub struct U256 {
    pub l0: u64,
    pub l1: u64,
    pub l2: u64,
    pub l3: u64,
}

impl U256 {
    /// The number this quantity denotes.
    pub open spec fn value(self) -> int {
        self.l0 + self.l1 * p64() + self.l2 * p128() + self.l3 * p192()
    }

    pub proof fn lemma_value_bounds(self)
        ensures
            0 <= self.value() < p256(),
    {
    }

    pub fn zero() -> (r: U256)
        ensures
            r.value() == 0,
    {
        U256 { l0: 0, l1: 0, l2: 0, l3: 0 }
    }

    /// The largest representable quantity, 2^256 - 1: the allowance granted
    /// by an approval.
    pub fn max() -> (r: U256)
        ensures
            r.value() == p256() - 1,
    {
        U256 {
            l0: 0xffff_ffff_ffff_ffff,
            l1: 0xffff_ffff_ffff_ffff,
            l2: 0xffff_ffff_ffff_ffff,
            l3: 0xffff_ffff_ffff_ffff,
        }
    }

    pub fn from_u64(n: u64) -> (r: U256)
        ensures
            r.value() == n,
    {
        U256 { l0: n, l1: 0, l2: 0, l3: 0 }
    }

    /// Strict comparison of the denoted numbers.
    pub fn lt(&self, other: &U256) -> (r: bool)
        ensures
            r == (self.value() < other.value()),
    {
        if self.l3 != other.l3 {
            self.l3 < other.l3
        } else if self.l2 != other.l2 {
            self.l2 < other.l2
        } else if self.l1 != other.l1 {
            self.l1 < other.l1
        } else {
            self.l0 < other.l0
        }
    }
}

/// The number denoted by a big-endian string of hexadecimal digits.
pub open spec fn hex_number_value(s: Seq<u8>) -> int
    decreases s.len(),
{
    if s.len() == 0 {
        0
    } else {
        hex_number_value(s.drop_last()) * 16 + hex_digit_value(s.last())
    }
}

/// Whether `s` denotes a 256-bit number: nonempty, all hexadecimal digits,
/// value below 2^256.
pub open spec fn hex_number_valid(s: Seq<u8>) -> bool {
    &&& s.len() > 0
    &&& forall|i: int| 0 <= i < s.len() ==> is_hex_digit(s[i])
    &&& hex_number_value(s) < p256()
}

pub proof fn lemma_hex_number_nonneg(s: Seq<u8>)
    ensures
        hex_number_value(s) >= 0,
    decreases s.len(),
{
    if s.len() > 0 {
        lemma_hex_number_nonneg(s.drop_last());
    }
}

/// A prefix never denotes more than the whole string.
pub proof fn lemma_hex_prefix_monotone(s: Seq<u8>, k: int)
    requires
        0 <= k <= s.len(),
    ensures
        hex_number_value(s.take(k)) <= hex_number_value(s),
    decreases s.len() - k,
{
    if k < s.len() {
        assert(s.take(k + 1).drop_last() =~= s.take(k));
        lemma_hex_number_nonneg(s.take(k));
        lemma_hex_prefix_monotone(s, k + 1);
    } else {
        assert(s.take(k) =~= s);
    }
}

/// One step of big-endian accumulation: `a * 16 + d`, detecting overflow
/// past 2^256 exactly.
fn mul16_add(a: &U256, d: u8) -> (r: Option<U256>)
    requires
        d < 16,
    ensures
        r is Some <==> a.value() * 16 + d < p256(),
        r matches Some(v) ==> v.value() == a.value() * 16 + d,
{
    let p: u128 = 0x1_0000_0000_0000_0000;
    let t0: u128 = (a.l0 as u128) * 16 + (d as u128);
    let r0: u64 = (t0 % p) as u64;
    let c0: u64 = (t0 / p) as u64;
    let t1: u128 = (a.l1 as u128) * 16 + (c0 as u128);
    let r1: u64 = (t1 % p) as u64;
    let c1: u64 = (t1 / p) as u64;
    let t2: u128 = (a.l2 as u128) * 16 + (c1 as u128);
    let r2: u64 = (t2 % p) as u64;
    let c2: u64 = (t2 / p) as u64;
    let t3: u128 = (a.l3 as u128) * 16 + (c2 as u128);
    let r3: u64 = (t3 % p) as u64;
    let c3: u64 = (t3 / p) as u64;
    proof {
        lemma_fundamental_div_mod(t0 as int, p as int);
        lemma_fundamental_div_mod(t1 as int, p as int);
        lemma_fundamental_div_mod(t2 as int, p as int);
        lemma_fundamental_div_mod(t3 as int, p as int);
    }
    if c3 != 0 {
        None
    } else {
        Some(U256 { l0: r0, l1: r1, l2: r2, l3: r3 })
    }
}

/// Parses a big-endian hexadecimal number, as the settlement directive's
/// value component is written. Rejects exactly the strings that denote no
/// 256-bit number.
pub fn u256_from_hex(s: &Vec<u8>) -> (r: Option<U256>)
    ensures
        r is Some <==> hex_number_valid(s@),
        r matches Some(v) ==> v.value() == hex_number_value(s@),
{
    if s.len() == 0 {
        return None;
    }
    let mut acc = U256::zero();
    let mut i: usize = 0;
    while i < s.len()
        invariant
            i <= s.len(),
            s.len() > 0,
            forall|j: int| 0 <= j < i ==> is_hex_digit(s@[j]),
            acc.value() == hex_number_value(s@.take(i as int)),
        decreases s.len() - i,
    {
        let d = match hex_digit(s[i]) {
            Some(d) => d,
            None => {
                return None;
            },
        };
        proof {
            assert(s@.take(i as int + 1).drop_last() =~= s@.take(i as int));
        }
        let next = match mul16_add(&acc, d) {
            Some(v) => v,
            None => {
                proof {
                    lemma_hex_prefix_monotone(s@, i as int + 1);
                }
                return None;
            },
        };
        acc = next;
        i += 1;
    }
    proof {
        assert(s@.take(s@.len() as int) =~= s@);
        acc.lemma_value_bounds();
    }
    Some(acc)
}

/// The allowance level below which approval must be renewed: one
/// billionth of the maximum allowance, so a near-exhausted approval counts
/// as needing renewal, not only a fully spent one.
pub open spec fn approval_threshold_value() -> int {
    (p256() - 1) / 1_000_000_000
}

/// The renewal threshold as a quantity.
pub fn approval_threshold() -> (r: U256)
    ensures
        r.value() == approval_threshold_value(),
{
    let r = U256 {
        l0: 0x08d5_d64f_9c39_4ae9,
        l1: 0xc4a9_8187_eebb_22f0,
        l2: 0xb5a5_2cb9_8b40_5447,
        l3: 0x0000_0004_4b82_fa09,
    };
    proof {
        assert(r.value() * 1_000_000_000 + 129_639_935 == p256() - 1);
        lemma_fundamental_div_mod_converse(p256() - 1, 1_000_000_000, r.value(), 129_639_935);
    }
    r
}

} // verus!
