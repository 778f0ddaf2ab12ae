use vstd::prelude::*;
use crate::errors::RpcError;
use vstd::arithmetic::power2::{pow2, lemma_pow2_adds, lemma_pow2_strictly_increases, lemma2_to64, lemma2_to64_rest};
use vstd::arithmetic::div_mod::lemma_div_denominator;

verus! {

broadcast use vstd::arithmetic::power2::lemma_pow2_pos;

/// A token amount in the chain's smallest accounting unit (nano units,
/// nine fractional decimal digits below one whole token).
#[derive(Clone, Copy, Debug, PartialEq, Eq, Structural)]
pub struct TokenAmount {
    pub nano: u128,
}

impl TokenAmount {
    /// Builds an amount from a count of nano units.
    pub fn from_nano(nano: u128) -> (r: TokenAmount)
        ensures
            r.nano == nano,
    {
        TokenAmount { nano }
    }
}

/// The sign field of a binary64 bit pattern.
pub open spec fn f64_sign(bits: u64) -> int {
    (bits as int) / 0x8000_0000_0000_0000
}

/// The biased exponent field of a binary64 bit pattern.
pub open spec fn f64_expo(bits: u64) -> int {
    ((bits as int) / 0x10_0000_0000_0000) % 0x800
}

/// The mantissa field of a binary64 bit pattern.
pub open spec fn f64_mant(bits: u64) -> int {
    (bits as int) % 0x10_0000_0000_0000
}

/// The full significand: the mantissa with the implicit leading one of a
/// normal number made explicit.
pub open spec fn f64_sig(bits: u64) -> int {
    if f64_expo(bits) == 0 {
        f64_mant(bits)
    } else {
        f64_mant(bits) + 0x10_0000_0000_0000
    }
}

/// The power-of-two scale of the significand: the represented value is
/// `f64_sig(bits) * 2^f64_e2(bits)`.
pub open spec fn f64_e2(bits: u64) -> int {
    if f64_expo(bits) == 0 {
        -1074
    } else {
        f64_expo(bits) - 1075
    }
}

/// Accepted amounts: finite and not below zero (a negative zero still
/// denotes the value zero and is accepted).
pub open spec fn f64_amount_ok(bits: u64) -> bool {
    f64_expo(bits) != 0x7ff && (f64_sign(bits) == 0 || (f64_expo(bits) == 0 && f64_mant(bits)
        == 0))
}

/// How far `p` must be scaled down so that the significand of the
/// product fits the 53 bits of a binary64.
pub open spec fn shift_for(p: int) -> nat
    recommends
        p >= 0,
    decreases p,
{
    if p < 0x20_0000_0000_0000 {
        0
    } else {
        (1 + shift_for(p / 2)) as nat
    }
}

/// `p / 2^sh`, rounded to the nearest integer with ties to even.
pub open spec fn round_even(p: int, sh: nat) -> int {
    let q = p / (pow2(sh) as int);
    let r = p % (pow2(sh) as int);
    if 2 * r < pow2(sh) {
        q
    } else if 2 * r > pow2(sh) {
        q + 1
    } else if q % 2 == 0 {
        q
    } else {
        q + 1
    }
}

/// The count of nano units that converting the binary64 value `bits`
/// yields: the value is multiplied by 10^9 under binary64 round-to-
/// nearest-even semantics, truncated toward zero, and clamped to the
/// range of `u128` exactly as a saturating float-to-integer cast would.
pub open spec fn nano_units_of(bits: u64) -> int {
    let p = f64_sig(bits) * 1_000_000_000;
    if p == 0 {
        0
    } else {
        let sh = shift_for(p);
        let q = round_even(p, sh);
        let e = f64_e2(bits) + sh;
        if e >= 0 {
            if q * pow2(e as nat) > u128::MAX {
                u128::MAX as int
            } else {
                q * pow2(e as nat)
            }
        } else {
            q / (pow2((-e) as nat) as int)
        }
    }
}

/// `2^n` as a machine word.
fn pow2_u128(n: u32) -> (r: u128)
    requires
        n <= 127,
    ensures
        r == pow2(n as nat),
{
    let mut i: u32 = 0;
    let mut r: u128 = 1;
    proof {
        lemma2_to64();
        lemma2_to64_rest();
    }
    while i < n
        invariant
            i <= n <= 127,
            r == pow2(i as nat),
        decreases n - i,
    {
        proof {
            lemma_pow2_adds(i as nat, 1);
            lemma2_to64();
            lemma2_to64_rest();
            if i + 1 < 128 {
                lemma_pow2_strictly_increases(i as nat + 1, 128);
            }
            lemma_pow2_128();
        }
        r = r * 2;
        i = i + 1;
    }
    r
}

/// `2^128` written out, for bounds on 128-bit words.
proof fn lemma_pow2_128()
    ensures
        pow2(128) == 0x1_0000_0000_0000_0000_0000_0000_0000_0000,
        pow2(127) == 0x8000_0000_0000_0000_0000_0000_0000_0000,
{
    lemma2_to64();
    lemma2_to64_rest();
    lemma_pow2_adds(64, 64);
    lemma_pow2_adds(64, 63);
    assert(pow2(64) == 0x1_0000_0000_0000_0000);
    assert(pow2(63) == 0x8000_0000_0000_0000);
}

/// Converts a whole-unit amount, given as the bit pattern of a binary64
/// value, to nano units. Negative and non-finite inputs are rejected;
/// everything below one nano unit is truncated away, never rounded up.
pub fn token_amount_from_f64_bits(bits: u64) -> (r: Result<TokenAmount, RpcError>)
    ensures
        r is Ok <==> f64_amount_ok(bits),
        r matches Ok(a) ==> a.nano == nano_units_of(bits),
        r matches Err(e) ==> e is InvalidAmount,
{
    let expo: u64 = (bits / 0x10_0000_0000_0000) % 0x800;
    let mant: u64 = bits % 0x10_0000_0000_0000;
    let sign: u64 = bits / 0x8000_0000_0000_0000;
    if expo == 0x7ff {
        return Err(RpcError::InvalidAmount);
    }
    if sign == 1 && !(expo == 0 && mant == 0) {
        return Err(RpcError::InvalidAmount);
    }
    let sig: u128 = if expo == 0 {
        mant as u128
    } else {
        mant as u128 + 0x10_0000_0000_0000u128
    };
    let p: u128 = sig * 1_000_000_000;
    assert(p == f64_sig(bits) * 1_000_000_000);
    if p == 0 {
        return Ok(TokenAmount::from_nano(0));
    }
    // scale p down until its significant part fits in 53 bits
    let mut sh: u32 = 0;
    let mut pw: u128 = 1;
    let mut x: u128 = p;
    proof {
        lemma2_to64();
        lemma2_to64_rest();
    }
    while x >= 0x20_0000_0000_0000u128
        invariant
            pw == pow2(sh as nat),
            x == p / pw,
            p == f64_sig(bits) * 1_000_000_000,
            0 < p < 0x8_0000_0000_0000_0000_0000u128,
            sh <= 83,
            shift_for(p as int) == sh + shift_for(x as int),
            sh > 0 ==> (p as int) / (pow2((sh - 1) as nat) as int) >= 0x20_0000_0000_0000,
        decreases x,
    {
        proof {
            // p / 2^sh >= 2^53 pins 2^sh well below p, so sh stays small
            assert(pow2(sh as nat) * 0x20_0000_0000_0000 <= p) by (nonlinear_arith)
                requires
                    (p as int) / (pow2(sh as nat) as int) >= 0x20_0000_0000_0000,
                    pow2(sh as nat) > 0,
                    p >= 0,
            {
            }
            lemma2_to64();
            lemma2_to64_rest();
            assert(pow2(53) == 0x20_0000_0000_0000);
            lemma_pow2_adds(sh as nat, 53);
            assert(pow2(sh as nat + 53) <= p);
            if sh as nat + 53 >= 84 {
                lemma_pow2_strictly_increases(83, sh as nat + 53);
                lemma_pow2_adds(64, 19);
                assert(pow2(83) == 0x8_0000_0000_0000_0000_0000) by {
                    lemma2_to64();
                    lemma2_to64_rest();
                    lemma2_to64_rest_bridge();
                }
                assert(false);
            }
            lemma_div_denominator(p as int, pow2(sh as nat) as int, 2);
            lemma_pow2_adds(sh as nat, 1);
        }
        x = x / 2;
        pw = pw * 2;
        sh = sh + 1;
    }
    proof {
        assert(shift_for(x as int) == 0);
        assert(sh == shift_for(p as int));
        lemma_pow2_strictly_increases(sh as nat, 127);
        lemma_pow2_128();
        lemma_pow2_adds(64, 63);
        assert(pw < 0x8000_0000_0000_0000_0000_0000_0000_0000);
    }
    let q0: u128 = p / pw;
    let r0: u128 = p % pw;
    assert(q0 == x);
    assert(q0 < 0x20_0000_0000_0000);
    assert(r0 < pw) by {
        assert(pw > 0);
    }
    let q: u128 = if 2 * r0 < pw {
        q0
    } else if 2 * r0 > pw {
        q0 + 1
    } else if q0 % 2 == 0 {
        q0
    } else {
        q0 + 1
    };
    assert(q == round_even(p as int, sh as nat));
    assert(q <= 0x20_0000_0000_0000);
    let e2: i64 = if expo == 0 {
        -1074i64
    } else {
        expo as i64 - 1075
    };
    assert(e2 == f64_e2(bits));
    let e: i64 = e2 + sh as i64;
    if e >= 0 {
        if e >= 128 {
            proof {
                lemma_high_exponent_saturates(bits, p as int, sh as nat, q as int, e as int);
            }
            return Ok(TokenAmount::from_nano(u128::MAX));
        }
        let pwe: u128 = pow2_u128(e as u32);
        if q > u128::MAX / pwe {
            proof {
                assert(q * pwe > u128::MAX) by (nonlinear_arith)
                    requires
                        (q as int) > (u128::MAX as int) / (pwe as int),
                        pwe > 0,
                {
                }
            }
            return Ok(TokenAmount::from_nano(u128::MAX));
        }
        proof {
            assert(q * pwe <= u128::MAX) by (nonlinear_arith)
                requires
                    (q as int) <= (u128::MAX as int) / (pwe as int),
                    pwe > 0,
                    q >= 0,
            {
            }
        }
        return Ok(TokenAmount::from_nano(q * pwe));
    }
    let k: i64 = -e;
    assert(1 <= k <= 1074);
    if k >= 128 {
        proof {
            lemma_tiny_quotient_is_zero(q as int, k as nat);
        }
        return Ok(TokenAmount::from_nano(0));
    }
    let pwk: u128 = pow2_u128(k as u32);
    return Ok(TokenAmount::from_nano(q / pwk));
}

/// The remaining powers of two between 64 and 83 that the shift bound
/// needs.
proof fn lemma2_to64_rest_bridge()
    ensures
        pow2(83) == 0x8_0000_0000_0000_0000_0000,
{
    lemma2_to64();
    lemma2_to64_rest();
    lemma_pow2_adds(64, 19);
    assert(pow2(64) == 0x1_0000_0000_0000_0000);
    assert(pow2(19) == 0x80000);
}

/// With at least 128 doublings left, any positive rounded significand
/// pushes the product past the largest 128-bit word.
proof fn lemma_high_exponent_saturates(bits: u64, p: int, sh: nat, q: int, e: int)
    requires
        p == f64_sig(bits) * 1_000_000_000,
        p > 0,
        sh == shift_for(p),
        q == round_even(p, sh),
        e == f64_e2(bits) + sh,
        e >= 128,
        sh > 0 ==> (p as int) / (pow2((sh - 1) as nat) as int) >= 0x20_0000_0000_0000,
        p / (pow2(sh as nat) as int) < 0x20_0000_0000_0000,
    ensures
        nano_units_of(bits) == u128::MAX as int,
{
    lemma_round_even_near(p, sh);
    lemma2_to64();
    lemma2_to64_rest();
    assert(q >= p / (pow2(sh) as int));
    if sh == 0 {
        // the exponent can only reach 128 on a normal number, whose
        // significand alone already pushes p past 53 bits
        assert(f64_expo(bits) != 0);
        assert(f64_sig(bits) >= 0x10_0000_0000_0000);
        assert(p >= 0x10_0000_0000_0000 * 1_000_000_000);
        assert(p / (pow2(0) as int) == p);
        assert(false);
    }
    assert(p / (pow2((sh - 1) as nat) as int) >= 0x20_0000_0000_0000);
    lemma_div_denominator(p, pow2((sh - 1) as nat) as int, 2);
    lemma_pow2_adds((sh - 1) as nat, 1);
    assert((p / (pow2((sh - 1) as nat) as int)) / 2 == p / (pow2(sh) as int));
    assert(p / (pow2(sh) as int) >= 0x10_0000_0000_0000);
    assert(q >= 0x10_0000_0000_0000);
    lemma_pow2_128();
    if e > 128 {
        lemma_pow2_strictly_increases(128, e as nat);
    }
    assert(pow2(e as nat) >= pow2(128));
    assert(q * pow2(e as nat) > u128::MAX) by (nonlinear_arith)
        requires
            q >= 1,
            pow2(e as nat) >= pow2(128),
            pow2(128) == 0x1_0000_0000_0000_0000_0000_0000_0000_0000,
    {
    }
}

/// Rounding never moves the quotient by more than one step.
proof fn lemma_round_even_near(p: int, sh: nat)
    requires
        p >= 0,
    ensures
        p / (pow2(sh) as int) <= round_even(p, sh) <= p / (pow2(sh) as int) + 1,
{
    vstd::arithmetic::power2::lemma_pow2_pos(sh);
    assert(p / (pow2(sh) as int) >= 0) by (nonlinear_arith)
        requires
            p >= 0,
            pow2(sh) as int > 0,
    {
    }
}

/// A significand of fewer than 55 bits vanishes under 128 or more
/// halvings.
proof fn lemma_tiny_quotient_is_zero(q: int, k: nat)
    requires
        0 <= q <= 0x20_0000_0000_0000,
        k >= 128,
    ensures
        q / (pow2(k) as int) == 0,
{
    lemma_pow2_strictly_increases(54, k);
    assert(pow2(54) == 0x40_0000_0000_0000) by {
        lemma2_to64();
        lemma2_to64_rest();
        lemma_pow2_adds(53, 1);
    }
    assert(q / (pow2(k) as int) == 0) by (nonlinear_arith)
        requires
            0 <= q,
            q < pow2(k) as int,
    {
    }
    assert(q < pow2(k) as int);
}

/// The exact integer a binary64 bit pattern denotes: its value if that
/// value is a whole number representable in a 64-bit word, and nothing
/// for a negative, non-finite, fractional or too large value.
pub open spec fn f64_int_of(bits: u64) -> Option<u64> {
    if f64_expo(bits) == 0x7ff {
        None
    } else if f64_sign(bits) == 1 && f64_sig(bits) != 0 {
        None
    } else if f64_sig(bits) == 0 {
        Some(0u64)
    } else {
        let sig = f64_sig(bits);
        let e2 = f64_e2(bits);
        if e2 >= 0 {
            if sig * pow2(e2 as nat) > u64::MAX {
                None
            } else {
                Some((sig * pow2(e2 as nat)) as u64)
            }
        } else if sig % (pow2((-e2) as nat) as int) == 0 {
            Some((sig / (pow2((-e2) as nat) as int)) as u64)
        } else {
            None
        }
    }
}

/// Reads a whole number out of a binary64 bit pattern, as a field such
/// as an epoch demands; anything that is not exactly a representable
/// whole number is refused.
pub fn integer_from_f64_bits(bits: u64) -> (r: Option<u64>)
    ensures
        r == f64_int_of(bits),
{
    let expo: u64 = (bits / 0x10_0000_0000_0000) % 0x800;
    let mant: u64 = bits % 0x10_0000_0000_0000;
    let sign: u64 = bits / 0x8000_0000_0000_0000;
    if expo == 0x7ff {
        return None;
    }
    let sig: u128 = if expo == 0 {
        mant as u128
    } else {
        mant as u128 + 0x10_0000_0000_0000u128
    };
    assert(sig == f64_sig(bits));
    if sign == 1 && sig != 0 {
        return None;
    }
    if sig == 0 {
        return Some(0);
    }
    let e2: i64 = if expo == 0 {
        -1074i64
    } else {
        expo as i64 - 1075
    };
    assert(e2 == f64_e2(bits));
    proof {
        lemma2_to64();
    }
    if e2 >= 0 {
        if e2 >= 64 {
            proof {
                if e2 > 64 {
                    lemma_pow2_strictly_increases(64, e2 as nat);
                }
                assert(pow2(64) == 0x1_0000_0000_0000_0000);
                assert(sig * pow2(e2 as nat) > u64::MAX) by (nonlinear_arith)
                    requires
                        sig >= 1,
                        pow2(e2 as nat) >= 0x1_0000_0000_0000_0000,
                {
                }
            }
            return None;
        }
        let pw: u128 = pow2_u128(e2 as u32);
        proof {
            lemma_pow2_strictly_increases(e2 as nat, 64);
            assert(pow2(64) == 0x1_0000_0000_0000_0000);
            assert(sig * pw < 0x20_0000_0000_0000_0000_0000_0000_0000) by (nonlinear_arith)
                requires
                    0 <= sig < 0x20_0000_0000_0000,
                    0 <= pw < 0x1_0000_0000_0000_0000u128,
            {
            }
            assert(sig * pw <= u128::MAX);
        }
        let prod: u128 = sig * pw;
        if prod > u64::MAX as u128 {
            return None;
        }
        return Some(prod as u64);
    }
    let k: i64 = -e2;
    assert(1 <= k <= 1074);
    if k >= 53 {
        proof {
            assert(pow2(53) == 0x20_0000_0000_0000) by {
                lemma2_to64();
                lemma2_to64_rest();
                lemma_pow2_adds(52, 1);
            }
            if k > 53 {
                lemma_pow2_strictly_increases(53, k as nat);
            }
            assert(sig < pow2(k as nat));
            assert((sig as int) % (pow2(k as nat) as int) == sig) by (nonlinear_arith)
                requires
                    0 <= sig,
                    (sig as int) < pow2(k as nat) as int,
            {
            }
        }
        return None;
    }
    let pw: u128 = pow2_u128(k as u32);
    if sig % pw == 0 {
        proof {
            assert((sig as int) / (pw as int) <= sig as int) by (nonlinear_arith)
                requires
                    sig >= 0,
                    pw >= 1,
            {
            }
        }
        Some((sig / pw) as u64)
    } else {
        None
    }
}

} // verus!
