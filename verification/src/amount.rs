//! Unsigned 256-bit amounts of tokens.

use vstd::prelude::*;

verus! {

/// Two to the power 128: the weight of the high half of an amount.
pub open spec fn half_base() -> nat {
    0x1_0000_0000_0000_0000_0000_0000_0000_0000nat
}

/// Two to the power 256: one more than the largest amount.
pub open spec fn amount_bound() -> nat {
    0x1_0000_0000_0000_0000_0000_0000_0000_0000_0000_0000_0000_0000_0000_0000_0000_0000nat
}

/// An unsigned integer below 2^256, held as a low and a high 128-bit half.
#[derive(Clone, Copy, Debug, PartialEq, Eq, Structural)]
pub struct U256 {
    lo: u128,
    hi: u128,
}

impl View for U256 {
    type V = nat;

    /// The number the two halves stand for.
    closed spec fn view(&self) -> nat {
        (self.lo + self.hi * half_base()) as nat
    }
}

/// An amount is below 2^256, and two amounts with the same value are the same amount.
pub proof fn lemma_amount_value(a: U256, b: U256)
    ensures
        a@ < amount_bound(),
        a@ == b@ <==> a == b,
{
    assert(a.hi * half_base() <= (half_base() - 1) * half_base()) by (nonlinear_arith)
        requires
            a.hi < half_base(),
    ;
    if a@ == b@ {
        if a.hi < b.hi {
            assert(a.hi * half_base() + half_base() <= b.hi * half_base()) by (nonlinear_arith)
                requires
                    a.hi < b.hi,
            ;
        } else if b.hi < a.hi {
            assert(b.hi * half_base() + half_base() <= a.hi * half_base()) by (nonlinear_arith)
                requires
                    b.hi < a.hi,
            ;
        }
    }
}

impl U256 {
    /// The amount whose value is `n` (taken modulo 2^256).
    pub closed spec fn from_value(n: nat) -> U256 {
        U256 { lo: (n % half_base()) as u128, hi: ((n / half_base()) % half_base()) as u128 }
    }

    /// An amount is rebuilt from its value, and a value below 2^256 is the
    /// value of the amount built from it.
    pub proof fn lemma_from_value(a: U256, n: nat)
        ensures
            U256::from_value(a@) == a,
            n < amount_bound() ==> U256::from_value(n)@ == n,
    {
        vstd::arithmetic::div_mod::lemma_fundamental_div_mod_converse(
            a@ as int,
            half_base() as int,
            a.hi as int,
            a.lo as int,
        );
        vstd::arithmetic::div_mod::lemma_small_mod(a.hi as nat, half_base());
        if n < amount_bound() {
            vstd::arithmetic::div_mod::lemma_fundamental_div_mod(n as int, half_base() as int);
            vstd::arithmetic::div_mod::lemma_div_pos_is_pos(n as int, half_base() as int);
            vstd::arithmetic::div_mod::lemma_mod_bound(n as int, half_base() as int);
            assert(n / half_base() < half_base()) by (nonlinear_arith)
                requires
                    n < amount_bound(),
                    amount_bound() == half_base() * half_base(),
                    half_base() > 0,
            ;
            vstd::arithmetic::div_mod::lemma_small_mod(n / half_base(), half_base());
        }
    }

    /// The amount zero.
    pub fn zero() -> (r: U256)
        ensures
            r@ == 0,
            r == U256::from_value(0),
    {
        proof {
            U256::lemma_from_value(U256 { lo: 0, hi: 0 }, 0);
        }
        U256 { lo: 0, hi: 0 }
    }

    /// The amount equal to a 64-bit integer.
    pub fn from_u64(x: u64) -> (r: U256)
        ensures
            r@ == x,
    {
        U256 { lo: x as u128, hi: 0 }
    }

    /// The amount with the given low and high 128-bit halves.
    pub fn from_halves(lo: u128, hi: u128) -> (r: U256)
        ensures
            r@ == lo + hi * half_base(),
    {
        U256 { lo, hi }
    }

    /// The low 128 bits.
    pub fn low_half(&self) -> (r: u128)
        ensures
            r == self@ % half_base(),
    {
        proof {
            vstd::arithmetic::div_mod::lemma_fundamental_div_mod_converse(
                self@ as int,
                half_base() as int,
                self.hi as int,
                self.lo as int,
            );
        }
        self.lo
    }

    /// The high 128 bits.
    pub fn high_half(&self) -> (r: u128)
        ensures
            r == self@ / half_base(),
    {
        proof {
            vstd::arithmetic::div_mod::lemma_fundamental_div_mod_converse(
                self@ as int,
                half_base() as int,
                self.hi as int,
                self.lo as int,
            );
        }
        self.hi
    }

    /// Whether the amount is zero.
    pub fn is_zero(&self) -> (r: bool)
        ensures
            r == (self@ == 0),
    {
        self.lo == 0 && self.hi == 0
    }

    /// Whether the two amounts are equal.
    pub fn equals(&self, other: &U256) -> (r: bool)
        ensures
            r == (self@ == other@),
    {
        proof {
            lemma_amount_value(*self, *other);
        }
        self.lo == other.lo && self.hi == other.hi
    }

    /// Whether this amount is smaller than the other.
    pub fn less_than(&self, other: &U256) -> (r: bool)
        ensures
            r == (self@ < other@),
    {
        if self.hi < other.hi {
            assert(self.hi * half_base() + half_base() <= other.hi * half_base()) by (nonlinear_arith)
                requires
                    self.hi < other.hi,
            ;
            true
        } else if self.hi == other.hi {
            self.lo < other.lo
        } else {
            assert(other.hi * half_base() + half_base() <= self.hi * half_base()) by (nonlinear_arith)
                requires
                    other.hi < self.hi,
            ;
            false
        }
    }

    /// The sum of two amounts, which must stay below 2^256.
    pub fn add(&self, other: &U256) -> (r: U256)
        requires
            self@ + other@ < amount_bound(),
        ensures
            r@ == self@ + other@,
            r == U256::from_value(self@ + other@),
    {
        let r = self.add_halves(other);
        proof {
            U256::lemma_from_value(r, 0);
        }
        r
    }

    fn add_halves(&self, other: &U256) -> (r: U256)
        requires
            self@ + other@ < amount_bound(),
        ensures
            r@ == self@ + other@,
    {
        let lo_room: u128 = u128::MAX - self.lo;
        if other.lo <= lo_room {
            let hi_sum: u128 = self.hi + other.hi;
            assert((self.hi + other.hi) * half_base() == self.hi * half_base() + other.hi * half_base())
                by (nonlinear_arith);
            assert(hi_sum < half_base()) by (nonlinear_arith)
                requires
                    hi_sum * half_base() < amount_bound(),
                    amount_bound() == half_base() * half_base(),
            ;
            U256 { lo: self.lo + other.lo, hi: self.hi + other.hi }
        } else {
            let lo: u128 = other.lo - lo_room - 1;
            assert((self.hi + other.hi + 1) * half_base() == self.hi * half_base() + other.hi * half_base() + half_base())
                by (nonlinear_arith);
            assert(self.hi + other.hi + 1 < half_base()) by (nonlinear_arith)
                requires
                    (self.hi + other.hi + 1) * half_base() < amount_bound(),
                    amount_bound() == half_base() * half_base(),
            ;
            U256 { lo, hi: self.hi + other.hi + 1 }
        }
    }

    /// The difference of two amounts, the second no larger than the first.
    pub fn sub(&self, other: &U256) -> (r: U256)
        requires
            other@ <= self@,
        ensures
            r@ == self@ - other@,
            r == U256::from_value((self@ - other@) as nat),
    {
        let r = self.sub_halves(other);
        proof {
            U256::lemma_from_value(r, 0);
        }
        r
    }

    fn sub_halves(&self, other: &U256) -> (r: U256)
        requires
            other@ <= self@,
        ensures
            r@ == self@ - other@,
    {
        if other.lo <= self.lo {
            assert((self.hi - other.hi) * half_base() == self.hi * half_base() - other.hi * half_base())
                by (nonlinear_arith);
            if self.hi < other.hi {
                assert(self.hi * half_base() + half_base() <= other.hi * half_base()) by (nonlinear_arith)
                    requires
                        self.hi < other.hi,
                ;
            }
            U256 { lo: self.lo - other.lo, hi: self.hi - other.hi }
        } else {
            if self.hi <= other.hi {
                assert(self.hi * half_base() <= other.hi * half_base()) by (nonlinear_arith)
                    requires
                        self.hi <= other.hi,
                ;
            }
            let lo: u128 = self.lo + (u128::MAX - other.lo) + 1;
            assert((self.hi - other.hi - 1) * half_base() == self.hi * half_base() - other.hi * half_base() - half_base())
                by (nonlinear_arith);
            U256 { lo, hi: self.hi - other.hi - 1 }
        }
    }
}

} // verus!
