//! A signed integer of a fixed bit width that remembers whether any operation left its range.
use vstd::arithmetic::div_mod::{lemma_mod_multiples_vanish, lemma_mod_bound};
use vstd::arithmetic::power2::{lemma_pow2_adds, lemma_pow2_pos, lemma2_to64, pow2};
use vstd::bits::lemma_u64_shl_is_mul;
use vstd::prelude::*;

verus! {

/// `2^(n - 1)`: the largest magnitude of an `n` bit signed integer.
pub open spec fn half_range(n: nat) -> int {
    pow2((n - 1) as nat) as int
}

/// The `n` bit two's complement value whose low `n` bits are those of `v`: the unique value in
/// `-2^(n-1)..2^(n-1)` that is congruent to `v` modulo `2^n`.
pub open spec fn wrap_signed(v: int, n: nat) -> int {
    ((v + half_range(n)) % (2 * half_range(n))) - half_range(n)
}

/// Proof that `2^(n-1)` is at most `2^62` for a width of 1 to 63 bits.
pub proof fn lemma_half_range_bound(n: nat)
    requires
        1 <= n <= 63,
    ensures
        1 <= half_range(n) <= 0x4000_0000_0000_0000,
{
    lemma2_to64();
    lemma_pow2_pos((n - 1) as nat);
    lemma_pow2_adds((n - 1) as nat, (63 - n) as nat);
    lemma_pow2_pos((63 - n) as nat);
    lemma_pow2_adds(62, 2);
    assert(pow2((n - 1) as nat) <= pow2(62)) by (nonlinear_arith)
        requires pow2((n - 1) as nat) * pow2((63 - n) as nat) == pow2(62),
            pow2((63 - n) as nat) >= 1;
}

/// A signed integer with `N` total bits.
#[derive(Debug, Clone, Copy, PartialEq, Eq)]
pub struct Integer<const N: usize> {
    /// The actual value.
    value: i64,
    /// Has any operation overflowed the value?
    overflow: bool,
    /// Has any operation underflowed the value?
    underflow: bool,
}

/// Facts about `wrap_signed` for a width of 1 to 64 bits.
pub proof fn lemma_wrap_signed(v: int, n: nat)
    requires
        1 <= n <= 64,
    ensures
        -half_range(n) <= wrap_signed(v, n) < half_range(n),
        i64::MIN <= wrap_signed(v, n) <= i64::MAX,
        -half_range(n) <= v < half_range(n) ==> wrap_signed(v, n) == v,
        (v - wrap_signed(v, n)) % (2 * half_range(n)) == 0,
{
    let h = half_range(n);
    lemma_pow2_pos((n - 1) as nat);
    lemma_mod_bound(v + h, 2 * h);
    lemma_pow2_adds((n - 1) as nat, (64 - n) as nat);
    lemma2_to64();
    vstd::arithmetic::power2::lemma_pow2_unfold(64);
    assert(pow2(63) * 2 == pow2(64));
    let k = pow2((64 - n) as nat) as int;
    lemma_pow2_pos((64 - n) as nat);
    assert(h * k == pow2(63) as int);
    assert(h <= pow2(63)) by (nonlinear_arith)
        requires h * k == pow2(63) as int, k >= 1, h >= 1;
    if -h <= v < h {
        vstd::arithmetic::div_mod::lemma_small_mod((v + h) as nat, (2 * h) as nat);
    }
    let q = (v + h) / (2 * h);
    vstd::arithmetic::div_mod::lemma_fundamental_div_mod(v + h, 2 * h);
    assert(v - wrap_signed(v, n) == (2 * h) * q);
    lemma_mod_multiples_vanish(q, 0, 2 * h);
}

impl<const N: usize> Integer<N> {
    /// Every integer holds a value of its width, and its width is one this type supports.
    #[verifier::type_invariant]
    spec fn inv(self) -> bool {
        &&& Self::valid_width()
        &&& -half_range(N as nat) <= self.value < half_range(N as nat)
    }

    /// The width of this integer type, in bits.
    pub open spec fn width() -> nat {
        N as nat
    }

    /// Whether `N` is a width this type supports: 1 to 63 bits.
    pub open spec fn valid_width() -> bool {
        1 <= N <= 63
    }

    /// The value held.
    pub closed spec fn val(self) -> int {
        self.value as int
    }

    /// Whether an operation that produced this integer overflowed.
    pub closed spec fn ovf(self) -> bool {
        self.overflow
    }

    /// Whether an operation that produced this integer underflowed.
    pub closed spec fn unf(self) -> bool {
        self.underflow
    }

    /// The first value too large for `N` bit signed integers, `2^(N-1)`: a result from it on counts
    /// as overflowed.
    pub open spec fn spec_max() -> int {
        half_range(N as nat)
    }

    /// The limit below which a result counts as underflowed, `-2^(N-1)`.
    pub open spec fn spec_min() -> int {
        -half_range(N as nat)
    }

    /// Whether the value held lies in the range of `N` bit signed integers.
    pub open spec fn in_range(self) -> bool {
        -half_range(N as nat) <= self.val() < half_range(N as nat)
    }

    /// The integer that holds `v` reduced to `N` bits, with the given flags.
    pub closed spec fn make(v: int, overflow: bool, underflow: bool) -> Self {
        Integer { value: wrap_signed(v, N as nat) as i64, overflow, underflow }
    }

    pub proof fn lemma_make(v: int, overflow: bool, underflow: bool)
        requires
            Self::valid_width(),
        ensures
            Self::make(v, overflow, underflow).val() == wrap_signed(v, N as nat),
            Self::make(v, overflow, underflow).ovf() == overflow,
            Self::make(v, overflow, underflow).unf() == underflow,
            Self::make(v, overflow, underflow).in_range(),
    {
        lemma_wrap_signed(v, N as nat);
    }

    /// `2^(N-1)`, as an `i64`.
    fn max_value() -> (r: i64)
        requires
            Self::valid_width(),
        ensures
            r == Self::spec_max(),
            0 < r <= 0x4000_0000_0000_0000,
    {
        proof {
            lemma2_to64();
            vstd::bits::lemma_u64_pow2_no_overflow((N - 1) as nat);
            lemma_u64_shl_is_mul(1, (N - 1) as u64);
            lemma_pow2_adds((N - 1) as nat, (63 - N) as nat);
            lemma_pow2_pos((63 - N) as nat);
            lemma_pow2_adds(62, 2);
            assert(pow2(62) == 0x4000_0000_0000_0000);
            assert(pow2((N - 1) as nat) <= pow2(62)) by (nonlinear_arith)
                requires pow2((N - 1) as nat) * pow2((63 - N) as nat) == pow2(62),
                    pow2((63 - N) as nat) >= 1;
        }
        (1u64 << ((N - 1) as u64)) as i64
    }

    /// Sign extends the value from bit `N - 1`, keeping the flags.
    fn ensure_sign(value: i64, overflow: bool, underflow: bool) -> (r: Self)
        requires
            Self::valid_width(),
        ensures
            r == Self::make(value as int, overflow, underflow),
    {
        proof {
            lemma_wrap_signed(value as int, N as nat);
            lemma2_to64();
            vstd::bits::lemma_u64_pow2_no_overflow((N - 1) as nat);
            lemma_u64_shl_is_mul(1, (N - 1) as u64);
        }
        let half: u64 = 1u64 << ((N - 1) as u64);
        assert(half == half_range(N as nat));
        let full: u128 = (half as u128) * 2;
        let shifted: u128 = (value as i128 + 0x1_0000_0000_0000_0000i128 + half as i128) as u128;
        let reduced: u128 = shifted % full;
        proof {
            let h = half as int;
            let k = pow2((64 - N) as nat) as int;
            lemma_pow2_adds((N - 1) as nat, (64 - N) as nat);
            vstd::arithmetic::power2::lemma_pow2_unfold(64);
            assert(pow2(64) == 2 * pow2(63));
            assert((2 * h) * k == 2 * (h * k)) by (nonlinear_arith);
            assert(0x1_0000_0000_0000_0000int == (2 * h) * k);
            lemma_mod_multiples_vanish(k, value as int + h, 2 * h);
            assert(shifted as int == (2 * h) * k + (value as int + h));
        }
        let wrapped: i64 = (reduced as i128 - half as i128) as i64;
        Self { value: wrapped, overflow, underflow }
    }

    /// Creates an integer holding `value` reduced to `N` bits, with no flag raised.
    #[inline(always)]
    pub fn new(value: i64) -> (r: Self)
        requires
            Self::valid_width(),
        ensures
            r == Self::make(value as int, false, false),
            r.val() == wrap_signed(value as int, N as nat),
            !r.ovf(),
            !r.unf(),
    {
        proof {
            Self::lemma_make(value as int, false, false);
        }
        Self::ensure_sign(value, false, false)
    }

    /// Returns the value held.
    #[inline(always)]
    pub fn value(&self) -> (r: i64)
        ensures
            r == self.val(),
    {
        self.value
    }

    /// Has any operation overflowed the value?
    #[inline(always)]
    pub fn overflowed(&self) -> (r: bool)
        ensures
            r == self.ovf(),
    {
        self.overflow
    }

    /// Has any operation underflowed the value?
    #[inline(always)]
    pub fn underflowed(&self) -> (r: bool)
        ensures
            r == self.unf(),
    {
        self.underflow
    }

    /// Returns the same value with both flags cleared.
    #[inline(always)]
    pub fn clean(&self) -> (r: Self)
        ensures
            r.val() == self.val(),
            !r.ovf(),
            !r.unf(),
    {
        proof {
            use_type_invariant(self);
        }
        Self { value: self.value, overflow: false, underflow: false }
    }

    /// The result of adding `rhs`: the sum reduced to `N` bits, with the flags of both operands
    /// and of this sum.
    pub open spec fn spec_add(self, rhs: Self) -> Self {
        let sum = self.val() + rhs.val();
        Self::make(
            sum,
            self.ovf() || rhs.ovf() || sum >= Self::spec_max(),
            self.unf() || rhs.unf() || sum < Self::spec_min(),
        )
    }

    /// The result of subtracting `rhs`: the difference reduced to `N` bits, with the flags of both
    /// operands and of this difference.
    pub open spec fn spec_sub(self, rhs: Self) -> Self {
        let diff = self.val() - rhs.val();
        Self::make(
            diff,
            self.ovf() || rhs.ovf() || diff >= Self::spec_max(),
            self.unf() || rhs.unf() || diff < Self::spec_min(),
        )
    }

    /// The result of multiplying by `rhs`: the product reduced to `N` bits, with the flags of both
    /// operands (a product raises no flag of its own).
    pub open spec fn spec_mul(self, rhs: Self) -> Self {
        Self::make(self.val() * rhs.val(), self.ovf() || rhs.ovf(), self.unf() || rhs.unf())
    }
}


impl<const N: usize> vstd::std_specs::ops::AddSpecImpl for Integer<N> {
    open spec fn obeys_add_spec() -> bool {
        true
    }

    open spec fn add_req(self, rhs: Self) -> bool {
        true
    }

    open spec fn add_spec(self, rhs: Self) -> Self {
        self.spec_add(rhs)
    }
}

impl<const N: usize> std::ops::Add for Integer<N> {
    type Output = Self;

    #[inline(always)]
    fn add(self, rhs: Self) -> (r: Self) {
        proof {
            use_type_invariant(&self);
            use_type_invariant(&rhs);
            lemma_half_range_bound(N as nat);
        }
        let sum = self.value + rhs.value;
        let max = Self::max_value();
        let overflow = sum >= max;
        let underflow = sum < -max;

        Self::ensure_sign(
            sum,
            self.overflow || rhs.overflow || overflow,
            self.underflow || rhs.underflow || underflow,
        )
    }
}

impl<const N: usize> vstd::std_specs::ops::SubSpecImpl for Integer<N> {
    open spec fn obeys_sub_spec() -> bool {
        true
    }

    open spec fn sub_req(self, rhs: Self) -> bool {
        true
    }

    open spec fn sub_spec(self, rhs: Self) -> Self {
        self.spec_sub(rhs)
    }
}

impl<const N: usize> std::ops::Sub for Integer<N> {
    type Output = Self;

    #[inline(always)]
    fn sub(self, rhs: Self) -> (r: Self) {
        proof {
            use_type_invariant(&self);
            use_type_invariant(&rhs);
            lemma_half_range_bound(N as nat);
        }
        let diff = self.value - rhs.value;
        let max = Self::max_value();
        let overflow = diff >= max;
        let underflow = diff < -max;

        Self::ensure_sign(
            diff,
            self.overflow || rhs.overflow || overflow,
            self.underflow || rhs.underflow || underflow,
        )
    }
}

impl<const N: usize> vstd::std_specs::ops::MulSpecImpl for Integer<N> {
    open spec fn obeys_mul_spec() -> bool {
        true
    }

    open spec fn mul_req(self, rhs: Self) -> bool {
        i64::MIN <= self.val() * rhs.val() <= i64::MAX
    }

    open spec fn mul_spec(self, rhs: Self) -> Self {
        self.spec_mul(rhs)
    }
}

impl<const N: usize> std::ops::Mul for Integer<N> {
    type Output = Self;

    #[inline(always)]
    fn mul(self, rhs: Self) -> (r: Self) {
        proof {
            use_type_invariant(&self);
        }
        let prod = self.value * rhs.value;

        Self::ensure_sign(prod, self.overflow || rhs.overflow, self.underflow || rhs.underflow)
    }
}

} // verus!
