//! The operators of the unsigned integers: bitwise, shifts, and the
//! arithmetic that must not overflow.
use crate::bits::lemma_unsigned_ops_fit;
use crate::math::{
    fits_unsigned,
    lemma_complement_narrow,
    lemma_pow2_split,
    lemma_wrap_unsigned_fits,
    lemma_wrap_unsigned_narrow,
    wrap_unsigned,
};
use crate::shift::ShiftAmount;
use crate::storage::UnsignedStorage;
use crate::unsigned::Unsigned;
use core::ops::{
    Add,
    BitAnd,
    BitAndAssign,
    BitOr,
    BitOrAssign,
    BitXor,
    BitXorAssign,
    Not,
    Shl,
    ShlAssign,
    Shr,
    ShrAssign,
    Sub,
};
use vstd::arithmetic::div_mod::{lemma_div_nonincreasing, lemma_div_pos_is_pos};
use vstd::arithmetic::power2::{lemma_pow2_pos, pow2};
use vstd::prelude::*;
use vstd::std_specs::ops::{BitAndSpec, BitOrSpec, BitXorSpec, ShlSpec, ShrSpec};

verus! {

impl<const N: usize, T: UnsignedStorage> Unsigned<N, T> {
    /// The integers of two values as 128-bit words, which hold them, and the
    /// storage words of the canonical values.
    proof fn lemma_operands(self, rhs: Self)
        requires
            Self::valid_width(),
        ensures
            fits_unsigned(self@, N as nat),
            fits_unsigned(rhs@, N as nat),
            self@ as u128 == self@,
            rhs@ as u128 == rhs@,
            fits_unsigned((self@ as u128 & rhs@ as u128) as int, N as nat),
            fits_unsigned((self@ as u128 | rhs@ as u128) as int, N as nat),
            fits_unsigned((self@ as u128 ^ rhs@ as u128) as int, N as nat),
    {
        Self::lemma_view_fits(self);
        Self::lemma_view_fits(rhs);
        T::lemma_storage(self.storage());
        lemma_pow2_split(N as nat, 128);
        crate::math::lemma_pow2_widths();
        lemma_unsigned_ops_fit(self@ as u128, rhs@ as u128, N as nat);
    }

    /// A storage word whose number fits `N` bits is the storage of the
    /// canonical value of that number.
    proof fn lemma_result(r: Self, v: int)
        requires
            r.storage().as_int() == v,
            fits_unsigned(v, N as nat),
        ensures
            r == Self::canonical(v),
            r.is_canonical(),
            r@ == v,
    {
        T::lemma_storage(r.storage());
        Self::lemma_storage_determines(r);
        lemma_wrap_unsigned_fits(v, N as nat);
    }
}

impl<const N: usize, T: UnsignedStorage> vstd::std_specs::ops::BitAndSpecImpl<Unsigned<N, T>>
    for Unsigned<N, T>
{
    open spec fn obeys_bitand_spec() -> bool {
        true
    }

    open spec fn bitand_req(self, rhs: Unsigned<N, T>) -> bool {
        true
    }

    /// The bits that both values have set.
    open spec fn bitand_spec(self, rhs: Unsigned<N, T>) -> Unsigned<N, T> {
        Self::canonical((self@ as u128 & rhs@ as u128) as int)
    }
}

impl<const N: usize, T: UnsignedStorage> BitAnd<Unsigned<N, T>> for Unsigned<N, T> {
    type Output = Unsigned<N, T>;

    /// The bits that both values have set.
    fn bitand(self, rhs: Unsigned<N, T>) -> (r: Unsigned<N, T>)
        ensures
            r.is_canonical(),
            r@ == self@ as u128 & rhs@ as u128,
    {
        proof {
            use_type_invariant(self);
            self.lemma_operands(rhs);
        }
        let r = Self::new_unchecked(self.mask().storage().bit_and(rhs.mask().storage()));
        proof {
            Self::lemma_result(r, (self@ as u128 & rhs@ as u128) as int);
        }
        r
    }
}

impl<'a, const N: usize, T: UnsignedStorage> vstd::std_specs::ops::BitAndSpecImpl<&'a Unsigned<N, T>>
    for Unsigned<N, T>
{
    open spec fn obeys_bitand_spec() -> bool {
        true
    }

    open spec fn bitand_req(self, rhs: &'a Unsigned<N, T>) -> bool {
        true
    }

    open spec fn bitand_spec(self, rhs: &'a Unsigned<N, T>) -> Unsigned<N, T> {
        Self::canonical((self@ as u128 & rhs@ as u128) as int)
    }
}

impl<'a, const N: usize, T: UnsignedStorage> BitAnd<&'a Unsigned<N, T>> for Unsigned<N, T> {
    type Output = Unsigned<N, T>;

    fn bitand(self, rhs: &'a Unsigned<N, T>) -> (r: Unsigned<N, T>)
        ensures
            r.is_canonical(),
            r@ == self@ as u128 & rhs@ as u128,
    {
        self & *rhs
    }
}

impl<'a, const N: usize, T: UnsignedStorage> vstd::std_specs::ops::BitAndSpecImpl<Unsigned<N, T>>
    for &'a Unsigned<N, T>
{
    open spec fn obeys_bitand_spec() -> bool {
        true
    }

    open spec fn bitand_req(self, rhs: Unsigned<N, T>) -> bool {
        true
    }

    open spec fn bitand_spec(self, rhs: Unsigned<N, T>) -> Unsigned<N, T> {
        Unsigned::<N, T>::canonical((self@ as u128 & rhs@ as u128) as int)
    }
}

impl<'a, const N: usize, T: UnsignedStorage> BitAnd<Unsigned<N, T>> for &'a Unsigned<N, T> {
    type Output = Unsigned<N, T>;

    fn bitand(self, rhs: Unsigned<N, T>) -> (r: Unsigned<N, T>)
        ensures
            r.is_canonical(),
            r@ == self@ as u128 & rhs@ as u128,
    {
        *self & rhs
    }
}

impl<'a, const N: usize, T: UnsignedStorage> vstd::std_specs::ops::BitAndSpecImpl<&'a Unsigned<N, T>>
    for &'a Unsigned<N, T>
{
    open spec fn obeys_bitand_spec() -> bool {
        true
    }

    open spec fn bitand_req(self, rhs: &'a Unsigned<N, T>) -> bool {
        true
    }

    open spec fn bitand_spec(self, rhs: &'a Unsigned<N, T>) -> Unsigned<N, T> {
        Unsigned::<N, T>::canonical((self@ as u128 & rhs@ as u128) as int)
    }
}

impl<'a, const N: usize, T: UnsignedStorage> BitAnd<&'a Unsigned<N, T>> for &'a Unsigned<N, T> {
    type Output = Unsigned<N, T>;

    fn bitand(self, rhs: &'a Unsigned<N, T>) -> (r: Unsigned<N, T>)
        ensures
            r.is_canonical(),
            r@ == self@ as u128 & rhs@ as u128,
    {
        *self & *rhs
    }
}

impl<const N: usize, T: UnsignedStorage> BitAndAssign<Unsigned<N, T>> for Unsigned<N, T> {
    fn bitand_assign(&mut self, other: Unsigned<N, T>)
        ensures
            *final(self) == old(self).bitand_spec(other),
            final(self).is_canonical(),
            final(self)@ == old(self)@ as u128 & other@ as u128,
    {
        *self = *self & other;
    }
}

impl<const N: usize, T: UnsignedStorage> vstd::std_specs::ops::BitOrSpecImpl<Unsigned<N, T>>
    for Unsigned<N, T>
{
    open spec fn obeys_bitor_spec() -> bool {
        true
    }

    open spec fn bitor_req(self, rhs: Unsigned<N, T>) -> bool {
        true
    }

    /// The bits that either value has set.
    open spec fn bitor_spec(self, rhs: Unsigned<N, T>) -> Unsigned<N, T> {
        Self::canonical((self@ as u128 | rhs@ as u128) as int)
    }
}

impl<const N: usize, T: UnsignedStorage> BitOr<Unsigned<N, T>> for Unsigned<N, T> {
    type Output = Unsigned<N, T>;

    /// The bits that either value has set.
    fn bitor(self, rhs: Unsigned<N, T>) -> (r: Unsigned<N, T>)
        ensures
            r.is_canonical(),
            r@ == self@ as u128 | rhs@ as u128,
    {
        proof {
            use_type_invariant(self);
            self.lemma_operands(rhs);
        }
        let r = Self::new_unchecked(self.mask().storage().bit_or(rhs.mask().storage()));
        proof {
            Self::lemma_result(r, (self@ as u128 | rhs@ as u128) as int);
        }
        r
    }
}

impl<'a, const N: usize, T: UnsignedStorage> vstd::std_specs::ops::BitOrSpecImpl<&'a Unsigned<N, T>>
    for Unsigned<N, T>
{
    open spec fn obeys_bitor_spec() -> bool {
        true
    }

    open spec fn bitor_req(self, rhs: &'a Unsigned<N, T>) -> bool {
        true
    }

    open spec fn bitor_spec(self, rhs: &'a Unsigned<N, T>) -> Unsigned<N, T> {
        Self::canonical((self@ as u128 | rhs@ as u128) as int)
    }
}

impl<'a, const N: usize, T: UnsignedStorage> BitOr<&'a Unsigned<N, T>> for Unsigned<N, T> {
    type Output = Unsigned<N, T>;

    fn bitor(self, rhs: &'a Unsigned<N, T>) -> (r: Unsigned<N, T>)
        ensures
            r.is_canonical(),
            r@ == self@ as u128 | rhs@ as u128,
    {
        self | *rhs
    }
}

impl<'a, const N: usize, T: UnsignedStorage> vstd::std_specs::ops::BitOrSpecImpl<Unsigned<N, T>>
    for &'a Unsigned<N, T>
{
    open spec fn obeys_bitor_spec() -> bool {
        true
    }

    open spec fn bitor_req(self, rhs: Unsigned<N, T>) -> bool {
        true
    }

    open spec fn bitor_spec(self, rhs: Unsigned<N, T>) -> Unsigned<N, T> {
        Unsigned::<N, T>::canonical((self@ as u128 | rhs@ as u128) as int)
    }
}

impl<'a, const N: usize, T: UnsignedStorage> BitOr<Unsigned<N, T>> for &'a Unsigned<N, T> {
    type Output = Unsigned<N, T>;

    fn bitor(self, rhs: Unsigned<N, T>) -> (r: Unsigned<N, T>)
        ensures
            r.is_canonical(),
            r@ == self@ as u128 | rhs@ as u128,
    {
        *self | rhs
    }
}

impl<'a, const N: usize, T: UnsignedStorage> vstd::std_specs::ops::BitOrSpecImpl<&'a Unsigned<N, T>>
    for &'a Unsigned<N, T>
{
    open spec fn obeys_bitor_spec() -> bool {
        true
    }

    open spec fn bitor_req(self, rhs: &'a Unsigned<N, T>) -> bool {
        true
    }

    open spec fn bitor_spec(self, rhs: &'a Unsigned<N, T>) -> Unsigned<N, T> {
        Unsigned::<N, T>::canonical((self@ as u128 | rhs@ as u128) as int)
    }
}

impl<'a, const N: usize, T: UnsignedStorage> BitOr<&'a Unsigned<N, T>> for &'a Unsigned<N, T> {
    type Output = Unsigned<N, T>;

    fn bitor(self, rhs: &'a Unsigned<N, T>) -> (r: Unsigned<N, T>)
        ensures
            r.is_canonical(),
            r@ == self@ as u128 | rhs@ as u128,
    {
        *self | *rhs
    }
}

impl<const N: usize, T: UnsignedStorage> BitOrAssign<Unsigned<N, T>> for Unsigned<N, T> {
    fn bitor_assign(&mut self, other: Unsigned<N, T>)
        ensures
            *final(self) == old(self).bitor_spec(other),
            final(self).is_canonical(),
            final(self)@ == old(self)@ as u128 | other@ as u128,
    {
        *self = *self | other;
    }
}

impl<const N: usize, T: UnsignedStorage> vstd::std_specs::ops::BitXorSpecImpl<Unsigned<N, T>>
    for Unsigned<N, T>
{
    open spec fn obeys_bitxor_spec() -> bool {
        true
    }

    open spec fn bitxor_req(self, rhs: Unsigned<N, T>) -> bool {
        true
    }

    /// The bits that exactly one of the values has set.
    open spec fn bitxor_spec(self, rhs: Unsigned<N, T>) -> Unsigned<N, T> {
        Self::canonical((self@ as u128 ^ rhs@ as u128) as int)
    }
}

impl<const N: usize, T: UnsignedStorage> BitXor<Unsigned<N, T>> for Unsigned<N, T> {
    type Output = Unsigned<N, T>;

    /// The bits that exactly one of the values has set.
    fn bitxor(self, rhs: Unsigned<N, T>) -> (r: Unsigned<N, T>)
        ensures
            r.is_canonical(),
            r@ == self@ as u128 ^ rhs@ as u128,
    {
        proof {
            use_type_invariant(self);
            self.lemma_operands(rhs);
        }
        let r = Self::new_unchecked(self.mask().storage().bit_xor(rhs.mask().storage()));
        proof {
            Self::lemma_result(r, (self@ as u128 ^ rhs@ as u128) as int);
        }
        r
    }
}

impl<'a, const N: usize, T: UnsignedStorage> vstd::std_specs::ops::BitXorSpecImpl<&'a Unsigned<N, T>>
    for Unsigned<N, T>
{
    open spec fn obeys_bitxor_spec() -> bool {
        true
    }

    open spec fn bitxor_req(self, rhs: &'a Unsigned<N, T>) -> bool {
        true
    }

    open spec fn bitxor_spec(self, rhs: &'a Unsigned<N, T>) -> Unsigned<N, T> {
        Self::canonical((self@ as u128 ^ rhs@ as u128) as int)
    }
}

impl<'a, const N: usize, T: UnsignedStorage> BitXor<&'a Unsigned<N, T>> for Unsigned<N, T> {
    type Output = Unsigned<N, T>;

    fn bitxor(self, rhs: &'a Unsigned<N, T>) -> (r: Unsigned<N, T>)
        ensures
            r.is_canonical(),
            r@ == self@ as u128 ^ rhs@ as u128,
    {
        self ^ *rhs
    }
}

impl<'a, const N: usize, T: UnsignedStorage> vstd::std_specs::ops::BitXorSpecImpl<Unsigned<N, T>>
    for &'a Unsigned<N, T>
{
    open spec fn obeys_bitxor_spec() -> bool {
        true
    }

    open spec fn bitxor_req(self, rhs: Unsigned<N, T>) -> bool {
        true
    }

    open spec fn bitxor_spec(self, rhs: Unsigned<N, T>) -> Unsigned<N, T> {
        Unsigned::<N, T>::canonical((self@ as u128 ^ rhs@ as u128) as int)
    }
}

impl<'a, const N: usize, T: UnsignedStorage> BitXor<Unsigned<N, T>> for &'a Unsigned<N, T> {
    type Output = Unsigned<N, T>;

    fn bitxor(self, rhs: Unsigned<N, T>) -> (r: Unsigned<N, T>)
        ensures
            r.is_canonical(),
            r@ == self@ as u128 ^ rhs@ as u128,
    {
        *self ^ rhs
    }
}

impl<'a, const N: usize, T: UnsignedStorage> vstd::std_specs::ops::BitXorSpecImpl<&'a Unsigned<N, T>>
    for &'a Unsigned<N, T>
{
    open spec fn obeys_bitxor_spec() -> bool {
        true
    }

    open spec fn bitxor_req(self, rhs: &'a Unsigned<N, T>) -> bool {
        true
    }

    open spec fn bitxor_spec(self, rhs: &'a Unsigned<N, T>) -> Unsigned<N, T> {
        Unsigned::<N, T>::canonical((self@ as u128 ^ rhs@ as u128) as int)
    }
}

impl<'a, const N: usize, T: UnsignedStorage> BitXor<&'a Unsigned<N, T>> for &'a Unsigned<N, T> {
    type Output = Unsigned<N, T>;

    fn bitxor(self, rhs: &'a Unsigned<N, T>) -> (r: Unsigned<N, T>)
        ensures
            r.is_canonical(),
            r@ == self@ as u128 ^ rhs@ as u128,
    {
        *self ^ *rhs
    }
}

impl<const N: usize, T: UnsignedStorage> BitXorAssign<Unsigned<N, T>> for Unsigned<N, T> {
    fn bitxor_assign(&mut self, other: Unsigned<N, T>)
        ensures
            *final(self) == old(self).bitxor_spec(other),
            final(self).is_canonical(),
            final(self)@ == old(self)@ as u128 ^ other@ as u128,
    {
        *self = *self ^ other;
    }
}

impl<const N: usize, T: UnsignedStorage> vstd::std_specs::ops::NotSpecImpl for Unsigned<N, T> {
    open spec fn obeys_not_spec() -> bool {
        true
    }

    open spec fn not_req(self) -> bool {
        true
    }

    /// The complement of the low `N` bits: `2^N - 1` less the integer.
    open spec fn not_spec(self) -> Unsigned<N, T> {
        Self::canonical(Self::spec_max() - self@)
    }
}

impl<const N: usize, T: UnsignedStorage> Not for Unsigned<N, T> {
    type Output = Unsigned<N, T>;

    /// The complement of the low `N` bits. The complement of the storage
    /// word sets the bits above, which are cleared again.
    fn not(self) -> (r: Unsigned<N, T>)
        ensures
            r.is_canonical(),
            r@ == Self::spec_max() - self@,
    {
        proof {
            use_type_invariant(self);
            Self::lemma_view_fits(self);
            lemma_complement_narrow(self@, N as nat, T::bits());
            lemma_wrap_unsigned_fits(self@, N as nat);
        }
        Self::truncating_new(self.mask().storage().bit_not())
    }
}

impl<'a, const N: usize, T: UnsignedStorage> vstd::std_specs::ops::NotSpecImpl
    for &'a Unsigned<N, T>
{
    open spec fn obeys_not_spec() -> bool {
        true
    }

    open spec fn not_req(self) -> bool {
        true
    }

    open spec fn not_spec(self) -> Unsigned<N, T> {
        Unsigned::<N, T>::canonical(Unsigned::<N, T>::spec_max() - self@)
    }
}

impl<'a, const N: usize, T: UnsignedStorage> Not for &'a Unsigned<N, T> {
    type Output = Unsigned<N, T>;

    fn not(self) -> (r: Unsigned<N, T>)
        ensures
            r.is_canonical(),
            r@ == Unsigned::<N, T>::spec_max() - self@,
    {
        (*self).not()
    }
}

impl<R: ShiftAmount, const N: usize, T: UnsignedStorage> vstd::std_specs::ops::ShlSpecImpl<R>
    for Unsigned<N, T>
{
    open spec fn obeys_shl_spec() -> bool {
        true
    }

    /// The storage sets the limit of a shift: fewer bits than it has.
    open spec fn shl_req(self, rhs: R) -> bool {
        0 <= rhs.amount() < T::bits()
    }

    /// The integer times `2^rhs`, modulo `2^N`.
    open spec fn shl_spec(self, rhs: R) -> Unsigned<N, T> {
        Self::canonical(wrap_unsigned(self@ * pow2(rhs.amount() as nat), N as nat))
    }
}

impl<R: ShiftAmount, const N: usize, T: UnsignedStorage> Shl<R> for Unsigned<N, T> {
    type Output = Unsigned<N, T>;

    /// Left shift: the bits shifted out above the low `N` are lost.
    fn shl(self, rhs: R) -> (r: Unsigned<N, T>)
        ensures
            r.is_canonical(),
            r@ == wrap_unsigned(self@ * pow2(rhs.amount() as nat), N as nat),
    {
        proof {
            use_type_invariant(self);
            T::lemma_storage(self.storage());
            lemma_wrap_unsigned_narrow(self@ * pow2(rhs.amount() as nat), N as nat, T::bits());
        }
        Self::truncating_new(self.mask().storage().shift_left(rhs.to_u32()))
    }
}

impl<R: ShiftAmount, const N: usize, T: UnsignedStorage> ShlAssign<R> for Unsigned<N, T> {
    fn shl_assign(&mut self, rhs: R)
        requires
            0 <= rhs.amount() < T::bits(),
        ensures
            *final(self) == old(self).shl_spec(rhs),
            final(self).is_canonical(),
            final(self)@ == wrap_unsigned(old(self)@ * pow2(rhs.amount() as nat), N as nat),
    {
        *self = (*self).shl(rhs);
    }
}

impl<R: ShiftAmount, const N: usize, T: UnsignedStorage> vstd::std_specs::ops::ShrSpecImpl<R>
    for Unsigned<N, T>
{
    open spec fn obeys_shr_spec() -> bool {
        true
    }

    /// The storage sets the limit of a shift: fewer bits than it has.
    open spec fn shr_req(self, rhs: R) -> bool {
        0 <= rhs.amount() < T::bits()
    }

    /// The integer divided by `2^rhs`.
    open spec fn shr_spec(self, rhs: R) -> Unsigned<N, T> {
        Self::canonical(self@ / (pow2(rhs.amount() as nat) as int))
    }
}

impl<R: ShiftAmount, const N: usize, T: UnsignedStorage> Shr<R> for Unsigned<N, T> {
    type Output = Unsigned<N, T>;

    /// Right shift: the bits shifted out at the bottom are lost.
    fn shr(self, rhs: R) -> (r: Unsigned<N, T>)
        ensures
            r.is_canonical(),
            r@ == self@ / (pow2(rhs.amount() as nat) as int),
    {
        proof {
            use_type_invariant(self);
            T::lemma_storage(self.storage());
            Self::lemma_view_fits(self);
            let d = pow2(rhs.amount() as nat) as int;
            lemma_pow2_pos(rhs.amount() as nat);
            lemma_div_pos_is_pos(self@, d);
            lemma_div_nonincreasing(self@, d);
            lemma_wrap_unsigned_fits(self@ / d, N as nat);
        }
        Self::truncating_new(self.mask().storage().shift_right(rhs.to_u32()))
    }
}

impl<R: ShiftAmount, const N: usize, T: UnsignedStorage> ShrAssign<R> for Unsigned<N, T> {
    fn shr_assign(&mut self, rhs: R)
        requires
            0 <= rhs.amount() < T::bits(),
        ensures
            *final(self) == old(self).shr_spec(rhs),
            final(self).is_canonical(),
            final(self)@ == old(self)@ / (pow2(rhs.amount() as nat) as int),
    {
        *self = (*self).shr(rhs);
    }
}

impl<const N: usize, T: UnsignedStorage> vstd::std_specs::ops::AddSpecImpl<Unsigned<N, T>>
    for Unsigned<N, T>
{
    open spec fn obeys_add_spec() -> bool {
        true
    }

    /// The sum must not pass the largest value.
    open spec fn add_req(self, rhs: Unsigned<N, T>) -> bool {
        self@ + rhs@ <= Self::spec_max()
    }

    open spec fn add_spec(self, rhs: Unsigned<N, T>) -> Unsigned<N, T> {
        Self::canonical(self@ + rhs@)
    }
}

impl<const N: usize, T: UnsignedStorage> Add<Unsigned<N, T>> for Unsigned<N, T> {
    type Output = Unsigned<N, T>;

    /// Addition that must not overflow: the sum of the integers.
    fn add(self, rhs: Unsigned<N, T>) -> (r: Unsigned<N, T>)
        ensures
            r.is_canonical(),
            r@ == self@ + rhs@,
    {
        proof {
            Self::lemma_view_fits(self);
            Self::lemma_view_fits(rhs);
            lemma_wrap_unsigned_fits(self@ + rhs@, N as nat);
        }
        self.wrapping_add(rhs)
    }
}

impl<const N: usize, T: UnsignedStorage> vstd::std_specs::ops::SubSpecImpl<Unsigned<N, T>>
    for Unsigned<N, T>
{
    open spec fn obeys_sub_spec() -> bool {
        true
    }

    /// The difference must not pass below the smallest value.
    open spec fn sub_req(self, rhs: Unsigned<N, T>) -> bool {
        Self::spec_min() <= self@ - rhs@
    }

    open spec fn sub_spec(self, rhs: Unsigned<N, T>) -> Unsigned<N, T> {
        Self::canonical(self@ - rhs@)
    }
}

impl<const N: usize, T: UnsignedStorage> Sub<Unsigned<N, T>> for Unsigned<N, T> {
    type Output = Unsigned<N, T>;

    /// Subtraction that must not overflow: the difference of the integers.
    fn sub(self, rhs: Unsigned<N, T>) -> (r: Unsigned<N, T>)
        ensures
            r.is_canonical(),
            r@ == self@ - rhs@,
    {
        proof {
            Self::lemma_view_fits(self);
            Self::lemma_view_fits(rhs);
            lemma_wrap_unsigned_fits(self@ - rhs@, N as nat);
        }
        self.wrapping_sub(rhs)
    }
}

} // verus!
