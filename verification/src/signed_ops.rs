//! The operators of the signed integers: bitwise, shifts, and the arithmetic
//! that must not overflow.
use crate::bits::lemma_signed_ops_fit;
use crate::math::{
    fits_signed,
    lemma_div_pow2_fits_signed,
    lemma_wrap_signed_id,
    lemma_wrap_signed_narrow,
    wrap_signed,
};
use crate::shift::ShiftAmount;
use crate::signed::Signed;
use crate::storage::SignedStorage;
use core::ops::{
    Add,
    BitAnd,
    BitAndAssign,
    BitOr,
    BitOrAssign,
    BitXor,
    BitXorAssign,
    Not,
    Shl,
    ShlAssign,
    Shr,
    ShrAssign,
    Sub,
};
use vstd::arithmetic::power2::pow2;
use vstd::prelude::*;
use vstd::std_specs::ops::{BitAndSpec, BitOrSpec, BitXorSpec, ShlSpec, ShrSpec};

verus! {

impl<const N: usize, T: SignedStorage> Signed<N, T> {
    /// The integers of two values as 128-bit words, which hold them, and what
    /// the bitwise operators make of them.
    proof fn lemma_operands(self, rhs: Self)
        requires
            Self::valid_width(),
        ensures
            fits_signed(self@, N as nat),
            fits_signed(rhs@, N as nat),
            self@ as i128 == self@,
            rhs@ as i128 == rhs@,
            fits_signed((self@ as i128 & rhs@ as i128) as int, N as nat),
            fits_signed((self@ as i128 | rhs@ as i128) as int, N as nat),
            fits_signed((self@ as i128 ^ rhs@ as i128) as int, N as nat),
            fits_signed(-1 - self@, N as nat),
    {
        Self::lemma_view_fits(self);
        Self::lemma_view_fits(rhs);
        T::lemma_storage(self.storage());
        Self::lemma_fits_storage(self@);
        Self::lemma_fits_storage(rhs@);
        crate::math::lemma_pow2_split((T::bits() - 1) as nat, 127);
        crate::math::lemma_pow2_widths();
        lemma_signed_ops_fit(self@ as i128, rhs@ as i128, N as nat);
    }

    /// A storage word whose number fits `N` bits is the storage of the
    /// canonical value of that number.
    proof fn lemma_result(r: Self, v: int)
        requires
            Self::valid_width(),
            r.storage().as_int() == v,
            fits_signed(v, N as nat),
        ensures
            r == Self::canonical(v),
            r.is_canonical(),
            r@ == v,
    {
        T::lemma_storage(r.storage());
        Self::lemma_storage_determines(r);
        lemma_wrap_signed_id(v, N as nat);
    }
}

impl<const N: usize, T: SignedStorage> vstd::std_specs::ops::BitAndSpecImpl<Signed<N, T>>
    for Signed<N, T>
{
    open spec fn obeys_bitand_spec() -> bool {
        true
    }

    open spec fn bitand_req(self, rhs: Signed<N, T>) -> bool {
        true
    }

    /// The bits that both values have set.
    open spec fn bitand_spec(self, rhs: Signed<N, T>) -> Signed<N, T> {
        Self::canonical((self@ as i128 & rhs@ as i128) as int)
    }
}

impl<const N: usize, T: SignedStorage> BitAnd<Signed<N, T>> for Signed<N, T> {
    type Output = Signed<N, T>;

    /// The bits that both values have set.
    fn bitand(self, rhs: Signed<N, T>) -> (r: Signed<N, T>)
        ensures
            r.is_canonical(),
            r@ == self@ as i128 & rhs@ as i128,
    {
        proof {
            use_type_invariant(self);
            self.lemma_operands(rhs);
        }
        let r = Self::new_unchecked(self.mask().storage().bit_and(rhs.mask().storage()));
        proof {
            Self::lemma_result(r, (self@ as i128 & rhs@ as i128) as int);
        }
        r
    }
}

impl<'a, const N: usize, T: SignedStorage> vstd::std_specs::ops::BitAndSpecImpl<&'a Signed<N, T>>
    for Signed<N, T>
{
    open spec fn obeys_bitand_spec() -> bool {
        true
    }

    open spec fn bitand_req(self, rhs: &'a Signed<N, T>) -> bool {
        true
    }

    open spec fn bitand_spec(self, rhs: &'a Signed<N, T>) -> Signed<N, T> {
        Self::canonical((self@ as i128 & rhs@ as i128) as int)
    }
}

impl<'a, const N: usize, T: SignedStorage> BitAnd<&'a Signed<N, T>> for Signed<N, T> {
    type Output = Signed<N, T>;

    fn bitand(self, rhs: &'a Signed<N, T>) -> (r: Signed<N, T>)
        ensures
            r.is_canonical(),
            r@ == self@ as i128 & rhs@ as i128,
    {
        self & *rhs
    }
}

impl<'a, const N: usize, T: SignedStorage> vstd::std_specs::ops::BitAndSpecImpl<Signed<N, T>>
    for &'a Signed<N, T>
{
    open spec fn obeys_bitand_spec() -> bool {
        true
    }

    open spec fn bitand_req(self, rhs: Signed<N, T>) -> bool {
        true
    }

    open spec fn bitand_spec(self, rhs: Signed<N, T>) -> Signed<N, T> {
        Signed::<N, T>::canonical((self@ as i128 & rhs@ as i128) as int)
    }
}

impl<'a, const N: usize, T: SignedStorage> BitAnd<Signed<N, T>> for &'a Signed<N, T> {
    type Output = Signed<N, T>;

    fn bitand(self, rhs: Signed<N, T>) -> (r: Signed<N, T>)
        ensures
            r.is_canonical(),
            r@ == self@ as i128 & rhs@ as i128,
    {
        *self & rhs
    }
}

impl<'a, const N: usize, T: SignedStorage> vstd::std_specs::ops::BitAndSpecImpl<&'a Signed<N, T>>
    for &'a Signed<N, T>
{
    open spec fn obeys_bitand_spec() -> bool {
        true
    }

    open spec fn bitand_req(self, rhs: &'a Signed<N, T>) -> bool {
        true
    }

    open spec fn bitand_spec(self, rhs: &'a Signed<N, T>) -> Signed<N, T> {
        Signed::<N, T>::canonical((self@ as i128 & rhs@ as i128) as int)
    }
}

impl<'a, const N: usize, T: SignedStorage> BitAnd<&'a Signed<N, T>> for &'a Signed<N, T> {
    type Output = Signed<N, T>;

    fn bitand(self, rhs: &'a Signed<N, T>) -> (r: Signed<N, T>)
        ensures
            r.is_canonical(),
            r@ == self@ as i128 & rhs@ as i128,
    {
        *self & *rhs
    }
}

impl<const N: usize, T: SignedStorage> BitAndAssign<Signed<N, T>> for Signed<N, T> {
    fn bitand_assign(&mut self, other: Signed<N, T>)
        ensures
            *final(self) == old(self).bitand_spec(other),
            final(self).is_canonical(),
            final(self)@ == old(self)@ as i128 & other@ as i128,
    {
        *self = *self & other;
    }
}

impl<const N: usize, T: SignedStorage> vstd::std_specs::ops::BitOrSpecImpl<Signed<N, T>>
    for Signed<N, T>
{
    open spec fn obeys_bitor_spec() -> bool {
        true
    }

    open spec fn bitor_req(self, rhs: Signed<N, T>) -> bool {
        true
    }

    /// The bits that either value has set.
    open spec fn bitor_spec(self, rhs: Signed<N, T>) -> Signed<N, T> {
        Self::canonical((self@ as i128 | rhs@ as i128) as int)
    }
}

impl<const N: usize, T: SignedStorage> BitOr<Signed<N, T>> for Signed<N, T> {
    type Output = Signed<N, T>;

    /// The bits that either value has set.
    fn bitor(self, rhs: Signed<N, T>) -> (r: Signed<N, T>)
        ensures
            r.is_canonical(),
            r@ == self@ as i128 | rhs@ as i128,
    {
        proof {
            use_type_invariant(self);
            self.lemma_operands(rhs);
        }
        let r = Self::new_unchecked(self.mask().storage().bit_or(rhs.mask().storage()));
        proof {
            Self::lemma_result(r, (self@ as i128 | rhs@ as i128) as int);
        }
        r
    }
}

impl<'a, const N: usize, T: SignedStorage> vstd::std_specs::ops::BitOrSpecImpl<&'a Signed<N, T>>
    for Signed<N, T>
{
    open spec fn obeys_bitor_spec() -> bool {
        true
    }

    open spec fn bitor_req(self, rhs: &'a Signed<N, T>) -> bool {
        true
    }

    open spec fn bitor_spec(self, rhs: &'a Signed<N, T>) -> Signed<N, T> {
        Self::canonical((self@ as i128 | rhs@ as i128) as int)
    }
}

impl<'a, const N: usize, T: SignedStorage> BitOr<&'a Signed<N, T>> for Signed<N, T> {
    type Output = Signed<N, T>;

    fn bitor(self, rhs: &'a Signed<N, T>) -> (r: Signed<N, T>)
        ensures
            r.is_canonical(),
            r@ == self@ as i128 | rhs@ as i128,
    {
        self | *rhs
    }
}

impl<'a, const N: usize, T: SignedStorage> vstd::std_specs::ops::BitOrSpecImpl<Signed<N, T>>
    for &'a Signed<N, T>
{
    open spec fn obeys_bitor_spec() -> bool {
        true
    }

    open spec fn bitor_req(self, rhs: Signed<N, T>) -> bool {
        true
    }

    open spec fn bitor_spec(self, rhs: Signed<N, T>) -> Signed<N, T> {
        Signed::<N, T>::canonical((self@ as i128 | rhs@ as i128) as int)
    }
}

impl<'a, const N: usize, T: SignedStorage> BitOr<Signed<N, T>> for &'a Signed<N, T> {
    type Output = Signed<N, T>;

    fn bitor(self, rhs: Signed<N, T>) -> (r: Signed<N, T>)
        ensures
            r.is_canonical(),
            r@ == self@ as i128 | rhs@ as i128,
    {
        *self | rhs
    }
}

impl<'a, const N: usize, T: SignedStorage> vstd::std_specs::ops::BitOrSpecImpl<&'a Signed<N, T>>
    for &'a Signed<N, T>
{
    open spec fn obeys_bitor_spec() -> bool {
        true
    }

    open spec fn bitor_req(self, rhs: &'a Signed<N, T>) -> bool {
        true
    }

    open spec fn bitor_spec(self, rhs: &'a Signed<N, T>) -> Signed<N, T> {
        Signed::<N, T>::canonical((self@ as i128 | rhs@ as i128) as int)
    }
}

impl<'a, const N: usize, T: SignedStorage> BitOr<&'a Signed<N, T>> for &'a Signed<N, T> {
    type Output = Signed<N, T>;

    fn bitor(self, rhs: &'a Signed<N, T>) -> (r: Signed<N, T>)
        ensures
            r.is_canonical(),
            r@ == self@ as i128 | rhs@ as i128,
    {
        *self | *rhs
    }
}

impl<const N: usize, T: SignedStorage> BitOrAssign<Signed<N, T>> for Signed<N, T> {
    fn bitor_assign(&mut self, other: Signed<N, T>)
        ensures
            *final(self) == old(self).bitor_spec(other),
            final(self).is_canonical(),
            final(self)@ == old(self)@ as i128 | other@ as i128,
    {
        *self = *self | other;
    }
}

impl<const N: usize, T: SignedStorage> vstd::std_specs::ops::BitXorSpecImpl<Signed<N, T>>
    for Signed<N, T>
{
    open spec fn obeys_bitxor_spec() -> bool {
        true
    }

    open spec fn bitxor_req(self, rhs: Signed<N, T>) -> bool {
        true
    }

    /// The bits that exactly one of the values has set.
    open spec fn bitxor_spec(self, rhs: Signed<N, T>) -> Signed<N, T> {
        Self::canonical((self@ as i128 ^ rhs@ as i128) as int)
    }
}

impl<const N: usize, T: SignedStorage> BitXor<Signed<N, T>> for Signed<N, T> {
    type Output = Signed<N, T>;

    /// The bits that exactly one of the values has set.
    fn bitxor(self, rhs: Signed<N, T>) -> (r: Signed<N, T>)
        ensures
            r.is_canonical(),
            r@ == self@ as i128 ^ rhs@ as i128,
    {
        proof {
            use_type_invariant(self);
            self.lemma_operands(rhs);
        }
        let r = Self::new_unchecked(self.mask().storage().bit_xor(rhs.mask().storage()));
        proof {
            Self::lemma_result(r, (self@ as i128 ^ rhs@ as i128) as int);
        }
        r
    }
}

impl<'a, const N: usize, T: SignedStorage> vstd::std_specs::ops::BitXorSpecImpl<&'a Signed<N, T>>
    for Signed<N, T>
{
    open spec fn obeys_bitxor_spec() -> bool {
        true
    }

    open spec fn bitxor_req(self, rhs: &'a Signed<N, T>) -> bool {
        true
    }

    open spec fn bitxor_spec(self, rhs: &'a Signed<N, T>) -> Signed<N, T> {
        Self::canonical((self@ as i128 ^ rhs@ as i128) as int)
    }
}

impl<'a, const N: usize, T: SignedStorage> BitXor<&'a Signed<N, T>> for Signed<N, T> {
    type Output = Signed<N, T>;

    fn bitxor(self, rhs: &'a Signed<N, T>) -> (r: Signed<N, T>)
        ensures
            r.is_canonical(),
            r@ == self@ as i128 ^ rhs@ as i128,
    {
        self ^ *rhs
    }
}

impl<'a, const N: usize, T: SignedStorage> vstd::std_specs::ops::BitXorSpecImpl<Signed<N, T>>
    for &'a Signed<N, T>
{
    open spec fn obeys_bitxor_spec() -> bool {
        true
    }

    open spec fn bitxor_req(self, rhs: Signed<N, T>) -> bool {
        true
    }

    open spec fn bitxor_spec(self, rhs: Signed<N, T>) -> Signed<N, T> {
        Signed::<N, T>::canonical((self@ as i128 ^ rhs@ as i128) as int)
    }
}

impl<'a, const N: usize, T: SignedStorage> BitXor<Signed<N, T>> for &'a Signed<N, T> {
    type Output = Signed<N, T>;

    fn bitxor(self, rhs: Signed<N, T>) -> (r: Signed<N, T>)
        ensures
            r.is_canonical(),
            r@ == self@ as i128 ^ rhs@ as i128,
    {
        *self ^ rhs
    }
}

impl<'a, const N: usize, T: SignedStorage> vstd::std_specs::ops::BitXorSpecImpl<&'a Signed<N, T>>
    for &'a Signed<N, T>
{
    open spec fn obeys_bitxor_spec() -> bool {
        true
    }

    open spec fn bitxor_req(self, rhs: &'a Signed<N, T>) -> bool {
        true
    }

    open spec fn bitxor_spec(self, rhs: &'a Signed<N, T>) -> Signed<N, T> {
        Signed::<N, T>::canonical((self@ as i128 ^ rhs@ as i128) as int)
    }
}

impl<'a, const N: usize, T: SignedStorage> BitXor<&'a Signed<N, T>> for &'a Signed<N, T> {
    type Output = Signed<N, T>;

    fn bitxor(self, rhs: &'a Signed<N, T>) -> (r: Signed<N, T>)
        ensures
            r.is_canonical(),
            r@ == self@ as i128 ^ rhs@ as i128,
    {
        *self ^ *rhs
    }
}

impl<const N: usize, T: SignedStorage> BitXorAssign<Signed<N, T>> for Signed<N, T> {
    fn bitxor_assign(&mut self, other: Signed<N, T>)
        ensures
            *final(self) == old(self).bitxor_spec(other),
            final(self).is_canonical(),
            final(self)@ == old(self)@ as i128 ^ other@ as i128,
    {
        *self = *self ^ other;
    }
}

impl<const N: usize, T: SignedStorage> vstd::std_specs::ops::NotSpecImpl for Signed<N, T> {
    open spec fn obeys_not_spec() -> bool {
        true
    }

    open spec fn not_req(self) -> bool {
        true
    }

    /// The complement of the bits: `-1` less the integer.
    open spec fn not_spec(self) -> Signed<N, T> {
        Self::canonical(-1 - self@)
    }
}

impl<const N: usize, T: SignedStorage> Not for Signed<N, T> {
    type Output = Signed<N, T>;

    /// The complement of the bits, which turns the sign with them.
    fn not(self) -> (r: Signed<N, T>)
        ensures
            r.is_canonical(),
            r@ == -1 - self@,
    {
        proof {
            use_type_invariant(self);
            self.lemma_operands(self);
            lemma_wrap_signed_id(-1 - self@, N as nat);
        }
        Self::truncating_new(self.mask().storage().bit_not())
    }
}

impl<'a, const N: usize, T: SignedStorage> vstd::std_specs::ops::NotSpecImpl for &'a Signed<N, T> {
    open spec fn obeys_not_spec() -> bool {
        true
    }

    open spec fn not_req(self) -> bool {
        true
    }

    open spec fn not_spec(self) -> Signed<N, T> {
        Signed::<N, T>::canonical(-1 - self@)
    }
}

impl<'a, const N: usize, T: SignedStorage> Not for &'a Signed<N, T> {
    type Output = Signed<N, T>;

    fn not(self) -> (r: Signed<N, T>)
        ensures
            r.is_canonical(),
            r@ == -1 - self@,
    {
        (*self).not()
    }
}

impl<R: ShiftAmount, const N: usize, T: SignedStorage> vstd::std_specs::ops::ShlSpecImpl<R>
    for Signed<N, T>
{
    open spec fn obeys_shl_spec() -> bool {
        true
    }

    /// The storage sets the limit of a shift: fewer bits than it has.
    open spec fn shl_req(self, rhs: R) -> bool {
        0 <= rhs.amount() < T::bits()
    }

    /// The integer times `2^rhs`, reduced to `N` bits in two's complement.
    open spec fn shl_spec(self, rhs: R) -> Signed<N, T> {
        Self::canonical(wrap_signed(self@ * pow2(rhs.amount() as nat), N as nat))
    }
}

impl<R: ShiftAmount, const N: usize, T: SignedStorage> Shl<R> for Signed<N, T> {
    type Output = Signed<N, T>;

    /// Left shift: the bits shifted out above the low `N` are lost, and bit
    /// `N - 1` of what remains is the sign.
    fn shl(self, rhs: R) -> (r: Signed<N, T>)
        ensures
            r.is_canonical(),
            r@ == wrap_signed(self@ * pow2(rhs.amount() as nat), N as nat),
    {
        proof {
            use_type_invariant(self);
            T::lemma_storage(self.storage());
            lemma_wrap_signed_narrow(self@ * pow2(rhs.amount() as nat), N as nat, T::bits());
        }
        Self::truncating_new(self.mask().storage().shift_left(rhs.to_u32()))
    }
}

impl<R: ShiftAmount, const N: usize, T: SignedStorage> ShlAssign<R> for Signed<N, T> {
    fn shl_assign(&mut self, rhs: R)
        requires
            0 <= rhs.amount() < T::bits(),
        ensures
            *final(self) == old(self).shl_spec(rhs),
            final(self).is_canonical(),
            final(self)@ == wrap_signed(old(self)@ * pow2(rhs.amount() as nat), N as nat),
    {
        *self = (*self).shl(rhs);
    }
}

impl<R: ShiftAmount, const N: usize, T: SignedStorage> vstd::std_specs::ops::ShrSpecImpl<R>
    for Signed<N, T>
{
    open spec fn obeys_shr_spec() -> bool {
        true
    }

    /// The storage sets the limit of a shift: fewer bits than it has.
    open spec fn shr_req(self, rhs: R) -> bool {
        0 <= rhs.amount() < T::bits()
    }

    /// The integer divided by `2^rhs`, rounded down.
    open spec fn shr_spec(self, rhs: R) -> Signed<N, T> {
        Self::canonical(self@ / (pow2(rhs.amount() as nat) as int))
    }
}

impl<R: ShiftAmount, const N: usize, T: SignedStorage> Shr<R> for Signed<N, T> {
    type Output = Signed<N, T>;

    /// Arithmetic right shift: the sign fills the bits that come free.
    fn shr(self, rhs: R) -> (r: Signed<N, T>)
        ensures
            r.is_canonical(),
            r@ == self@ / (pow2(rhs.amount() as nat) as int),
    {
        proof {
            use_type_invariant(self);
            T::lemma_storage(self.storage());
            Self::lemma_view_fits(self);
            let d = pow2(rhs.amount() as nat) as int;
            lemma_div_pow2_fits_signed(self@, rhs.amount() as nat, N as nat);
            lemma_wrap_signed_id(self@ / d, N as nat);
        }
        Self::truncating_new(self.mask().storage().shift_right(rhs.to_u32()))
    }
}

impl<R: ShiftAmount, const N: usize, T: SignedStorage> ShrAssign<R> for Signed<N, T> {
    fn shr_assign(&mut self, rhs: R)
        requires
            0 <= rhs.amount() < T::bits(),
        ensures
            *final(self) == old(self).shr_spec(rhs),
            final(self).is_canonical(),
            final(self)@ == old(self)@ / (pow2(rhs.amount() as nat) as int),
    {
        *self = (*self).shr(rhs);
    }
}

impl<const N: usize, T: SignedStorage> vstd::std_specs::ops::AddSpecImpl<Signed<N, T>>
    for Signed<N, T>
{
    open spec fn obeys_add_spec() -> bool {
        true
    }

    /// The sum must lie within `N` bits.
    open spec fn add_req(self, rhs: Signed<N, T>) -> bool {
        fits_signed(self@ + rhs@, N as nat)
    }

    open spec fn add_spec(self, rhs: Signed<N, T>) -> Signed<N, T> {
        Self::canonical(self@ + rhs@)
    }
}

impl<const N: usize, T: SignedStorage> Add<Signed<N, T>> for Signed<N, T> {
    type Output = Signed<N, T>;

    /// Addition that must not overflow: the sum of the integers.
    fn add(self, rhs: Signed<N, T>) -> (r: Signed<N, T>)
        ensures
            r.is_canonical(),
            r@ == self@ + rhs@,
    {
        proof {
            use_type_invariant(self);
            lemma_wrap_signed_id(self@ + rhs@, N as nat);
        }
        self.wrapping_add(rhs)
    }
}

impl<const N: usize, T: SignedStorage> vstd::std_specs::ops::SubSpecImpl<Signed<N, T>>
    for Signed<N, T>
{
    open spec fn obeys_sub_spec() -> bool {
        true
    }

    /// The difference must lie within `N` bits.
    open spec fn sub_req(self, rhs: Signed<N, T>) -> bool {
        fits_signed(self@ - rhs@, N as nat)
    }

    open spec fn sub_spec(self, rhs: Signed<N, T>) -> Signed<N, T> {
        Self::canonical(self@ - rhs@)
    }
}

impl<const N: usize, T: SignedStorage> Sub<Signed<N, T>> for Signed<N, T> {
    type Output = Signed<N, T>;

    /// Subtraction that must not overflow: the difference of the integers.
    fn sub(self, rhs: Signed<N, T>) -> (r: Signed<N, T>)
        ensures
            r.is_canonical(),
            r@ == self@ - rhs@,
    {
        proof {
            use_type_invariant(self);
            lemma_wrap_signed_id(self@ - rhs@, N as nat);
        }
        self.wrapping_sub(rhs)
    }
}

} // verus!
