use vstd::prelude::*;

pub mod num;
pub mod range;

use std::cmp::Ordering;

use crate::num::{can_contain, BigInt, Num, NumType};
use crate::range::{
    lemma_mul_sound, max_of, min_of, mul_max, mul_min, spec_mul_max, spec_mul_min,
};

verus! {

/// Mathematical picture of a bounded value: its storage kind, its declared
/// range and the integer it holds.
pub struct Bounded {
    pub kind: NumType,
    pub min: int,
    pub max: int,
    pub value: int,
}

impl Bounded {
    /// The declared range is non-empty, the storage kind can hold all of it,
    /// and the value lies in it.
    pub open spec fn wf(self) -> bool {
        &&& self.range_fits()
        &&& self.min <= self.value <= self.max
    }

    /// The same value and storage kind under the declared range `[min, max]`.
    pub open spec fn with_range(self, min: int, max: int) -> Bounded {
        Bounded { min, max, ..self }
    }

    /// The same value and range in the storage kind `kind`.
    pub open spec fn with_kind(self, kind: NumType) -> Bounded {
        Bounded { kind, ..self }
    }

    /// Narrowing to `[min, max]`: defined only when the value lies in it.
    pub open spec fn narrowed(self, min: int, max: int) -> Option<Bounded> {
        if min <= self.value <= max {
            Some(self.with_range(min, max))
        } else {
            None
        }
    }

    /// Clamping to `[min, max]`: the value is moved to the nearest bound
    /// when it lies outside.
    pub open spec fn clamped(self, min: int, max: int) -> Bounded {
        Bounded { kind: self.kind, min, max, value: max_of(min, min_of(self.value, max)) }
    }

    /// The storage kind can hold the declared range.
    pub open spec fn range_fits(self) -> bool {
        self.kind.can_hold(self.min, self.max)
    }

    /// Sum: interval addition of the ranges.
    pub open spec fn plus(self, o: Bounded) -> Bounded {
        Bounded {
            kind: self.kind,
            min: self.min + o.min,
            max: self.max + o.max,
            value: self.value + o.value,
        }
    }

    /// Difference: smallest minuend minus largest subtrahend, and the reverse.
    pub open spec fn minus(self, o: Bounded) -> Bounded {
        Bounded {
            kind: self.kind,
            min: self.min - o.max,
            max: self.max - o.min,
            value: self.value - o.value,
        }
    }

    /// Product: the range spans the four corner products.
    pub open spec fn times(self, o: Bounded) -> Bounded {
        Bounded {
            kind: self.kind,
            min: spec_mul_min(self.min, self.max, o.min, o.max),
            max: spec_mul_max(self.min, self.max, o.min, o.max),
            value: self.value * o.value,
        }
    }
}

/// An integer stored in `T` together with a declared inclusive range that
/// `T` can hold and that the integer lies in.
#[derive(Clone, Copy, Debug)]
pub struct Int<T> {
    min: BigInt,
    max: BigInt,
    v: T,
}

impl<T: Num> View for Int<T> {
    type V = Bounded;

    closed spec fn view(&self) -> Bounded {
        Bounded { kind: T::kind(), min: self.min as int, max: self.max as int, value: self.v.wide() }
    }
}

impl<T: Num> Int<T> {
    pub open spec fn wf(&self) -> bool {
        self@.wf()
    }

    /// Checked construction: `None` when `v` lies outside `[min, max]`.
    pub fn new(v: T, min: BigInt, max: BigInt) -> (r: Option<Self>)
        requires
            T::kind().can_hold(min as int, max as int),
        ensures
            r is Some <==> min <= v.wide() <= max,
            r matches Some(x) ==> x.wf() && x@ == (Bounded {
                kind: T::kind(),
                min: min as int,
                max: max as int,
                value: v.wide(),
            }),
    {
        let b = v.to_big();
        if min <= b && b <= max {
            Some(Int { min, max, v })
        } else {
            None
        }
    }

    /// Widening to a range that contains the declared one, in storage `T2`
    /// that can hold the new range.
    pub fn into<T2: Num>(self, min2: BigInt, max2: BigInt) -> (r: Int<T2>)
        requires
            self.wf(),
            min2 <= self@.min,
            max2 >= self@.max,
            T2::kind().can_hold(min2 as int, max2 as int),
        ensures
            r.wf(),
            r@ == self@.with_kind(T2::kind()).with_range(min2 as int, max2 as int),
    {
        let b = self.v.to_big();
        match T2::from_big(b) {
            Some(v) => Int { min: min2, max: max2, v },
            None => unreached(),
        }
    }

    /// Checked construction from a value of the wide domain.
    pub fn try_from(value: BigInt, min: BigInt, max: BigInt) -> (r: Result<Self, &'static str>)
        requires
            T::kind().can_hold(min as int, max as int),
        ensures
            r is Ok <==> min <= value <= max,
            r matches Ok(x) ==> x.wf() && x@ == (Bounded {
                kind: T::kind(),
                min: min as int,
                max: max as int,
                value: value as int,
            }),
            r matches Err(e) ==> e@ == "Value out of bounds!"@,
    {
        proof {
            reveal_strlit("Value out of bounds!");
        }
        if min <= value && value <= max {
            match T::from_big(value) {
                Some(v) => Ok(Int { min, max, v }),
                None => unreached(),
            }
        } else {
            Err("Value out of bounds!")
        }
    }

    /// Construction of a value already known to lie in `[min, max]`; a value
    /// outside the range is a caller error, ruled out by the precondition.
    pub fn new_in_range(v: T, min: BigInt, max: BigInt) -> (r: Self)
        requires
            T::kind().can_hold(min as int, max as int),
            min <= v.wide() <= max,
        ensures
            r.wf(),
            r@ == (Bounded { kind: T::kind(), min: min as int, max: max as int, value: v.wide() }),
    {
        match Self::new(v, min, max) {
            Some(x) => x,
            None => unreached(),
        }
    }

    /// Widening within the same storage type to a range that contains the
    /// declared one.
    pub fn into_range(self, min2: BigInt, max2: BigInt) -> (r: Self)
        requires
            self.wf(),
            min2 <= self@.min,
            max2 >= self@.max,
            T::kind().can_hold(min2 as int, max2 as int),
        ensures
            r.wf(),
            r@ == self@.with_range(min2 as int, max2 as int),
    {
        Int { min: min2, max: max2, v: self.v }
    }

    /// Change of storage type, keeping value and range: `None` exactly when
    /// `T2` cannot hold the declared range.
    pub fn into_type<T2: Num>(self) -> (r: Option<Int<T2>>)
        requires
            self.wf(),
        ensures
            r is Some <==> T2::kind().can_hold(self@.min, self@.max),
            r matches Some(x) ==> x.wf() && x@ == self@.with_kind(T2::kind()),
    {
        if can_contain::<T2>(self.min, self.max) {
            match T2::from_big(self.v.to_big()) {
                Some(v) => Some(Int { min: self.min, max: self.max, v }),
                None => unreached(),
            }
        } else {
            None
        }
    }

    /// Lower end of the declared range.
    pub fn min_bound(&self) -> (r: BigInt)
        ensures
            r == self@.min,
    {
        self.min
    }

    /// Upper end of the declared range.
    pub fn max_bound(&self) -> (r: BigInt)
        ensures
            r == self@.max,
    {
        self.max
    }

    /// The stored primitive, without its range.
    pub fn inner(self) -> (r: T)
        ensures
            r.wide() == self@.value,
    {
        self.v
    }

    /// Moves the value into `[min2, max2]`, saturating at the nearest bound.
    pub fn clamp(self, min2: BigInt, max2: BigInt) -> (r: Self)
        requires
            self.wf(),
            T::kind().can_hold(min2 as int, max2 as int),
        ensures
            r.wf(),
            r@ == self@.clamped(min2 as int, max2 as int),
    {
        let b = self.v.to_big();
        let c = if b > max2 {
            max2
        } else if b < min2 {
            min2
        } else {
            b
        };
        match T::from_big(c) {
            Some(v) => Int { min: min2, max: max2, v },
            None => unreached(),
        }
    }

    /// Narrowing to `[min2, max2]`: `None` when the value lies outside.
    pub fn try_into_range(self, min2: BigInt, max2: BigInt) -> (r: Option<Self>)
        requires
            self.wf(),
            T::kind().can_hold(min2 as int, max2 as int),
        ensures
            r is Some <==> self@.narrowed(min2 as int, max2 as int) is Some,
            r matches Some(x) ==> x.wf() && Some(x@) == self@.narrowed(min2 as int, max2 as int),
    {
        let b = self.v.to_big();
        if min2 <= b && b <= max2 {
            Some(Int { min: min2, max: max2, v: self.v })
        } else {
            None
        }
    }

    /// Sum of two values of the same storage type: `None` exactly when `T`
    /// cannot hold the range `[min1 + min2, max1 + max2]`.
    pub fn add(self, rhs: Self) -> (r: Option<Self>)
        requires
            self.wf(),
            rhs.wf(),
        ensures
            r is Some <==> self@.plus(rhs@).range_fits(),
            r matches Some(x) ==> x.wf() && x@ == self@.plus(rhs@),
    {
        proof {
            T::kind().lemma_within_wide();
        }
        match (self.min.checked_add(rhs.min), self.max.checked_add(rhs.max)) {
            (Some(lo), Some(hi)) => {
                if can_contain::<T>(lo, hi) {
                    let s = self.v.to_big() + rhs.v.to_big();
                    match T::from_big(s) {
                        Some(v) => Some(Int { min: lo, max: hi, v }),
                        None => unreached(),
                    }
                } else {
                    None
                }
            },
            _ => None,
        }
    }

    /// Difference of two values of the same storage type: `None` exactly when
    /// `T` cannot hold the range `[min1 - max2, max1 - min2]`.
    pub fn sub(self, rhs: Self) -> (r: Option<Self>)
        requires
            self.wf(),
            rhs.wf(),
        ensures
            r is Some <==> self@.minus(rhs@).range_fits(),
            r matches Some(x) ==> x.wf() && x@ == self@.minus(rhs@),
    {
        proof {
            T::kind().lemma_within_wide();
        }
        match (self.min.checked_sub(rhs.max), self.max.checked_sub(rhs.min)) {
            (Some(lo), Some(hi)) => {
                if can_contain::<T>(lo, hi) {
                    let d = self.v.to_big() - rhs.v.to_big();
                    match T::from_big(d) {
                        Some(v) => Some(Int { min: lo, max: hi, v }),
                        None => unreached(),
                    }
                } else {
                    None
                }
            },
            _ => None,
        }
    }

    /// Product of two values of the same storage type: `None` exactly when
    /// `T` cannot hold the range spanned by the four corner products.
    pub fn mul(self, rhs: Self) -> (r: Option<Self>)
        requires
            self.wf(),
            rhs.wf(),
        ensures
            r is Some <==> self@.times(rhs@).range_fits(),
            r matches Some(x) ==> x.wf() && x@ == self@.times(rhs@),
    {
        proof {
            T::kind().lemma_within_wide();
        }
        let fit = self.min.checked_mul(rhs.min).is_some() && self.min.checked_mul(rhs.max).is_some()
            && self.max.checked_mul(rhs.min).is_some() && self.max.checked_mul(rhs.max).is_some();
        if !fit {
            return None;
        }
        let lo = mul_min(self.min, self.max, rhs.min, rhs.max);
        let hi = mul_max(self.min, self.max, rhs.min, rhs.max);
        if can_contain::<T>(lo, hi) {
            let a = self.v.to_big();
            let b = rhs.v.to_big();
            proof {
                lemma_mul_sound(self@.min, self@.max, rhs@.min, rhs@.max, a as int, b as int);
            }
            match T::from_big(a * b) {
                Some(v) => Some(Int { min: lo, max: hi, v }),
                None => unreached(),
            }
        } else {
            None
        }
    }
}

/// Three-way comparison of two integers.
pub open spec fn order_of(a: int, b: int) -> Ordering {
    if a < b {
        Ordering::Less
    } else if a > b {
        Ordering::Greater
    } else {
        Ordering::Equal
    }
}

impl<T: Num> Int<T> {
    /// Compares the held values, whatever the ranges and storage types.
    pub fn cmp<U: Num>(&self, other: &Int<U>) -> (r: Ordering)
        ensures
            r == order_of(self@.value, other@.value),
    {
        let a = self.v.to_big();
        let b = other.v.to_big();
        if a < b {
            Ordering::Less
        } else if a > b {
            Ordering::Greater
        } else {
            Ordering::Equal
        }
    }
}

impl<T: Num, U: Num> PartialEq<Int<U>> for Int<T> {
    fn eq(&self, other: &Int<U>) -> (r: bool) {
        self.v.to_big() == other.v.to_big()
    }
}

impl<T: Num, U: Num> vstd::std_specs::cmp::PartialEqSpecImpl<Int<U>> for Int<T> {
    open spec fn obeys_eq_spec() -> bool {
        true
    }

    open spec fn eq_spec(&self, other: &Int<U>) -> bool {
        self@.value == other@.value
    }
}

impl<T: Num> Eq for Int<T> {}

impl<T: Num, U: Num> PartialOrd<Int<U>> for Int<T> {
    fn partial_cmp(&self, other: &Int<U>) -> (r: Option<Ordering>) {
        Some(self.cmp(other))
    }
}

impl<T: Num, U: Num> vstd::std_specs::cmp::PartialOrdSpecImpl<Int<U>> for Int<T> {
    open spec fn obeys_partial_cmp_spec() -> bool {
        true
    }

    open spec fn partial_cmp_spec(&self, other: &Int<U>) -> Option<Ordering> {
        Some(order_of(self@.value, other@.value))
    }
}

impl<T: Num> From<Int<T>> for BigInt {
    fn from(value: Int<T>) -> (r: BigInt) {
        value.v.to_big()
    }
}

impl<T: Num> vstd::std_specs::convert::FromSpecImpl<Int<T>> for BigInt {
    open spec fn obeys_from_spec() -> bool {
        true
    }

    open spec fn from_spec(v: Int<T>) -> BigInt {
        v@.value as BigInt
    }
}

/// Widening a value's range and then narrowing it back to the original range
/// gives back the original value.
pub proof fn lemma_widen_narrow(b: Bounded, min2: int, max2: int)
    requires
        b.wf(),
        min2 <= b.min,
        b.max <= max2,
    ensures
        b.with_range(min2, max2).narrowed(b.min, b.max) == Some(b),
{
}

/// A literal: the value `v` with the single-point range `[v, v]`.
pub fn literal<T: Num>(v: BigInt) -> (r: Int<T>)
    requires
        T::kind().holds(v as int),
    ensures
        r.wf(),
        r@ == (Bounded { kind: T::kind(), min: v as int, max: v as int, value: v as int }),
{
    match T::from_big(v) {
        Some(x) => Int { min: v, max: v, v: x },
        None => unreached(),
    }
}

} // verus!
