use vstd::prelude::*;

verus! {

/// The fixed-width integer storage kinds a bounded value may live in.
#[derive(Clone, Copy, Debug, PartialEq, Eq, Structural)]
pub enum NumType {
    U8,
    U16,
    U32,
    U64,
    I8,
    I16,
    I32,
    I64,
    I128,
}

/// The common wide domain in which all bounds are kept.
pub type BigInt = i128;

impl NumType {
    /// Smallest integer the storage kind can hold.
    pub open spec fn native_min(self) -> int {
        match self {
            NumType::U8 | NumType::U16 | NumType::U32 | NumType::U64 => 0,
            NumType::I8 => i8::MIN as int,
            NumType::I16 => i16::MIN as int,
            NumType::I32 => i32::MIN as int,
            NumType::I64 => i64::MIN as int,
            NumType::I128 => i128::MIN as int,
        }
    }

    /// Largest integer the storage kind can hold.
    pub open spec fn native_max(self) -> int {
        match self {
            NumType::U8 => u8::MAX as int,
            NumType::U16 => u16::MAX as int,
            NumType::U32 => u32::MAX as int,
            NumType::U64 => u64::MAX as int,
            NumType::I8 => i8::MAX as int,
            NumType::I16 => i16::MAX as int,
            NumType::I32 => i32::MAX as int,
            NumType::I64 => i64::MAX as int,
            NumType::I128 => i128::MAX as int,
        }
    }

    /// The storage kind can represent the single integer `v`.
    pub open spec fn holds(self, v: int) -> bool {
        self.native_min() <= v <= self.native_max()
    }

    /// The storage kind can represent every integer of `[min, max]`, and the
    /// range is not empty.
    pub open spec fn can_hold(self, min: int, max: int) -> bool {
        &&& min <= max
        &&& min >= self.native_min()
        &&& max <= self.native_max()
    }

    /// Every storage kind sits inside the wide domain.
    pub proof fn lemma_within_wide(self)
        ensures
            i128::MIN <= self.native_min() <= 0,
            0 < self.native_max() <= i128::MAX,
    {
    }

    pub fn min_big_int(self) -> (r: BigInt)
        ensures
            r == self.native_min(),
    {
        match self {
            NumType::U8 | NumType::U16 | NumType::U32 | NumType::U64 => 0,
            NumType::I8 => i8::MIN as i128,
            NumType::I16 => i16::MIN as i128,
            NumType::I32 => i32::MIN as i128,
            NumType::I64 => i64::MIN as i128,
            NumType::I128 => i128::MIN,
        }
    }

    pub fn max_big_int(self) -> (r: BigInt)
        ensures
            r == self.native_max(),
    {
        match self {
            NumType::U8 => u8::MAX as i128,
            NumType::U16 => u16::MAX as i128,
            NumType::U32 => u32::MAX as i128,
            NumType::U64 => u64::MAX as i128,
            NumType::I8 => i8::MAX as i128,
            NumType::I16 => i16::MAX as i128,
            NumType::I32 => i32::MAX as i128,
            NumType::I64 => i64::MAX as i128,
            NumType::I128 => i128::MAX,
        }
    }

    /// Decides whether this storage kind can hold every value of `[min, max]`.
    pub fn can_contain(self, min: BigInt, max: BigInt) -> (r: bool)
        ensures
            r == self.can_hold(min as int, max as int),
    {
        min <= max && min >= self.min_big_int() && max <= self.max_big_int()
    }
}

/// A primitive integer type usable as the storage of a bounded value.
pub trait Num: Copy + Sized {
    /// The storage kind this type stands for.
    spec fn kind() -> NumType;

    /// The value read in the wide domain.
    spec fn wide(self) -> int;

    fn num_type() -> (r: NumType)
        ensures
            r == Self::kind(),
    ;

    /// Lossless conversion into the wide domain.
    fn to_big(self) -> (r: BigInt)
        ensures
            r as int == self.wide(),
    ;

    /// Conversion from the wide domain, which fails exactly on values the
    /// type cannot represent.
    fn from_big(v: BigInt) -> (r: Option<Self>)
        ensures
            r is Some <==> Self::kind().holds(v as int),
            r matches Some(x) ==> x.wide() == v as int,
    ;
}

impl Num for u8 {
    open spec fn kind() -> NumType {
        NumType::U8
    }

    open spec fn wide(self) -> int {
        self as int
    }

    fn num_type() -> (r: NumType) {
        NumType::U8
    }

    fn to_big(self) -> (r: BigInt) {
        self as i128
    }

    fn from_big(v: BigInt) -> (r: Option<Self>) {
        if u8::MIN as i128 <= v && v <= u8::MAX as i128 {
            Some(v as u8)
        } else {
            None
        }
    }
}

impl Num for u16 {
    open spec fn kind() -> NumType {
        NumType::U16
    }

    open spec fn wide(self) -> int {
        self as int
    }

    fn num_type() -> (r: NumType) {
        NumType::U16
    }

    fn to_big(self) -> (r: BigInt) {
        self as i128
    }

    fn from_big(v: BigInt) -> (r: Option<Self>) {
        if u16::MIN as i128 <= v && v <= u16::MAX as i128 {
            Some(v as u16)
        } else {
            None
        }
    }
}

impl Num for u32 {
    open spec fn kind() -> NumType {
        NumType::U32
    }

    open spec fn wide(self) -> int {
        self as int
    }

    fn num_type() -> (r: NumType) {
        NumType::U32
    }

    fn to_big(self) -> (r: BigInt) {
        self as i128
    }

    fn from_big(v: BigInt) -> (r: Option<Self>) {
        if u32::MIN as i128 <= v && v <= u32::MAX as i128 {
            Some(v as u32)
        } else {
            None
        }
    }
}

impl Num for u64 {
    open spec fn kind() -> NumType {
        NumType::U64
    }

    open spec fn wide(self) -> int {
        self as int
    }

    fn num_type() -> (r: NumType) {
        NumType::U64
    }

    fn to_big(self) -> (r: BigInt) {
        self as i128
    }

    fn from_big(v: BigInt) -> (r: Option<Self>) {
        if u64::MIN as i128 <= v && v <= u64::MAX as i128 {
            Some(v as u64)
        } else {
            None
        }
    }
}

impl Num for i8 {
    open spec fn kind() -> NumType {
        NumType::I8
    }

    open spec fn wide(self) -> int {
        self as int
    }

    fn num_type() -> (r: NumType) {
        NumType::I8
    }

    fn to_big(self) -> (r: BigInt) {
        self as i128
    }

    fn from_big(v: BigInt) -> (r: Option<Self>) {
        if i8::MIN as i128 <= v && v <= i8::MAX as i128 {
            Some(v as i8)
        } else {
            None
        }
    }
}

impl Num for i16 {
    open spec fn kind() -> NumType {
        NumType::I16
    }

    open spec fn wide(self) -> int {
        self as int
    }

    fn num_type() -> (r: NumType) {
        NumType::I16
    }

    fn to_big(self) -> (r: BigInt) {
        self as i128
    }

    fn from_big(v: BigInt) -> (r: Option<Self>) {
        if i16::MIN as i128 <= v && v <= i16::MAX as i128 {
            Some(v as i16)
        } else {
            None
        }
    }
}

impl Num for i32 {
    open spec fn kind() -> NumType {
        NumType::I32
    }

    open spec fn wide(self) -> int {
        self as int
    }

    fn num_type() -> (r: NumType) {
        NumType::I32
    }

    fn to_big(self) -> (r: BigInt) {
        self as i128
    }

    fn from_big(v: BigInt) -> (r: Option<Self>) {
        if i32::MIN as i128 <= v && v <= i32::MAX as i128 {
            Some(v as i32)
        } else {
            None
        }
    }
}

impl Num for i64 {
    open spec fn kind() -> NumType {
        NumType::I64
    }

    open spec fn wide(self) -> int {
        self as int
    }

    fn num_type() -> (r: NumType) {
        NumType::I64
    }

    fn to_big(self) -> (r: BigInt) {
        self as i128
    }

    fn from_big(v: BigInt) -> (r: Option<Self>) {
        if i64::MIN as i128 <= v && v <= i64::MAX as i128 {
            Some(v as i64)
        } else {
            None
        }
    }
}

impl Num for i128 {
    open spec fn kind() -> NumType {
        NumType::I128
    }

    open spec fn wide(self) -> int {
        self as int
    }

    fn num_type() -> (r: NumType) {
        NumType::I128
    }

    fn to_big(self) -> (r: BigInt) {
        self
    }

    fn from_big(v: BigInt) -> (r: Option<Self>) {
        Some(v)
    }
}

/// Decides whether the storage type `T` can hold every value of `[min, max]`.
pub fn can_contain<T: Num>(min: BigInt, max: BigInt) -> (r: bool)
    ensures
        r == T::kind().can_hold(min as int, max as int),
{
    T::num_type().can_contain(min, max)
}

impl NumType {
    /// Position in the scan for the narrowest kind: unsigned kinds by
    /// width, then signed kinds by width.
    pub open spec fn rank(self) -> nat {
        match self {
            NumType::U8 => 0,
            NumType::U16 => 1,
            NumType::U32 => 2,
            NumType::U64 => 3,
            NumType::I8 => 4,
            NumType::I16 => 5,
            NumType::I32 => 6,
            NumType::I64 => 7,
            NumType::I128 => 8,
        }
    }
}

/// The first storage kind in scan order that can hold `[min, max]`.
pub fn smallest_num_type(min: BigInt, max: BigInt) -> (r: NumType)
    requires
        min <= max,
    ensures
        r.can_hold(min as int, max as int),
        forall|k: NumType| k.rank() < r.rank() ==> !k.can_hold(min as int, max as int),
{
    if NumType::U8.can_contain(min, max) {
        NumType::U8
    } else if NumType::U16.can_contain(min, max) {
        NumType::U16
    } else if NumType::U32.can_contain(min, max) {
        NumType::U32
    } else if NumType::U64.can_contain(min, max) {
        NumType::U64
    } else if NumType::I8.can_contain(min, max) {
        NumType::I8
    } else if NumType::I16.can_contain(min, max) {
        NumType::I16
    } else if NumType::I32.can_contain(min, max) {
        NumType::I32
    } else if NumType::I64.can_contain(min, max) {
        NumType::I64
    } else {
        NumType::I128
    }
}

/// Capacity is monotone: a kind that can hold a range can hold each of its
/// non-empty sub-ranges.
pub proof fn lemma_can_hold_sub_range(k: NumType, min: int, max: int, min2: int, max2: int)
    requires
        k.can_hold(min, max),
        min <= min2 <= max2 <= max,
    ensures
        k.can_hold(min2, max2),
{
}

} // verus!
