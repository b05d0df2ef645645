//! Range-checked fixed-width integer primitives.
//!
//! Each type wraps the smallest native unsigned integer that can hold its
//! bit width and keeps the stored value inside `[MIN_VALUE, MAX_VALUE]`
//! through every checked construction and mutation.

use vstd::prelude::*;

verus! {

/// Error raised when a raw value does not fit in a primitive's bit width.
#[derive(Debug, Clone, Copy, PartialEq, Eq, Structural)]
pub enum BitPrimitiveError {
    ValueOutOfRange,
}

/// Common interface of the fixed-width primitives.
///
/// The spec functions expose the stored value and the width bound as
/// mathematical integers, so that one contract shape covers every width.
pub trait BitPrimitive: Sized + Copy + Default {
    /// The smallest unsigned primitive type supported by Rust (u8, u16, ...)
    /// which can hold the entire range of the bit primitive.
    type RustPrimitive: Copy;

    /// Largest raw value the width admits, as a mathematical integer.
    spec fn spec_max() -> int;

    /// The raw carrier value as a mathematical integer.
    spec fn prim_int(v: Self::RustPrimitive) -> int;

    /// The stored value as a mathematical integer.
    spec fn stored(self) -> int;

    /// Checks whether the stored value is a valid representation of the
    /// given primitive type.
    fn is_valid(self) -> (r: bool)
        ensures
            r == (0 <= self.stored() <= Self::spec_max()),
    ;

    /// Returns the value of the bit primitive as its corresponding Rust
    /// primitive.
    fn value(self) -> (r: Self::RustPrimitive)
        ensures
            Self::prim_int(r) == self.stored(),
    ;

    /// Replaces the stored value after a bounds check; an out-of-range
    /// value leaves the primitive unchanged.
    fn set(&mut self, value: Self::RustPrimitive) -> (r: Result<(), BitPrimitiveError>)
        ensures
            0 <= Self::prim_int(value) <= Self::spec_max() ==> r == Ok::<(), BitPrimitiveError>(())
                && final(self).stored() == Self::prim_int(value),
            !(0 <= Self::prim_int(value) <= Self::spec_max()) ==> r == Err::<(), BitPrimitiveError>(
                BitPrimitiveError::ValueOutOfRange,
            ) && *final(self) == *old(self),
    ;
}

/// A 1-bit unsigned integer.
#[derive(Debug, Clone, Copy, PartialEq, Eq, Structural)]
pub struct Bit {
    value: u8,
}

impl View for Bit {
    type V = u8;

    closed spec fn view(&self) -> u8 {
        self.value
    }
}

impl Bit {
    pub const MIN_VALUE: u8 = 0;

    pub const MAX_VALUE: u8 = 1;

    pub const BIT_WIDTH: u32 = 1;

    /// Validated constructor: accepts exactly the raw values of the width.
    pub fn try_from(value: u8) -> (r: Result<Self, BitPrimitiveError>)
        ensures
            value <= Bit::MAX_VALUE ==> (r matches Ok(b) && b@ == value),
            value > Bit::MAX_VALUE ==> r == Err::<Bit, BitPrimitiveError>(
                BitPrimitiveError::ValueOutOfRange,
            ),
    {
        if value <= Self::MAX_VALUE {
            Ok(Bit { value })
        } else {
            Err(BitPrimitiveError::ValueOutOfRange)
        }
    }

    /// Unchecked constructor for values extracted from packed words;
    /// `is_valid` re-checks the range after the fact.
    pub fn from_raw(value: u8) -> (r: Self)
        ensures
            r@ == value,
    {
        Bit { value }
    }
}

impl Default for Bit {
    /// The default bit is zero.
    fn default() -> (r: Self)
        ensures
            r@ == 0,
    {
        Bit { value: 0 }
    }
}

impl BitPrimitive for Bit {
    type RustPrimitive = u8;

    open spec fn spec_max() -> int {
        Bit::MAX_VALUE as int
    }

    open spec fn prim_int(v: u8) -> int {
        v as int
    }

    open spec fn stored(self) -> int {
        self@ as int
    }

    fn is_valid(self) -> (r: bool) {
        self.value >= Self::MIN_VALUE && self.value <= Self::MAX_VALUE
    }

    fn value(self) -> (r: u8) {
        self.value
    }

    fn set(&mut self, value: u8) -> (r: Result<(), BitPrimitiveError>) {
        if value >= Self::MIN_VALUE && value <= Self::MAX_VALUE {
            self.value = value;
            Ok(())
        } else {
            Err(BitPrimitiveError::ValueOutOfRange)
        }
    }
}

/// A 2-bit unsigned integer.
#[derive(Debug, Clone, Copy, PartialEq, Eq, Structural)]
pub struct Crumb {
    value: u8,
}

impl View for Crumb {
    type V = u8;

    closed spec fn view(&self) -> u8 {
        self.value
    }
}

impl Crumb {
    pub const MIN_VALUE: u8 = 0;

    pub const MAX_VALUE: u8 = 3;

    pub const BIT_WIDTH: u32 = 2;

    /// Validated constructor: accepts exactly the raw values of the width.
    pub fn try_from(value: u8) -> (r: Result<Self, BitPrimitiveError>)
        ensures
            value <= Crumb::MAX_VALUE ==> (r matches Ok(b) && b@ == value),
            value > Crumb::MAX_VALUE ==> r == Err::<Crumb, BitPrimitiveError>(
                BitPrimitiveError::ValueOutOfRange,
            ),
    {
        if value <= Self::MAX_VALUE {
            Ok(Crumb { value })
        } else {
            Err(BitPrimitiveError::ValueOutOfRange)
        }
    }

    /// Unchecked constructor for values extracted from packed words;
    /// `is_valid` re-checks the range after the fact.
    pub fn from_raw(value: u8) -> (r: Self)
        ensures
            r@ == value,
    {
        Crumb { value }
    }
}

impl Default for Crumb {
    /// The default crumb is zero.
    fn default() -> (r: Self)
        ensures
            r@ == 0,
    {
        Crumb { value: 0 }
    }
}

impl BitPrimitive for Crumb {
    type RustPrimitive = u8;

    open spec fn spec_max() -> int {
        Crumb::MAX_VALUE as int
    }

    open spec fn prim_int(v: u8) -> int {
        v as int
    }

    open spec fn stored(self) -> int {
        self@ as int
    }

    fn is_valid(self) -> (r: bool) {
        self.value >= Self::MIN_VALUE && self.value <= Self::MAX_VALUE
    }

    fn value(self) -> (r: u8) {
        self.value
    }

    fn set(&mut self, value: u8) -> (r: Result<(), BitPrimitiveError>) {
        if value >= Self::MIN_VALUE && value <= Self::MAX_VALUE {
            self.value = value;
            Ok(())
        } else {
            Err(BitPrimitiveError::ValueOutOfRange)
        }
    }
}

/// A 3-bit unsigned integer, the width of the 802.1Q priority code point.
#[derive(Debug, Clone, Copy, PartialEq, Eq, Structural)]
pub struct U3 {
    value: u8,
}

impl View for U3 {
    type V = u8;

    closed spec fn view(&self) -> u8 {
        self.value
    }
}

impl U3 {
    pub const MIN_VALUE: u8 = 0;

    pub const MAX_VALUE: u8 = 7;

    pub const BIT_WIDTH: u32 = 3;

    /// Validated constructor: accepts exactly the raw values of the width.
    pub fn try_from(value: u8) -> (r: Result<Self, BitPrimitiveError>)
        ensures
            value <= U3::MAX_VALUE ==> (r matches Ok(b) && b@ == value),
            value > U3::MAX_VALUE ==> r == Err::<U3, BitPrimitiveError>(
                BitPrimitiveError::ValueOutOfRange,
            ),
    {
        if value <= Self::MAX_VALUE {
            Ok(U3 { value })
        } else {
            Err(BitPrimitiveError::ValueOutOfRange)
        }
    }

    /// Unchecked constructor for values extracted from packed words;
    /// `is_valid` re-checks the range after the fact.
    pub fn from_raw(value: u8) -> (r: Self)
        ensures
            r@ == value,
    {
        U3 { value }
    }
}

impl Default for U3 {
    /// The default 3-bit value is zero.
    fn default() -> (r: Self)
        ensures
            r@ == 0,
    {
        U3 { value: 0 }
    }
}

impl BitPrimitive for U3 {
    type RustPrimitive = u8;

    open spec fn spec_max() -> int {
        U3::MAX_VALUE as int
    }

    open spec fn prim_int(v: u8) -> int {
        v as int
    }

    open spec fn stored(self) -> int {
        self@ as int
    }

    fn is_valid(self) -> (r: bool) {
        self.value >= Self::MIN_VALUE && self.value <= Self::MAX_VALUE
    }

    fn value(self) -> (r: u8) {
        self.value
    }

    fn set(&mut self, value: u8) -> (r: Result<(), BitPrimitiveError>) {
        if value >= Self::MIN_VALUE && value <= Self::MAX_VALUE {
            self.value = value;
            Ok(())
        } else {
            Err(BitPrimitiveError::ValueOutOfRange)
        }
    }
}

/// A 4-bit unsigned integer.
#[derive(Debug, Clone, Copy, PartialEq, Eq, Structural)]
pub struct Nibble {
    value: u8,
}

impl View for Nibble {
    type V = u8;

    closed spec fn view(&self) -> u8 {
        self.value
    }
}

impl Nibble {
    pub const MIN_VALUE: u8 = 0;

    pub const MAX_VALUE: u8 = 15;

    pub const BIT_WIDTH: u32 = 4;

    /// Validated constructor: accepts exactly the raw values of the width.
    pub fn try_from(value: u8) -> (r: Result<Self, BitPrimitiveError>)
        ensures
            value <= Nibble::MAX_VALUE ==> (r matches Ok(b) && b@ == value),
            value > Nibble::MAX_VALUE ==> r == Err::<Nibble, BitPrimitiveError>(
                BitPrimitiveError::ValueOutOfRange,
            ),
    {
        if value <= Self::MAX_VALUE {
            Ok(Nibble { value })
        } else {
            Err(BitPrimitiveError::ValueOutOfRange)
        }
    }

    /// Unchecked constructor for values extracted from packed words;
    /// `is_valid` re-checks the range after the fact.
    pub fn from_raw(value: u8) -> (r: Self)
        ensures
            r@ == value,
    {
        Nibble { value }
    }
}

impl Default for Nibble {
    /// The default nibble is zero.
    fn default() -> (r: Self)
        ensures
            r@ == 0,
    {
        Nibble { value: 0 }
    }
}

impl BitPrimitive for Nibble {
    type RustPrimitive = u8;

    open spec fn spec_max() -> int {
        Nibble::MAX_VALUE as int
    }

    open spec fn prim_int(v: u8) -> int {
        v as int
    }

    open spec fn stored(self) -> int {
        self@ as int
    }

    fn is_valid(self) -> (r: bool) {
        self.value >= Self::MIN_VALUE && self.value <= Self::MAX_VALUE
    }

    fn value(self) -> (r: u8) {
        self.value
    }

    fn set(&mut self, value: u8) -> (r: Result<(), BitPrimitiveError>) {
        if value >= Self::MIN_VALUE && value <= Self::MAX_VALUE {
            self.value = value;
            Ok(())
        } else {
            Err(BitPrimitiveError::ValueOutOfRange)
        }
    }
}

/// A 12-bit unsigned integer, the width of the 802.1Q VLAN identifier.
#[derive(Debug, Clone, Copy, PartialEq, Eq, Structural)]
pub struct U12 {
    value: u16,
}

impl View for U12 {
    type V = u16;

    closed spec fn view(&self) -> u16 {
        self.value
    }
}

impl U12 {
    pub const MIN_VALUE: u16 = 0;

    pub const MAX_VALUE: u16 = 4095;

    pub const BIT_WIDTH: u32 = 12;

    /// Validated constructor: accepts exactly the raw values of the width.
    pub fn try_from(value: u16) -> (r: Result<Self, BitPrimitiveError>)
        ensures
            value <= U12::MAX_VALUE ==> (r matches Ok(b) && b@ == value),
            value > U12::MAX_VALUE ==> r == Err::<U12, BitPrimitiveError>(
                BitPrimitiveError::ValueOutOfRange,
            ),
    {
        if value <= Self::MAX_VALUE {
            Ok(U12 { value })
        } else {
            Err(BitPrimitiveError::ValueOutOfRange)
        }
    }

    /// Unchecked constructor for values extracted from packed words;
    /// `is_valid` re-checks the range after the fact.
    pub fn from_raw(value: u16) -> (r: Self)
        ensures
            r@ == value,
    {
        U12 { value }
    }
}

impl Default for U12 {
    /// The default 12-bit value is zero.
    fn default() -> (r: Self)
        ensures
            r@ == 0,
    {
        U12 { value: 0 }
    }
}

impl BitPrimitive for U12 {
    type RustPrimitive = u16;

    open spec fn spec_max() -> int {
        U12::MAX_VALUE as int
    }

    open spec fn prim_int(v: u16) -> int {
        v as int
    }

    open spec fn stored(self) -> int {
        self@ as int
    }

    fn is_valid(self) -> (r: bool) {
        self.value >= Self::MIN_VALUE && self.value <= Self::MAX_VALUE
    }

    fn value(self) -> (r: u16) {
        self.value
    }

    fn set(&mut self, value: u16) -> (r: Result<(), BitPrimitiveError>) {
        if value >= Self::MIN_VALUE && value <= Self::MAX_VALUE {
            self.value = value;
            Ok(())
        } else {
            Err(BitPrimitiveError::ValueOutOfRange)
        }
    }
}

} // verus!
