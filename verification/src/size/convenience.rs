//! Constructors and conversions of the size types.

use super::{ByteUnit, DecimalSize, LongSize, Size, BYTE};
use vstd::prelude::*;
use vstd::std_specs::convert::FromSpecImpl;

verus! {

impl Size {
    /// The size of `bytes` bytes.
    pub fn new(bytes: BYTE) -> (size: Self)
        ensures
            size.0 == bytes,
    {
        Self(bytes)
    }

    /// The same byte count, to be rendered exactly.
    pub fn into_exact(&self) -> (exact: LongSize)
        ensures
            exact.0 == self.0,
    {
        LongSize(self.0)
    }
}

impl From<BYTE> for Size {
    fn from(value: BYTE) -> (size: Self) {
        Self(value)
    }
}

impl FromSpecImpl<BYTE> for Size {
    open spec fn obeys_from_spec() -> bool {
        true
    }

    open spec fn from_spec(value: BYTE) -> Self {
        Size(value)
    }
}

impl From<LongSize> for Size {
    fn from(value: LongSize) -> (size: Self) {
        Self(value.0)
    }
}

impl FromSpecImpl<LongSize> for Size {
    open spec fn obeys_from_spec() -> bool {
        true
    }

    open spec fn from_spec(value: LongSize) -> Self {
        Size(value.0)
    }
}

impl From<DecimalSize> for Size {
    fn from(value: DecimalSize) -> (size: Self) {
        Self(value.0)
    }
}

impl FromSpecImpl<DecimalSize> for Size {
    open spec fn obeys_from_spec() -> bool {
        true
    }

    open spec fn from_spec(value: DecimalSize) -> Self {
        Size(value.0)
    }
}

/// Turns a byte count into each of the three size types.
pub trait IntoSize {
    /// The byte count that the value stands for.
    spec fn byte_count(&self) -> BYTE;

    /// The count as a [`Size`].
    fn into_size(&self) -> (size: Size)
        ensures
            size.0 == self.byte_count(),
    ;

    /// The count as a [`LongSize`].
    fn into_longsize(&self) -> (size: LongSize)
        ensures
            size.0 == self.byte_count(),
    ;

    /// The count as a [`DecimalSize`].
    fn into_decimalsize(&self) -> (size: DecimalSize)
        ensures
            size.0 == self.byte_count(),
    ;
}

impl IntoSize for u64 {
    open spec fn byte_count(&self) -> BYTE {
        *self
    }

    fn into_size(&self) -> (size: Size) {
        Size::new(*self)
    }

    fn into_longsize(&self) -> (size: LongSize) {
        LongSize::new(*self)
    }

    fn into_decimalsize(&self) -> (size: DecimalSize) {
        DecimalSize(*self)
    }
}

impl LongSize {
    /// The exact size of `bytes` bytes.
    pub fn new(bytes: BYTE) -> (size: Self)
        ensures
            size.0 == bytes,
    {
        Self(bytes)
    }
}

impl From<BYTE> for LongSize {
    fn from(value: BYTE) -> (size: Self) {
        Self(value)
    }
}

impl FromSpecImpl<BYTE> for LongSize {
    open spec fn obeys_from_spec() -> bool {
        true
    }

    open spec fn from_spec(value: BYTE) -> Self {
        LongSize(value)
    }
}

impl From<Size> for LongSize {
    fn from(value: Size) -> (size: Self) {
        Self(value.0)
    }
}

impl FromSpecImpl<Size> for LongSize {
    open spec fn obeys_from_spec() -> bool {
        true
    }

    open spec fn from_spec(value: Size) -> Self {
        LongSize(value.0)
    }
}

impl From<DecimalSize> for LongSize {
    fn from(value: DecimalSize) -> (size: Self) {
        Self(value.0)
    }
}

impl FromSpecImpl<DecimalSize> for LongSize {
    open spec fn obeys_from_spec() -> bool {
        true
    }

    open spec fn from_spec(value: DecimalSize) -> Self {
        LongSize(value.0)
    }
}

impl DecimalSize {
    /// The approximate size of `bytes` bytes.
    pub fn new(bytes: BYTE) -> (size: Self)
        ensures
            size.0 == bytes,
    {
        Self(bytes)
    }
}

impl From<BYTE> for DecimalSize {
    fn from(value: BYTE) -> (size: Self) {
        Self(value)
    }
}

impl FromSpecImpl<BYTE> for DecimalSize {
    open spec fn obeys_from_spec() -> bool {
        true
    }

    open spec fn from_spec(value: BYTE) -> Self {
        DecimalSize(value)
    }
}

impl From<Size> for DecimalSize {
    fn from(value: Size) -> (size: Self) {
        Self(value.0)
    }
}

impl FromSpecImpl<Size> for DecimalSize {
    open spec fn obeys_from_spec() -> bool {
        true
    }

    open spec fn from_spec(value: Size) -> Self {
        DecimalSize(value.0)
    }
}

impl From<LongSize> for DecimalSize {
    fn from(value: LongSize) -> (size: Self) {
        Self(value.0)
    }
}

impl FromSpecImpl<LongSize> for DecimalSize {
    open spec fn obeys_from_spec() -> bool {
        true
    }

    open spec fn from_spec(value: LongSize) -> Self {
        DecimalSize(value.0)
    }
}

impl<'a> From<(BYTE, &'a str)> for ByteUnit<'a> {
    fn from(pair: (BYTE, &'a str)) -> (unit: Self) {
        Self { size: pair.0, name: pair.1 }
    }
}

impl<'a> FromSpecImpl<(BYTE, &'a str)> for ByteUnit<'a> {
    open spec fn obeys_from_spec() -> bool {
        true
    }

    open spec fn from_spec(pair: (BYTE, &'a str)) -> Self {
        ByteUnit { size: pair.0, name: pair.1 }
    }
}

impl<'a> ByteUnit<'a> {
    /// The unit that the pair of a size and a label describes.
    pub fn from_tuple(pair: (BYTE, &'a str)) -> (unit: Self)
        ensures
            unit == (ByteUnit { size: pair.0, name: pair.1 }),
    {
        Self { size: pair.0, name: pair.1 }
    }
}

} // verus!
