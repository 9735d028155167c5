//! The numeric representations as types.
//!
//! A number is carried as its bits and never computed with. Held in one of
//! these types, the bits are known to be a word of the representation, so
//! what is built from such numbers is well formed by construction.

use vstd::prelude::*;
use crate::value::{Body, NativeValue, Repr, Value};

verus! {

/// A number in one of the representations that scripts can ask for.
pub trait LuaRealField: Copy {
    /// The representation of every number of the type.
    spec fn spec_repr() -> Repr;

    /// The bits of the number.
    spec fn spec_bits(self) -> u64;

    fn repr() -> (r: Repr)
        ensures
            r == Self::spec_repr(),
    ;

    /// The bits of the number, which are a word of its representation.
    fn to_bits(self) -> (bits: u64)
        ensures
            bits == self.spec_bits(),
            Self::spec_repr().fits(bits),
    ;

    /// The number with the given bits, if they are a word of the
    /// representation.
    fn from_bits(bits: u64) -> (r: Option<Self>)
        ensures
            r is Some <==> Self::spec_repr().fits(bits),
            r matches Some(x) ==> x.spec_bits() == bits,
    ;
}

/// A number in single precision.
#[derive(Clone, Copy, Debug, PartialEq, Eq, Structural)]
pub struct Single {
    pub bits: u32,
}

/// A number in double precision.
#[derive(Clone, Copy, Debug, PartialEq, Eq, Structural)]
pub struct Double {
    pub bits: u64,
}

impl LuaRealField for Single {
    open spec fn spec_repr() -> Repr {
        Repr::F32
    }

    open spec fn spec_bits(self) -> u64 {
        self.bits as u64
    }

    fn repr() -> (r: Repr) {
        Repr::F32
    }

    fn to_bits(self) -> (bits: u64) {
        self.bits as u64
    }

    fn from_bits(bits: u64) -> (r: Option<Self>) {
        if bits <= 0xFFFF_FFFF {
            Some(Single { bits: bits as u32 })
        } else {
            None
        }
    }
}

impl LuaRealField for Double {
    open spec fn spec_repr() -> Repr {
        Repr::F64
    }

    open spec fn spec_bits(self) -> u64 {
        self.bits
    }

    fn repr() -> (r: Repr) {
        Repr::F64
    }

    fn to_bits(self) -> (bits: u64) {
        self.bits
    }

    fn from_bits(bits: u64) -> (r: Option<Self>) {
        Some(Double { bits })
    }
}

/// The number as a script value.
pub fn number<T: LuaRealField>(x: T) -> (r: Value)
    ensures
        r == Value::Number(x.spec_bits()),
{
    Value::Number(x.to_bits())
}

/// The vector with the given coordinates.
pub fn vector2<T: LuaRealField>(x: T, y: T) -> (r: NativeValue)
    ensures
        r.wf(),
        r == (NativeValue {
            repr: T::spec_repr(),
            body: Body::Vector2 { x: x.spec_bits(), y: y.spec_bits() },
        }),
{
    NativeValue { repr: T::repr(), body: Body::Vector2 { x: x.to_bits(), y: y.to_bits() } }
}

/// The vector with the given coordinates.
pub fn vector3<T: LuaRealField>(x: T, y: T, z: T) -> (r: NativeValue)
    ensures
        r.wf(),
        r == (NativeValue {
            repr: T::spec_repr(),
            body: Body::Vector3 { x: x.spec_bits(), y: y.spec_bits(), z: z.spec_bits() },
        }),
{
    NativeValue {
        repr: T::repr(),
        body: Body::Vector3 { x: x.to_bits(), y: y.to_bits(), z: z.to_bits() },
    }
}

} // verus!
