//! Points.
//!
//! A point has no object of its own. Where a point crosses to a script it
//! goes as the vector of its coordinates, and where one comes back a
//! vector is taken for it.

use vstd::prelude::*;
use crate::error::BridgeError;
use crate::store::{from_lua_spec, ObjectStore};
use crate::value::{Body, NativeValue, Repr, TypeKey, TypeKind, Value};

verus! {

/// A point of the plane.
#[derive(Clone, Copy, Debug, PartialEq, Eq, Structural)]
pub struct Point2 {
    pub repr: Repr,
    pub x: u64,
    pub y: u64,
}

/// A point of space.
#[derive(Clone, Copy, Debug, PartialEq, Eq, Structural)]
pub struct Point3 {
    pub repr: Repr,
    pub x: u64,
    pub y: u64,
    pub z: u64,
}

impl Point2 {
    /// The vector of the coordinates of the point.
    pub open spec fn spec_coords(self) -> NativeValue {
        NativeValue { repr: self.repr, body: Body::Vector2 { x: self.x, y: self.y } }
    }

    /// The point whose coordinates are those of `coords`. Where `coords`
    /// is no vector of the plane there is none.
    pub open spec fn of_coords(coords: NativeValue) -> Option<Point2> {
        match coords.body {
            Body::Vector2 { x, y } => Some(Point2 { repr: coords.repr, x, y }),
            _ => None,
        }
    }

    /// The vector of the coordinates of the point.
    pub fn coords(self) -> (r: NativeValue)
        ensures
            r == self.spec_coords(),
    {
        NativeValue { repr: self.repr, body: Body::Vector2 { x: self.x, y: self.y } }
    }

    /// Takes the point from the vector object that `value` names.
    pub fn from_lua(store: &ObjectStore, repr: Repr, value: Value) -> (r: Result<
        Point2,
        BridgeError,
    >)
        ensures
            match from_lua_spec(store@, TypeKey { kind: TypeKind::Vector2, repr }, value) {
                Ok(coords) => r is Ok && Some(r->Ok_0) == Point2::of_coords(coords),
                Err(e) => r == Err::<Point2, BridgeError>(e),
            },
    {
        match store.from_lua(TypeKey { kind: TypeKind::Vector2, repr }, value) {
            Ok(coords) => match coords.body {
                Body::Vector2 { x, y } => Ok(Point2 { repr: coords.repr, x, y }),
                _ => Err(BridgeError::TypeMismatch),
            },
            Err(e) => Err(e),
        }
    }

    /// Hands the point to scripts as a new vector object.
    pub fn to_lua(self, store: &mut ObjectStore) -> (r: Result<Value, BridgeError>)
        requires
            old(store).wf(),
        ensures
            final(store).wf(),
            self.spec_coords().wf() ==> r == Ok::<Value, BridgeError>(
                Value::Object(old(store)@.len() as usize),
            ) && final(store)@ == old(store)@.push(self.spec_coords()),
            !self.spec_coords().wf() ==> r == Err::<Value, BridgeError>(BridgeError::TypeMismatch)
                && final(store)@ == old(store)@,
    {
        store.to_lua(self.coords())
    }
}

impl Point3 {
    /// The vector of the coordinates of the point.
    pub open spec fn spec_coords(self) -> NativeValue {
        NativeValue { repr: self.repr, body: Body::Vector3 { x: self.x, y: self.y, z: self.z } }
    }

    /// The point whose coordinates are those of `coords`. Where `coords`
    /// is no vector of space there is none.
    pub open spec fn of_coords(coords: NativeValue) -> Option<Point3> {
        match coords.body {
            Body::Vector3 { x, y, z } => Some(Point3 { repr: coords.repr, x, y, z }),
            _ => None,
        }
    }

    /// The vector of the coordinates of the point.
    pub fn coords(self) -> (r: NativeValue)
        ensures
            r == self.spec_coords(),
    {
        NativeValue { repr: self.repr, body: Body::Vector3 { x: self.x, y: self.y, z: self.z } }
    }

    /// Takes the point from the vector object that `value` names.
    pub fn from_lua(store: &ObjectStore, repr: Repr, value: Value) -> (r: Result<
        Point3,
        BridgeError,
    >)
        ensures
            match from_lua_spec(store@, TypeKey { kind: TypeKind::Vector3, repr }, value) {
                Ok(coords) => r is Ok && Some(r->Ok_0) == Point3::of_coords(coords),
                Err(e) => r == Err::<Point3, BridgeError>(e),
            },
    {
        match store.from_lua(TypeKey { kind: TypeKind::Vector3, repr }, value) {
            Ok(coords) => match coords.body {
                Body::Vector3 { x, y, z } => Ok(Point3 { repr: coords.repr, x, y, z }),
                _ => Err(BridgeError::TypeMismatch),
            },
            Err(e) => Err(e),
        }
    }

    /// Hands the point to scripts as a new vector object.
    pub fn to_lua(self, store: &mut ObjectStore) -> (r: Result<Value, BridgeError>)
        requires
            old(store).wf(),
        ensures
            final(store).wf(),
            self.spec_coords().wf() ==> r == Ok::<Value, BridgeError>(
                Value::Object(old(store)@.len() as usize),
            ) && final(store)@ == old(store)@.push(self.spec_coords()),
            !self.spec_coords().wf() ==> r == Err::<Value, BridgeError>(BridgeError::TypeMismatch)
                && final(store)@ == old(store)@,
    {
        store.to_lua(self.coords())
    }
}

} // verus!
