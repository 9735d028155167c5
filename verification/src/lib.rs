//! A bridge between native geometric value types and a dynamically typed
//! scripting runtime.
//!
//! The bridge never computes with the numbers it carries: a coordinate is a
//! word of bits in one of the supported numeric representations, and every
//! arithmetic step is handed out as a [`call::Request`] for a math
//! collaborator to perform. What the bridge decides is everything around
//! that step: which arguments a call takes and of what type, where a result
//! is stored, which capabilities a type declares, how a type's identity
//! crosses the boundary, and which constructors a namespace lists.

pub mod call;
pub mod capability;
pub mod error;
pub mod isometry2;
pub mod isometry3;
pub mod metatable;
pub mod namespace;
pub mod point;
pub mod scalar;
pub mod registry;
pub mod store;
pub mod text;
pub mod type_object;
pub mod userdata;
pub mod value;
pub mod vector2;
pub mod vector3;

pub use error::{BridgeError, LookupError};
pub use namespace::{table, Module, Namespace};
pub use point::{Point2, Point3};
pub use scalar::{Double, LuaRealField, Single};
pub use store::ObjectStore;
pub use type_object::{MetaType, Type};
pub use value::{Body, Datum, NativeValue, Repr, TypeKey, TypeKind, Value};
