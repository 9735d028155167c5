//! The script objects that hold native values.
//!
//! An object is made when a script constructs or receives a value, and it
//! is known by its handle from then on. The store only grows, and an object
//! never changes its type: whoever holds a handle finds an object of the
//! same type under it, whatever has been written to it in between.

use vstd::prelude::*;
use crate::error::BridgeError;
use crate::value::{NativeValue, TypeKey, Value};

verus! {

/// What reading the object under `handle` as a value of type `key` gives.
pub open spec fn read_object(objects: Seq<NativeValue>, handle: int, key: TypeKey) -> Result<
    NativeValue,
    BridgeError,
> {
    if 0 <= handle < objects.len() && objects[handle].spec_key() == key {
        Ok(objects[handle])
    } else {
        Err(BridgeError::TypeMismatch)
    }
}

/// What taking the script value `value` as a native value of type `key`
/// gives: a copy of the value of the object it names.
pub open spec fn from_lua_spec(objects: Seq<NativeValue>, key: TypeKey, value: Value) -> Result<
    NativeValue,
    BridgeError,
> {
    match value {
        Value::Object(handle) => read_object(objects, handle as int, key),
        _ => Err(BridgeError::TypeMismatch),
    }
}

/// Whether `value` may replace the value of the object under `handle`: the
/// object exists, the value is well formed and of the object's type.
pub open spec fn can_replace(objects: Seq<NativeValue>, handle: int, value: NativeValue) -> bool {
    &&& 0 <= handle < objects.len()
    &&& value.wf()
    &&& objects[handle].spec_key() == value.spec_key()
}

/// The objects of one script runtime, by handle.
#[derive(Debug)]
pub struct ObjectStore {
    slots: Vec<NativeValue>,
}

impl View for ObjectStore {
    type V = Seq<NativeValue>;

    closed spec fn view(&self) -> Seq<NativeValue> {
        self.slots@
    }
}

impl ObjectStore {
    /// Every object holds a well-formed value.
    pub open spec fn wf(&self) -> bool {
        forall|i: int| 0 <= i < self@.len() ==> (#[trigger] self@[i]).wf()
    }

    /// The store without objects.
    pub fn new() -> (r: ObjectStore)
        ensures
            r.wf(),
            r@ == Seq::<NativeValue>::empty(),
    {
        ObjectStore { slots: Vec::new() }
    }

    /// The number of objects, which is also the next handle to be given
    /// out.
    pub fn len(&self) -> (r: usize)
        ensures
            r == self@.len(),
    {
        self.slots.len()
    }

    /// Makes a new object that holds `value`, and returns its handle. A
    /// value that is not well formed is refused.
    pub fn create_userdata(&mut self, value: NativeValue) -> (r: Result<usize, BridgeError>)
        requires
            old(self).wf(),
        ensures
            final(self).wf(),
            value.wf() ==> r == Ok::<usize, BridgeError>(old(self)@.len() as usize)
                && final(self)@ == old(self)@.push(value),
            !value.wf() ==> r == Err::<usize, BridgeError>(BridgeError::TypeMismatch)
                && final(self)@ == old(self)@,
    {
        if !value.is_well_formed() {
            return Err(BridgeError::TypeMismatch);
        }
        let handle = self.slots.len();
        self.slots.push(value);
        proof {
            assert forall|i: int| 0 <= i < self@.len() implies (#[trigger] self@[i]).wf() by {
                if i < old(self)@.len() {
                    assert(self@[i] == old(self)@[i]);
                }
            }
        }
        Ok(handle)
    }

    /// The value of the object under `handle`, if there is such an object.
    pub fn get(&self, handle: usize) -> (r: Option<NativeValue>)
        ensures
            r == if handle < self@.len() {
                Some(self@[handle as int])
            } else {
                None
            },
    {
        if handle < self.slots.len() {
            Some(self.slots[handle])
        } else {
            None
        }
    }

    /// A copy of the value of the object under `handle`, taken as a value
    /// of type `key`.
    pub fn borrow(&self, handle: usize, key: TypeKey) -> (r: Result<NativeValue, BridgeError>)
        ensures
            r == read_object(self@, handle as int, key),
    {
        if handle < self.slots.len() {
            let value = self.slots[handle];
            let found = value.key();
            if found == key {
                return Ok(value);
            }
        }
        Err(BridgeError::TypeMismatch)
    }

    /// Takes a script value as a native value of type `key`. The value is
    /// copied out of the object that the script value names.
    pub fn from_lua(&self, key: TypeKey, value: Value) -> (r: Result<NativeValue, BridgeError>)
        ensures
            r == from_lua_spec(self@, key, value),
    {
        match value {
            Value::Object(handle) => self.borrow(handle, key),
            _ => Err(BridgeError::TypeMismatch),
        }
    }

    /// Hands a native value to scripts: a new object is made for it.
    pub fn to_lua(&mut self, value: NativeValue) -> (r: Result<Value, BridgeError>)
        requires
            old(self).wf(),
        ensures
            final(self).wf(),
            value.wf() ==> r == Ok::<Value, BridgeError>(
                Value::Object(old(self)@.len() as usize),
            ) && final(self)@ == old(self)@.push(value),
            !value.wf() ==> r == Err::<Value, BridgeError>(BridgeError::TypeMismatch)
                && final(self)@ == old(self)@,
    {
        match self.create_userdata(value) {
            Ok(handle) => Ok(Value::Object(handle)),
            Err(e) => Err(e),
        }
    }

    /// Replaces the value of the object under `handle`. The object keeps
    /// its handle and its type, and no other object changes.
    pub fn replace(&mut self, handle: usize, value: NativeValue) -> (r: Result<(), BridgeError>)
        requires
            old(self).wf(),
        ensures
            final(self).wf(),
            can_replace(old(self)@, handle as int, value) ==> r == Ok::<(), BridgeError>(())
                && final(self)@ == old(self)@.update(handle as int, value),
            !can_replace(old(self)@, handle as int, value) ==> r == Err::<(), BridgeError>(
                BridgeError::TypeMismatch,
            ) && final(self)@ == old(self)@,
    {
        if handle >= self.slots.len() || !value.is_well_formed() {
            return Err(BridgeError::TypeMismatch);
        }
        let found = self.slots[handle].key();
        let given = value.key();
        if found != given {
            return Err(BridgeError::TypeMismatch);
        }
        self.slots.set(handle, value);
        proof {
            assert forall|i: int| 0 <= i < self@.len() implies (#[trigger] self@[i]).wf() by {
                if i != handle {
                    assert(self@[i] == old(self)@[i]);
                }
            }
        }
        Ok(())
    }
}

} // verus!
