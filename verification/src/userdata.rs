//! One metatable per type: what each kind of native value declares, put
//! together from the tables of that kind.

use vstd::prelude::*;
use crate::capability::{Capability, CapabilitySet};
use crate::metatable::{FieldSig, FieldTable, MethodSig, MethodTable};
use crate::value::TypeKind;
use crate::{isometry2, isometry3, type_object, vector2, vector3};

verus! {

/// The capabilities that values of `kind` declare.
pub open spec fn capabilities_of(kind: TypeKind) -> Set<Capability> {
    match kind {
        TypeKind::Vector2 => vector2::capabilities(),
        TypeKind::Vector3 => vector3::capabilities(),
        TypeKind::Isometry2 => isometry2::capabilities(),
        TypeKind::Isometry3 => isometry3::capabilities(),
    }
}

/// The fields of values of `kind`.
pub open spec fn fields_of(kind: TypeKind) -> Seq<FieldSig> {
    match kind {
        TypeKind::Vector2 => vector2::fields(),
        TypeKind::Vector3 => vector3::fields(),
        TypeKind::Isometry2 => Seq::<FieldSig>::empty(),
        TypeKind::Isometry3 => Seq::<FieldSig>::empty(),
    }
}

/// The methods of values of `kind`.
pub open spec fn methods_of(kind: TypeKind) -> Seq<MethodSig> {
    match kind {
        TypeKind::Vector2 => vector2::instance_methods(),
        TypeKind::Vector3 => vector3::instance_methods(),
        TypeKind::Isometry2 => isometry2::instance_methods(),
        TypeKind::Isometry3 => isometry3::instance_methods(),
    }
}

/// The constructors of `kind`.
pub open spec fn type_methods_of(kind: TypeKind) -> Seq<MethodSig> {
    match kind {
        TypeKind::Vector2 => vector2::type_methods(),
        TypeKind::Vector3 => vector3::type_methods(),
        TypeKind::Isometry2 => isometry2::type_methods(),
        TypeKind::Isometry3 => isometry3::type_methods(),
    }
}

/// Declares the capabilities of `kind`.
pub fn on_metatable_init(kind: TypeKind, table: &mut CapabilitySet)
    requires
        old(table).wf(),
    ensures
        final(table).wf(),
        final(table)@ == old(table)@ + capabilities_of(kind),
{
    match kind {
        TypeKind::Vector2 => vector2::on_metatable_init(table),
        TypeKind::Vector3 => vector3::on_metatable_init(table),
        TypeKind::Isometry2 => isometry2::on_metatable_init(table),
        TypeKind::Isometry3 => isometry3::on_metatable_init(table),
    }
}

/// Adds the fields of `kind`.
pub fn add_fields(kind: TypeKind, fields: &mut FieldTable)
    ensures
        final(fields).getters() == old(fields).getters() + fields_of(kind),
        final(fields).setters() == old(fields).setters() + fields_of(kind),
{
    match kind {
        TypeKind::Vector2 => vector2::add_fields(fields),
        TypeKind::Vector3 => vector3::add_fields(fields),
        _ => {
            assert(fields.getters() =~= old(fields).getters() + fields_of(kind));
            assert(fields.setters() =~= old(fields).setters() + fields_of(kind));
        },
    }
}

/// Adds the methods of values of `kind`.
pub fn add_methods(kind: TypeKind, methods: &mut MethodTable)
    ensures
        final(methods)@ == old(methods)@ + methods_of(kind),
{
    match kind {
        TypeKind::Vector2 => vector2::add_methods(methods),
        TypeKind::Vector3 => vector3::add_methods(methods),
        TypeKind::Isometry2 => isometry2::add_methods(methods),
        TypeKind::Isometry3 => isometry3::add_methods(methods),
    }
}

/// Adds the constructors of `kind`.
pub fn add_type_methods(kind: TypeKind, methods: &mut MethodTable)
    ensures
        final(methods)@ == old(methods)@ + type_methods_of(kind),
{
    match kind {
        TypeKind::Vector2 => vector2::add_type_methods(methods),
        TypeKind::Vector3 => vector3::add_type_methods(methods),
        TypeKind::Isometry2 => isometry2::add_type_methods(methods),
        TypeKind::Isometry3 => isometry3::add_type_methods(methods),
    }
}

/// Everything that one type shows to scripts.
#[derive(Debug)]
pub struct Metatable {
    pub capabilities: CapabilitySet,
    pub fields: FieldTable,
    pub methods: MethodTable,
}

impl Metatable {
    /// The metatable is that of the values of `kind`.
    pub open spec fn describes(&self, kind: TypeKind) -> bool {
        &&& self.capabilities.wf()
        &&& self.capabilities@ == capabilities_of(kind)
        &&& self.fields.getters() == fields_of(kind)
        &&& self.fields.setters() == fields_of(kind)
        &&& self.methods@ == methods_of(kind)
    }

    /// The metatable is that of the object that stands for the type
    /// `kind` itself.
    pub open spec fn describes_type(&self, kind: TypeKind) -> bool {
        &&& self.capabilities.wf()
        &&& self.capabilities@ == type_object::capabilities()
        &&& self.fields.getters() == Seq::<FieldSig>::empty()
        &&& self.fields.setters() == Seq::<FieldSig>::empty()
        &&& self.methods@ == type_object::methods(kind)
    }

    /// The metatable of the values of `kind`.
    pub fn of(kind: TypeKind) -> (r: Metatable)
        ensures
            r.describes(kind),
    {
        let mut capabilities = CapabilitySet::new();
        let mut fields = FieldTable::new();
        let mut methods = MethodTable::new();
        on_metatable_init(kind, &mut capabilities);
        add_fields(kind, &mut fields);
        add_methods(kind, &mut methods);
        assert(capabilities@ =~= capabilities_of(kind));
        assert(fields.getters() =~= fields_of(kind));
        assert(fields.setters() =~= fields_of(kind));
        assert(methods@ =~= methods_of(kind));
        Metatable { capabilities, fields, methods }
    }

    /// The metatable of the object that stands for the type `kind`.
    pub fn of_type(kind: TypeKind) -> (r: Metatable)
        ensures
            r.describes_type(kind),
    {
        let mut capabilities = CapabilitySet::new();
        let mut fields = FieldTable::new();
        let mut methods = MethodTable::new();
        type_object::on_metatable_init(&mut capabilities);
        type_object::add_fields(kind, &mut fields);
        type_object::add_methods(kind, &mut methods);
        assert(capabilities@ =~= type_object::capabilities());
        assert(methods@ =~= type_object::methods(kind));
        Metatable { capabilities, fields, methods }
    }
}

} // verus!
