//! What the object that stands for a type shows to scripts: the
//! constructors of the type, and a conversion from any object.

use vstd::prelude::*;
use crate::capability::{Capability, CapabilitySet};
use crate::metatable::{Dispatch, FieldTable, MethodSig, MethodTable, Op, Param};
use crate::registry::{of_spec, Registry};
use crate::userdata;
use crate::value::{TypeKey, TypeKind};

verus! {

/// The capabilities that a type object declares, whatever type it stands
/// for.
pub open spec fn capabilities() -> Set<Capability> {
    set![
        Capability::Clone,
        Capability::Copy,
        Capability::Send,
        Capability::Sync,
        Capability::MetaType,
    ]
}

/// The conversion: it takes any object and gives a new object of the type,
/// or fails where the object is of another type.
pub open spec fn from_method() -> MethodSig {
    MethodSig {
        name: "from"@,
        dispatch: Dispatch::Function,
        params: seq![Param::Any],
        op: Op::Convert,
    }
}

/// The methods of the object that stands for `kind`: the conversion, then
/// the constructors of the kind.
pub open spec fn methods(kind: TypeKind) -> Seq<MethodSig> {
    seq![from_method()] + userdata::type_methods_of(kind)
}

/// The object that stands for one concrete type. A namespace hands it out
/// as the constructor of the type.
#[derive(Clone, Copy, Debug, PartialEq, Eq, Structural)]
pub struct Type {
    pub key: TypeKey,
}

/// A value that stands for a type and can name the descriptor of the type
/// it stands for.
pub trait MetaType {
    /// The type that the value stands for.
    spec fn subject(&self) -> TypeKey;

    /// The token of the descriptor of the subject. The descriptor is made
    /// if the type was never asked for before.
    fn type_table_of_subject(&self, registry: &mut Registry) -> (token: usize)
        requires
            old(registry).wf(),
        ensures
            final(registry).wf(),
            (final(registry)@, token as int) == of_spec(old(registry)@, self.subject()),
    ;
}

impl MetaType for Type {
    open spec fn subject(&self) -> TypeKey {
        self.key
    }

    fn type_table_of_subject(&self, registry: &mut Registry) -> (token: usize) {
        registry.of(self.key)
    }
}

/// Declares the capabilities of the type.
pub fn on_metatable_init(table: &mut CapabilitySet)
    requires
        old(table).wf(),
    ensures
        final(table).wf(),
        final(table)@ == old(table)@ + capabilities(),
{
    table.declare(Capability::Clone);
    table.declare(Capability::Copy);
    table.declare(Capability::Send);
    table.declare(Capability::Sync);
    table.declare(Capability::MetaType);
    assert(table@ =~= old(table)@ + capabilities());
}

/// No kind gives its type object a field.
pub fn add_fields(kind: TypeKind, fields: &mut FieldTable)
    ensures
        final(fields).getters() == old(fields).getters(),
        final(fields).setters() == old(fields).setters(),
{
}

/// Adds the conversion and the constructors of `kind`.
pub fn add_methods(kind: TypeKind, methods: &mut MethodTable)
    ensures
        final(methods)@ == old(methods)@ + self::methods(kind),
{
    methods.add_function("from", vec![Param::Any], Op::Convert);
    proof {
        assert(methods@[old(methods)@.len() as int].params =~= from_method().params);
        assert(methods@ =~= old(methods)@ + seq![from_method()]);
    }
    userdata::add_type_methods(kind, methods);
    assert(final(methods)@ =~= old(methods)@ + self::methods(kind));
}

} // verus!
