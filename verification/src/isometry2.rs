//! What a rigid transform of the plane shows to scripts.

use vstd::prelude::*;
use crate::capability::{Capability, CapabilitySet};
use crate::metatable::{Dispatch, MathOp, MethodSig, MethodTable, Op, Param};
use crate::value::TypeKind;

verus! {

/// The capabilities that the type declares.
pub open spec fn capabilities() -> Set<Capability> {
    set![
        Capability::Clone,
        Capability::Copy,
        Capability::Send,
        Capability::Sync,
        Capability::Debug,
    ]
}

/// A value has no methods: its translation and rotation are its own.
pub open spec fn instance_methods() -> Seq<MethodSig> {
    Seq::<MethodSig>::empty()
}

/// The constructors: from a translation vector and an angle, from the
/// coordinates of a translation, from an angle, and the identity.
pub open spec fn type_methods() -> Seq<MethodSig> {
    seq![
        MethodSig {
            name: "new"@,
            dispatch: Dispatch::Function,
            params: seq![Param::Object(TypeKind::Vector2), Param::Scalar],
            op: Op::Math(MathOp::Compose),
        },
        MethodSig {
            name: "translation"@,
            dispatch: Dispatch::Function,
            params: seq![Param::Scalar, Param::Scalar],
            op: Op::Math(MathOp::Translation),
        },
        MethodSig {
            name: "rotation"@,
            dispatch: Dispatch::Function,
            params: seq![Param::Scalar],
            op: Op::Math(MathOp::Rotation),
        },
        MethodSig {
            name: "identity"@,
            dispatch: Dispatch::Function,
            params: Seq::<Param>::empty(),
            op: Op::Math(MathOp::Identity),
        },
    ]
}

/// Declares the capabilities of the type.
pub fn on_metatable_init(table: &mut CapabilitySet)
    requires
        old(table).wf(),
    ensures
        final(table).wf(),
        final(table)@ == old(table)@ + capabilities(),
{
    table.declare(Capability::Clone);
    table.declare(Capability::Copy);
    table.declare(Capability::Send);
    table.declare(Capability::Sync);
    table.declare(Capability::Debug);
    assert(table@ =~= old(table)@ + capabilities());
}

/// Adds the methods of a value.
pub fn add_methods(methods: &mut MethodTable)
    ensures
        final(methods)@ == old(methods)@ + instance_methods(),
{
    assert(methods@ =~= old(methods)@ + instance_methods());
}

/// Adds the constructors.
pub fn add_type_methods(methods: &mut MethodTable)
    ensures
        final(methods)@ == old(methods)@ + type_methods(),
{
    methods.add_function(
        "new",
        vec![Param::Object(TypeKind::Vector2), Param::Scalar],
        Op::Math(MathOp::Compose),
    );
    methods.add_function(
        "translation",
        vec![Param::Scalar, Param::Scalar],
        Op::Math(MathOp::Translation),
    );
    methods.add_function("rotation", vec![Param::Scalar], Op::Math(MathOp::Rotation));
    methods.add_function("identity", Vec::new(), Op::Math(MathOp::Identity));
    proof {
        let base = old(methods)@;
        let added = type_methods();
        assert(added.len() == 4);
        assert(final(methods)@.len() == base.len() + 4);
        assert forall|k: int| 0 <= k < 4 implies final(methods)@[base.len() + k] == added[k] by {
            assert(added[k].params =~= final(methods)@[base.len() + k].params);
        }
        assert(final(methods)@ =~= base + added);
    }
}

} // verus!
