//! What a rigid transform of space shows to scripts.

use vstd::prelude::*;
use crate::capability::{Capability, CapabilitySet};
use crate::metatable::{Dispatch, MathOp, MethodSig, MethodTable, Op, Param};
use crate::call::{begin_spec, chosen_out, gather, Dest, RequestView, StepView};
use crate::error::BridgeError;
use crate::value::{Datum, NativeValue, Repr, TypeKey, TypeKind, Value};

verus! {

/// The capabilities that the type declares.
pub open spec fn capabilities() -> Set<Capability> {
    set![
        Capability::Clone,
        Capability::Copy,
        Capability::Send,
        Capability::Sync,
        Capability::Debug,
    ]
}

/// Composition and composition with an inverse. Both take the optional
/// output object as their first argument: a caller that wants none passes
/// nil there.
pub open spec fn instance_methods() -> Seq<MethodSig> {
    let t = Param::Object(TypeKind::Isometry3);
    seq![
        MethodSig {
            name: "mul"@,
            dispatch: Dispatch::Function,
            params: seq![Param::Out, t, t],
            op: Op::Math(MathOp::Mul),
        },
        MethodSig {
            name: "div"@,
            dispatch: Dispatch::Function,
            params: seq![Param::Out, t, t],
            op: Op::Math(MathOp::Div),
        },
    ]
}

/// The constructors: from a translation vector and an axis scaled by an
/// angle, from the coordinates of a translation, from an axis scaled by an
/// angle, and the identity.
pub open spec fn type_methods() -> Seq<MethodSig> {
    let v = Param::Object(TypeKind::Vector3);
    seq![
        MethodSig {
            name: "new"@,
            dispatch: Dispatch::Function,
            params: seq![v, v],
            op: Op::Math(MathOp::Compose),
        },
        MethodSig {
            name: "translation"@,
            dispatch: Dispatch::Function,
            params: seq![Param::Scalar, Param::Scalar, Param::Scalar],
            op: Op::Math(MathOp::Translation),
        },
        MethodSig {
            name: "rotation"@,
            dispatch: Dispatch::Function,
            params: seq![v],
            op: Op::Math(MathOp::Rotation),
        },
        MethodSig {
            name: "identity"@,
            dispatch: Dispatch::Function,
            params: Seq::<Param>::empty(),
            op: Op::Math(MathOp::Identity),
        },
    ]
}

/// Declares the capabilities of the type.
pub fn on_metatable_init(table: &mut CapabilitySet)
    requires
        old(table).wf(),
    ensures
        final(table).wf(),
        final(table)@ == old(table)@ + capabilities(),
{
    table.declare(Capability::Clone);
    table.declare(Capability::Copy);
    table.declare(Capability::Send);
    table.declare(Capability::Sync);
    table.declare(Capability::Debug);
    assert(table@ =~= old(table)@ + capabilities());
}

/// Adds the methods of a value.
pub fn add_methods(methods: &mut MethodTable)
    ensures
        final(methods)@ == old(methods)@ + instance_methods(),
{
    methods.add_function(
        "mul",
        vec![Param::Out, Param::Object(TypeKind::Isometry3), Param::Object(TypeKind::Isometry3)],
        Op::Math(MathOp::Mul),
    );
    methods.add_function(
        "div",
        vec![Param::Out, Param::Object(TypeKind::Isometry3), Param::Object(TypeKind::Isometry3)],
        Op::Math(MathOp::Div),
    );
    assert(final(methods)@ =~= old(methods)@ + instance_methods());
}

/// Adds the constructors.
pub fn add_type_methods(methods: &mut MethodTable)
    ensures
        final(methods)@ == old(methods)@ + type_methods(),
{
    methods.add_function(
        "new",
        vec![Param::Object(TypeKind::Vector3), Param::Object(TypeKind::Vector3)],
        Op::Math(MathOp::Compose),
    );
    methods.add_function(
        "translation",
        vec![Param::Scalar, Param::Scalar, Param::Scalar],
        Op::Math(MathOp::Translation),
    );
    methods.add_function(
        "rotation",
        vec![Param::Object(TypeKind::Vector3)],
        Op::Math(MathOp::Rotation),
    );
    methods.add_function("identity", Vec::new(), Op::Math(MathOp::Identity));
    proof {
        let base = old(methods)@;
        let added = type_methods();
        assert(added.len() == 4);
        assert(final(methods)@.len() == base.len() + 4);
        assert forall|k: int| 0 <= k < 4 implies final(methods)@[base.len() + k] == added[k] by {
            assert(added[k].params =~= final(methods)@[base.len() + k].params);
        }
        assert(final(methods)@ =~= base + added);
    }
}

/// `mul` and `div` take the object that receives the result first, or nil
/// in its place, and then two transforms. Either way the question asked
/// is the same; only the place of the answer differs.
pub proof fn law_mul_and_div_take_the_output_first(
    objects: Seq<NativeValue>,
    repr: Repr,
    a: usize,
    b: usize,
    out: usize,
    which: int,
)
    requires
        0 <= which <= 1,
        a < objects.len(),
        b < objects.len(),
        out < objects.len(),
        objects[a as int].spec_key() == (TypeKey { kind: TypeKind::Isometry3, repr }),
        objects[b as int].spec_key() == (TypeKey { kind: TypeKind::Isometry3, repr }),
        objects[out as int].spec_key() == (TypeKey { kind: TypeKind::Isometry3, repr }),
    ensures
        ({
            let key = TypeKey { kind: TypeKind::Isometry3, repr };
            let sig = instance_methods()[which];
            let op = if which == 0 {
                MathOp::Mul
            } else {
                MathOp::Div
            };
            let given = seq![Datum::Native(objects[a as int]), Datum::Native(objects[b as int])];
            &&& begin_spec(
                objects,
                key,
                sig,
                seq![Value::Object(out), Value::Object(a), Value::Object(b)],
            ) == Ok::<(Seq<NativeValue>, StepView), BridgeError>(
                (
                    objects,
                    StepView::Compute(
                        RequestView { op, key, operands: given, dest: Dest::Out(out) },
                    ),
                ),
            )
            &&& begin_spec(objects, key, sig, seq![Value::Nil, Value::Object(a), Value::Object(b)])
                == Ok::<(Seq<NativeValue>, StepView), BridgeError>(
                (
                    objects,
                    StepView::Compute(RequestView { op, key, operands: given, dest: Dest::Fresh }),
                ),
            )
        }),
{
    let key = TypeKey { kind: TypeKind::Isometry3, repr };
    let sig = instance_methods()[which];
    let with_out = seq![Value::Object(out), Value::Object(a), Value::Object(b)];
    let without = seq![Value::Nil, Value::Object(a), Value::Object(b)];
    let given = seq![Datum::Native(objects[a as int]), Datum::Native(objects[b as int])];
    reveal_with_fuel(gather, 4);
    reveal_with_fuel(chosen_out, 4);
    assert(crate::call::operands(objects, key, sig, with_out) =~= given);
    assert(crate::call::operands(objects, key, sig, without) =~= given);
}

} // verus!
