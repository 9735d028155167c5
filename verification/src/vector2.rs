//! What a vector of two coordinates shows to scripts.

use vstd::prelude::*;
use crate::capability::{Capability, CapabilitySet};
use crate::metatable::{
    Dispatch, FieldSig, FieldTable, MathOp, MetaMethod, MethodSig, MethodTable, Op, Param,
};
use crate::call::{
    begin_spec, chosen_out, finish_spec, gather, scalars, Dest, RequestView, StepView,
};
use crate::error::BridgeError;
use crate::value::{Body, Datum, NativeValue, Repr, TypeKey, TypeKind, Value};

verus! {

/// The capabilities that the type declares.
pub open spec fn capabilities() -> Set<Capability> {
    set![
        Capability::Clone,
        Capability::Copy,
        Capability::Send,
        Capability::Sync,
        Capability::Debug,
    ]
}

/// The coordinates, each readable and writable under its name.
pub open spec fn fields() -> Seq<FieldSig> {
    seq![FieldSig { name: "x"@, index: 0 }, FieldSig { name: "y"@, index: 1 }]
}

/// The methods of a value. `add` and `sub` take the optional output object
/// as their last argument.
pub open spec fn instance_methods() -> Seq<MethodSig> {
    let v = Param::Object(TypeKind::Vector2);
    seq![
        MethodSig {
            name: "set"@,
            dispatch: Dispatch::MethodMut,
            params: seq![Param::Scalar, Param::Scalar],
            op: Op::Pack,
        },
        MethodSig {
            name: "add"@,
            dispatch: Dispatch::Function,
            params: seq![v, v, Param::Out],
            op: Op::Math(MathOp::Add),
        },
        MethodSig {
            name: "sub"@,
            dispatch: Dispatch::Function,
            params: seq![v, v, Param::Out],
            op: Op::Math(MathOp::Sub),
        },
        MethodSig {
            name: "__add"@,
            dispatch: Dispatch::Function,
            params: seq![v, v],
            op: Op::Math(MathOp::Add),
        },
        MethodSig {
            name: "__sub"@,
            dispatch: Dispatch::Function,
            params: seq![v, v],
            op: Op::Math(MathOp::Sub),
        },
        MethodSig {
            name: "__unm"@,
            dispatch: Dispatch::Function,
            params: seq![v],
            op: Op::Math(MathOp::Neg),
        },
        MethodSig {
            name: "normalize_mut"@,
            dispatch: Dispatch::MethodMut,
            params: Seq::<Param>::empty(),
            op: Op::Math(MathOp::Normalize),
        },
        MethodSig {
            name: "norm"@,
            dispatch: Dispatch::Method,
            params: Seq::<Param>::empty(),
            op: Op::Math(MathOp::Norm),
        },
    ]
}

/// The constructors, reached through the type and not through a value.
pub open spec fn type_methods() -> Seq<MethodSig> {
    seq![
        MethodSig {
            name: "new"@,
            dispatch: Dispatch::Function,
            params: seq![Param::Scalar, Param::Scalar],
            op: Op::Pack,
        },
        MethodSig {
            name: "zeros"@,
            dispatch: Dispatch::Function,
            params: Seq::<Param>::empty(),
            op: Op::Math(MathOp::Zeros),
        },
        MethodSig {
            name: "x_axis"@,
            dispatch: Dispatch::Function,
            params: Seq::<Param>::empty(),
            op: Op::Math(MathOp::XAxis),
        },
        MethodSig {
            name: "y_axis"@,
            dispatch: Dispatch::Function,
            params: Seq::<Param>::empty(),
            op: Op::Math(MathOp::YAxis),
        },
    ]
}

/// Declares the capabilities of the type.
pub fn on_metatable_init(table: &mut CapabilitySet)
    requires
        old(table).wf(),
    ensures
        final(table).wf(),
        final(table)@ == old(table)@ + capabilities(),
{
    table.declare(Capability::Clone);
    table.declare(Capability::Copy);
    table.declare(Capability::Send);
    table.declare(Capability::Sync);
    table.declare(Capability::Debug);
    assert(table@ =~= old(table)@ + capabilities());
}

/// Adds the coordinates as fields.
pub fn add_fields(fields: &mut FieldTable)
    ensures
        final(fields).getters() == old(fields).getters() + self::fields(),
        final(fields).setters() == old(fields).setters() + self::fields(),
{
    fields.add_field_method_get("x", 0);
    fields.add_field_method_set("x", 0);
    fields.add_field_method_get("y", 1);
    fields.add_field_method_set("y", 1);
    assert(fields.getters() =~= old(fields).getters() + self::fields());
    assert(fields.setters() =~= old(fields).setters() + self::fields());
}

/// Adds the methods of a value.
pub fn add_methods(methods: &mut MethodTable)
    ensures
        final(methods)@ == old(methods)@ + instance_methods(),
{
    methods.add_method_mut("set", vec![Param::Scalar, Param::Scalar], Op::Pack);
    methods.add_function(
        "add",
        vec![Param::Object(TypeKind::Vector2), Param::Object(TypeKind::Vector2), Param::Out],
        Op::Math(MathOp::Add),
    );
    methods.add_function(
        "sub",
        vec![Param::Object(TypeKind::Vector2), Param::Object(TypeKind::Vector2), Param::Out],
        Op::Math(MathOp::Sub),
    );
    methods.add_meta_function(
        MetaMethod::Add,
        vec![Param::Object(TypeKind::Vector2), Param::Object(TypeKind::Vector2)],
        Op::Math(MathOp::Add),
    );
    methods.add_meta_function(
        MetaMethod::Sub,
        vec![Param::Object(TypeKind::Vector2), Param::Object(TypeKind::Vector2)],
        Op::Math(MathOp::Sub),
    );
    methods.add_meta_function(
        MetaMethod::Unm,
        vec![Param::Object(TypeKind::Vector2)],
        Op::Math(MathOp::Neg),
    );
    methods.add_method_mut("normalize_mut", Vec::new(), Op::Math(MathOp::Normalize));
    methods.add_method("norm", Vec::new(), Op::Math(MathOp::Norm));
    proof {
        let base = old(methods)@;
        let added = instance_methods();
        assert(added.len() == 8);
        assert(final(methods)@.len() == base.len() + 8);
        assert forall|k: int| 0 <= k < 8 implies final(methods)@[base.len() + k] == added[k] by {
            assert(added[k].params =~= final(methods)@[base.len() + k].params);
        }
        assert(final(methods)@ =~= base + added);
    }
}

/// Adds the constructors.
pub fn add_type_methods(methods: &mut MethodTable)
    ensures
        final(methods)@ == old(methods)@ + type_methods(),
{
    methods.add_function("new", vec![Param::Scalar, Param::Scalar], Op::Pack);
    methods.add_function("zeros", Vec::new(), Op::Math(MathOp::Zeros));
    methods.add_function("x_axis", Vec::new(), Op::Math(MathOp::XAxis));
    methods.add_function("y_axis", Vec::new(), Op::Math(MathOp::YAxis));
    assert(final(methods)@ =~= old(methods)@ + type_methods());
}

/// `set` always succeeds on an object of the type and numbers of its
/// representation: the object then holds exactly the coordinates passed,
/// no object is made, and nothing is returned.
pub proof fn law_set_replaces_the_value(
    objects: Seq<NativeValue>,
    repr: Repr,
    handle: usize,
    x: u64,
    y: u64,
)
    requires
        handle < objects.len(),
        objects[handle as int].spec_key() == (TypeKey { kind: TypeKind::Vector2, repr }),
        repr.fits(x),
        repr.fits(y),
    ensures
        begin_spec(
            objects,
            TypeKey { kind: TypeKind::Vector2, repr },
            instance_methods()[0],
            seq![Value::Object(handle), Value::Number(x), Value::Number(y)],
        ) == Ok::<(Seq<NativeValue>, StepView), BridgeError>(
            (
                objects.update(handle as int, NativeValue { repr, body: Body::Vector2 { x, y } }),
                StepView::Done(Value::Nil),
            ),
        ),
{
    let key = TypeKey { kind: TypeKind::Vector2, repr };
    let sig = instance_methods()[0];
    let args = seq![Value::Object(handle), Value::Number(x), Value::Number(y)];
    reveal_with_fuel(gather, 3);
    reveal_with_fuel(scalars, 4);
    let given = crate::call::operands(objects, key, sig, args);
    assert(given =~= seq![
        Datum::Native(objects[handle as int]),
        Datum::Scalar(x),
        Datum::Scalar(y),
    ]);
    assert(scalars(given, given.len()) =~= seq![x, y]);
}

/// `add` and `sub` take two vectors and then, optionally, the object that
/// receives the result. Either way the question asked is the same; only
/// the place of the answer differs.
pub proof fn law_add_and_sub_take_the_output_last(
    objects: Seq<NativeValue>,
    repr: Repr,
    a: usize,
    b: usize,
    out: usize,
    which: int,
)
    requires
        1 <= which <= 2,
        a < objects.len(),
        b < objects.len(),
        out < objects.len(),
        objects[a as int].spec_key() == (TypeKey { kind: TypeKind::Vector2, repr }),
        objects[b as int].spec_key() == (TypeKey { kind: TypeKind::Vector2, repr }),
        objects[out as int].spec_key() == (TypeKey { kind: TypeKind::Vector2, repr }),
    ensures
        ({
            let key = TypeKey { kind: TypeKind::Vector2, repr };
            let sig = instance_methods()[which];
            let op = if which == 1 {
                MathOp::Add
            } else {
                MathOp::Sub
            };
            let given = seq![Datum::Native(objects[a as int]), Datum::Native(objects[b as int])];
            &&& begin_spec(
                objects,
                key,
                sig,
                seq![Value::Object(a), Value::Object(b), Value::Object(out)],
            ) == Ok::<(Seq<NativeValue>, StepView), BridgeError>(
                (
                    objects,
                    StepView::Compute(
                        RequestView { op, key, operands: given, dest: Dest::Out(out) },
                    ),
                ),
            )
            &&& begin_spec(objects, key, sig, seq![Value::Object(a), Value::Object(b)]) == Ok::<
                (Seq<NativeValue>, StepView),
                BridgeError,
            >(
                (
                    objects,
                    StepView::Compute(RequestView { op, key, operands: given, dest: Dest::Fresh }),
                ),
            )
        }),
{
    let key = TypeKey { kind: TypeKind::Vector2, repr };
    let sig = instance_methods()[which];
    let with_out = seq![Value::Object(a), Value::Object(b), Value::Object(out)];
    let without = seq![Value::Object(a), Value::Object(b)];
    let given = seq![Datum::Native(objects[a as int]), Datum::Native(objects[b as int])];
    reveal_with_fuel(gather, 4);
    reveal_with_fuel(chosen_out, 4);
    assert(crate::call::operands(objects, key, sig, with_out) =~= given);
    assert(crate::call::operands(objects, key, sig, without) =~= given);
}

/// `norm` reads the object addressed and changes nothing: it asks for the
/// length of the value and hands the number back. `normalize_mut` asks
/// for the value rescaled and stores it in the object addressed: no
/// object is made and nothing is returned.
pub proof fn law_norm_reads_and_normalize_mut_writes_in_place(
    objects: Seq<NativeValue>,
    repr: Repr,
    handle: usize,
    length: u64,
    rescaled: NativeValue,
)
    requires
        handle < objects.len(),
        objects[handle as int].spec_key() == (TypeKey { kind: TypeKind::Vector2, repr }),
        repr.fits(length),
        rescaled.wf(),
        rescaled.spec_key() == (TypeKey { kind: TypeKind::Vector2, repr }),
    ensures
        ({
            let key = TypeKey { kind: TypeKind::Vector2, repr };
            let given = seq![Datum::Native(objects[handle as int])];
            let measure = RequestView {
                op: MathOp::Norm,
                key,
                operands: given,
                dest: Dest::Scalar,
            };
            let rescale = RequestView {
                op: MathOp::Normalize,
                key,
                operands: given,
                dest: Dest::Receiver(handle),
            };
            &&& begin_spec(objects, key, instance_methods()[7], seq![Value::Object(handle)])
                == Ok::<(Seq<NativeValue>, StepView), BridgeError>(
                (objects, StepView::Compute(measure)),
            )
            &&& finish_spec(objects, measure, Datum::Scalar(length)) == Ok::<
                (Seq<NativeValue>, Value),
                BridgeError,
            >((objects, Value::Number(length)))
            &&& begin_spec(objects, key, instance_methods()[6], seq![Value::Object(handle)])
                == Ok::<(Seq<NativeValue>, StepView), BridgeError>(
                (objects, StepView::Compute(rescale)),
            )
            &&& finish_spec(objects, rescale, Datum::Native(rescaled)) == Ok::<
                (Seq<NativeValue>, Value),
                BridgeError,
            >((objects.update(handle as int, rescaled), Value::Nil))
        }),
{
    let key = TypeKey { kind: TypeKind::Vector2, repr };
    let args = seq![Value::Object(handle)];
    let given = seq![Datum::Native(objects[handle as int])];
    reveal_with_fuel(gather, 2);
    reveal_with_fuel(chosen_out, 2);
    assert(crate::call::operands(objects, key, instance_methods()[7], args) =~= given);
    assert(crate::call::operands(objects, key, instance_methods()[6], args) =~= given);
}

} // verus!
