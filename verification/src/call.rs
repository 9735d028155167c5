//! Calls from scripts, bound and carried out.
//!
//! A call comes in as a method and a list of script values. Binding checks
//! every argument against the method's parameters and copies the operands
//! out of the objects that hold them. A method that only moves numbers
//! around is then finished at once. Any other is handed out as a
//! [`Request`]: the caller has the math collaborator answer it and gives
//! the answer to [`finish`], which stores it where the call wants it: in
//! the output object the script supplied, in the object addressed, or in a
//! new object.

use vstd::prelude::*;
use crate::error::BridgeError;
use crate::metatable::{Dispatch, MathOp, MethodSig, MethodSpec, Op, Param};
use crate::store::{can_replace, read_object, ObjectStore};
use crate::value::{Datum, NativeValue, TypeKey, Value};

verus! {

/// Where the result of a call goes.
#[derive(Clone, Copy, Debug, PartialEq, Eq, Structural)]
pub enum Dest {
    /// Into the object addressed. The call returns nothing.
    Receiver(usize),
    /// Into the output object that the script supplied. The call returns
    /// that object.
    Out(usize),
    /// Into a new object, which the call returns.
    Fresh,
    /// Back to the script as a number.
    Scalar,
}

/// A question for the math collaborator, and where its answer goes.
#[derive(Debug)]
pub struct Request {
    pub op: MathOp,
    /// The type addressed: that of the result, unless the result is a
    /// number.
    pub key: TypeKey,
    pub operands: Vec<Datum>,
    pub dest: Dest,
}

/// A request as contracts speak of it.
pub struct RequestView {
    pub op: MathOp,
    pub key: TypeKey,
    pub operands: Seq<Datum>,
    pub dest: Dest,
}

impl View for Request {
    type V = RequestView;

    open spec fn view(&self) -> RequestView {
        RequestView { op: self.op, key: self.key, operands: self.operands@, dest: self.dest }
    }
}

/// How far a call has come once it is bound.
#[derive(Debug)]
pub enum Step {
    /// The call is finished and returns the value.
    Done(Value),
    /// The call waits for the answer to the request.
    Compute(Request),
}

/// A step as contracts speak of it.
pub enum StepView {
    Done(Value),
    Compute(RequestView),
}

impl View for Step {
    type V = StepView;

    open spec fn view(&self) -> StepView {
        match self {
            Step::Done(v) => StepView::Done(*v),
            Step::Compute(r) => StepView::Compute(r@),
        }
    }
}

/// What one argument is bound to.
#[derive(Clone, Copy, Debug, PartialEq, Eq, Structural)]
pub enum Slot {
    Operand(Datum),
    Output(Option<usize>),
}

/// The argument at `index`. An argument that was not passed is nil.
pub open spec fn arg_at(args: Seq<Value>, index: int) -> Value {
    if 0 <= index < args.len() {
        args[index]
    } else {
        Value::Nil
    }
}

/// What `arg` is bound to as an argument for `param`, in a call that
/// addresses the type `key`.
pub open spec fn bind_param(objects: Seq<NativeValue>, key: TypeKey, param: Param, arg: Value)
    -> Result<Slot, BridgeError> {
    match param {
        Param::Scalar => match arg {
            Value::Number(bits) => if key.repr.fits(bits) {
                Ok(Slot::Operand(Datum::Scalar(bits)))
            } else {
                Err(BridgeError::TypeMismatch)
            },
            _ => Err(BridgeError::TypeMismatch),
        },
        Param::Object(kind) => match arg {
            Value::Object(handle) => match read_object(
                objects,
                handle as int,
                TypeKey { kind, repr: key.repr },
            ) {
                Ok(value) => Ok(Slot::Operand(Datum::Native(value))),
                Err(e) => Err(e),
            },
            _ => Err(BridgeError::TypeMismatch),
        },
        Param::Any => match arg {
            Value::Object(handle) => if handle < objects.len() {
                Ok(Slot::Operand(Datum::Native(objects[handle as int])))
            } else {
                Err(BridgeError::TypeMismatch)
            },
            _ => Err(BridgeError::TypeMismatch),
        },
        Param::Out => match arg {
            Value::Nil => Ok(Slot::Output(None)),
            Value::Object(handle) => match read_object(objects, handle as int, key) {
                Ok(_) => Ok(Slot::Output(Some(handle))),
                Err(e) => Err(e),
            },
            _ => Err(BridgeError::TypeMismatch),
        },
    }
}

/// How many arguments stand before those of the parameters.
pub open spec fn offset(dispatch: Dispatch) -> int {
    match dispatch {
        Dispatch::Function => 0,
        _ => 1,
    }
}

/// The handle of the object addressed: the first argument, which has to be
/// an object of type `key`.
pub open spec fn bind_receiver(objects: Seq<NativeValue>, key: TypeKey, arg: Value) -> Result<
    usize,
    BridgeError,
> {
    match arg {
        Value::Object(handle) => match read_object(objects, handle as int, key) {
            Ok(_) => Ok(handle),
            Err(e) => Err(e),
        },
        _ => Err(BridgeError::TypeMismatch),
    }
}

/// Whether every argument of the call is of the type its place asks for.
pub open spec fn well_typed(
    objects: Seq<NativeValue>,
    key: TypeKey,
    sig: MethodSig,
    args: Seq<Value>,
) -> bool {
    &&& sig.dispatch != Dispatch::Function ==> bind_receiver(objects, key, arg_at(args, 0)) is Ok
    &&& forall|i: int|
        0 <= i < sig.params.len() ==> (#[trigger] bind_param(
            objects,
            key,
            sig.params[i],
            arg_at(args, i + offset(sig.dispatch)),
        )) is Ok
}

/// The operands that the first `n` parameters give, in order.
pub open spec fn gather(
    objects: Seq<NativeValue>,
    key: TypeKey,
    params: Seq<Param>,
    args: Seq<Value>,
    off: int,
    n: nat,
) -> Seq<Datum>
    decreases n,
{
    if n == 0 {
        Seq::<Datum>::empty()
    } else {
        let before = gather(objects, key, params, args, off, (n - 1) as nat);
        match bind_param(objects, key, params[n - 1], arg_at(args, off + n - 1)) {
            Ok(Slot::Operand(d)) => before.push(d),
            _ => before,
        }
    }
}

/// The output object that the first `n` parameters give, if any.
pub open spec fn chosen_out(
    objects: Seq<NativeValue>,
    key: TypeKey,
    params: Seq<Param>,
    args: Seq<Value>,
    off: int,
    n: nat,
) -> Option<usize>
    decreases n,
{
    if n == 0 {
        None
    } else {
        match bind_param(objects, key, params[n - 1], arg_at(args, off + n - 1)) {
            Ok(Slot::Output(Some(handle))) => Some(handle),
            _ => chosen_out(objects, key, params, args, off, (n - 1) as nat),
        }
    }
}

/// The operands of a well-typed call: the value of the object addressed,
/// if the method has one, then what the parameters give.
pub open spec fn operands(
    objects: Seq<NativeValue>,
    key: TypeKey,
    sig: MethodSig,
    args: Seq<Value>,
) -> Seq<Datum> {
    let rest = gather(objects, key, sig.params, args, offset(sig.dispatch), sig.params.len());
    match sig.dispatch {
        Dispatch::Function => rest,
        _ => seq![Datum::Native(objects[bind_receiver(objects, key, arg_at(args, 0))->Ok_0 as int])]
            + rest,
    }
}

/// Where the result of a well-typed call goes.
pub open spec fn destination(
    objects: Seq<NativeValue>,
    key: TypeKey,
    sig: MethodSig,
    args: Seq<Value>,
) -> Dest {
    if sig.dispatch == Dispatch::MethodMut {
        Dest::Receiver(bind_receiver(objects, key, arg_at(args, 0))->Ok_0)
    } else if sig.op matches Op::Math(m) && m.spec_yields_scalar() {
        Dest::Scalar
    } else {
        match chosen_out(objects, key, sig.params, args, offset(sig.dispatch), sig.params.len()) {
            Some(handle) => Dest::Out(handle),
            None => Dest::Fresh,
        }
    }
}

/// The numbers among the first `n` of `data`, in order.
pub open spec fn scalars(data: Seq<Datum>, n: nat) -> Seq<u64>
    decreases n,
{
    if n == 0 {
        Seq::<u64>::empty()
    } else {
        let before = scalars(data, (n - 1) as nat);
        match data[n - 1] {
            Datum::Scalar(bits) => before.push(bits),
            _ => before,
        }
    }
}

/// The value of type `key` whose coordinates are `coords`. There is none
/// where the type has no coordinates, their number is not that of the
/// type, or one of them is no word of the representation.
pub open spec fn pack(key: TypeKey, coords: Seq<u64>) -> Option<NativeValue> {
    if key.kind.spec_has_coords() {
        NativeValue::spec_from_words(key, coords)
    } else {
        None
    }
}

/// The first operand taken as a value of type `key`.
pub open spec fn convert(key: TypeKey, data: Seq<Datum>) -> Result<NativeValue, BridgeError> {
    if data.len() == 0 {
        Err(BridgeError::ConversionError)
    } else {
        match data[0] {
            Datum::Native(value) => if value.spec_key() == key {
                Ok(value)
            } else {
                Err(BridgeError::ConversionError)
            },
            _ => Err(BridgeError::ConversionError),
        }
    }
}

/// The objects after `datum` has been stored at `dest` as the result of a
/// call that addresses the type `key`, and the value that the call
/// returns.
pub open spec fn deliver_spec(objects: Seq<NativeValue>, key: TypeKey, dest: Dest, datum: Datum)
    -> Result<(Seq<NativeValue>, Value), BridgeError> {
    match datum {
        Datum::Scalar(bits) => if dest == Dest::Scalar && key.repr.fits(bits) {
            Ok((objects, Value::Number(bits)))
        } else {
            Err(BridgeError::TypeMismatch)
        },
        Datum::Native(value) => if !(value.wf() && value.spec_key() == key) {
            Err(BridgeError::TypeMismatch)
        } else {
            match dest {
                Dest::Scalar => Err(BridgeError::TypeMismatch),
                Dest::Fresh => Ok((objects.push(value), Value::Object(objects.len() as usize))),
                Dest::Out(handle) => if can_replace(objects, handle as int, value) {
                    Ok((objects.update(handle as int, value), Value::Object(handle)))
                } else {
                    Err(BridgeError::TypeMismatch)
                },
                Dest::Receiver(handle) => if can_replace(objects, handle as int, value) {
                    Ok((objects.update(handle as int, value), Value::Nil))
                } else {
                    Err(BridgeError::TypeMismatch)
                },
            }
        },
    }
}

/// What binding a call gives: the objects afterwards and the step
/// reached, or the failure.
pub open spec fn begin_spec(
    objects: Seq<NativeValue>,
    key: TypeKey,
    sig: MethodSig,
    args: Seq<Value>,
) -> Result<(Seq<NativeValue>, StepView), BridgeError> {
    if !well_typed(objects, key, sig, args) {
        Err(BridgeError::TypeMismatch)
    } else {
        let given = operands(objects, key, sig, args);
        let dest = destination(objects, key, sig, args);
        match sig.op {
            Op::Math(op) => Ok(
                (objects, StepView::Compute(RequestView { op, key, operands: given, dest })),
            ),
            Op::Pack => match pack(key, scalars(given, given.len())) {
                None => Err(BridgeError::TypeMismatch),
                Some(value) => match deliver_spec(objects, key, dest, Datum::Native(value)) {
                    Ok((after, returned)) => Ok((after, StepView::Done(returned))),
                    Err(e) => Err(e),
                },
            },
            Op::Convert => match convert(key, given) {
                Err(e) => Err(e),
                Ok(value) => match deliver_spec(objects, key, dest, Datum::Native(value)) {
                    Ok((after, returned)) => Ok((after, StepView::Done(returned))),
                    Err(e) => Err(e),
                },
            },
        }
    }
}

/// What finishing a call gives: the objects afterwards and the value
/// returned, or the failure.
pub open spec fn finish_spec(objects: Seq<NativeValue>, request: RequestView, outcome: Datum)
    -> Result<(Seq<NativeValue>, Value), BridgeError> {
    deliver_spec(objects, request.key, request.dest, outcome)
}

fn bind_one(store: &ObjectStore, key: TypeKey, param: Param, arg: Value) -> (r: Result<
    Slot,
    BridgeError,
>)
    ensures
        r == bind_param(store@, key, param, arg),
        r matches Err(e) ==> e == BridgeError::TypeMismatch,
{
    match param {
        Param::Scalar => match arg {
            Value::Number(bits) => if key.repr.holds(bits) {
                Ok(Slot::Operand(Datum::Scalar(bits)))
            } else {
                Err(BridgeError::TypeMismatch)
            },
            _ => Err(BridgeError::TypeMismatch),
        },
        Param::Object(kind) => match arg {
            Value::Object(handle) => match store.borrow(handle, TypeKey { kind, repr: key.repr }) {
                Ok(value) => Ok(Slot::Operand(Datum::Native(value))),
                Err(e) => Err(e),
            },
            _ => Err(BridgeError::TypeMismatch),
        },
        Param::Any => match arg {
            Value::Object(handle) => match store.get(handle) {
                Some(value) => Ok(Slot::Operand(Datum::Native(value))),
                None => Err(BridgeError::TypeMismatch),
            },
            _ => Err(BridgeError::TypeMismatch),
        },
        Param::Out => match arg {
            Value::Nil => Ok(Slot::Output(None)),
            Value::Object(handle) => match store.borrow(handle, key) {
                Ok(_) => Ok(Slot::Output(Some(handle))),
                Err(e) => Err(e),
            },
            _ => Err(BridgeError::TypeMismatch),
        },
    }
}

fn scalars_of(data: &Vec<Datum>) -> (r: Vec<u64>)
    ensures
        r@ == scalars(data@, data@.len()),
{
    let mut out: Vec<u64> = Vec::new();
    let mut i: usize = 0;
    while i < data.len()
        invariant
            i <= data@.len(),
            out@ == scalars(data@, i as nat),
        decreases data@.len() - i,
    {
        match data[i] {
            Datum::Scalar(bits) => {
                out.push(bits);
            },
            _ => {},
        }
        i += 1;
    }
    out
}

/// Stores `datum` at `dest` as the result of a call that addresses the
/// type `key`, and returns what the call returns. An output object or an
/// object addressed is overwritten in place: no object is made, and the
/// object keeps its handle. Where the result cannot be stored, nothing
/// changes.
pub fn deliver(store: &mut ObjectStore, key: TypeKey, dest: Dest, datum: Datum) -> (r: Result<
    Value,
    BridgeError,
>)
    requires
        old(store).wf(),
    ensures
        final(store).wf(),
        match deliver_spec(old(store)@, key, dest, datum) {
            Ok((objects, returned)) => r == Ok::<Value, BridgeError>(returned) && final(store)@
                == objects,
            Err(e) => r == Err::<Value, BridgeError>(e) && final(store)@ == old(store)@,
        },
{
    match datum {
        Datum::Scalar(bits) => {
            match dest {
                Dest::Scalar => if key.repr.holds(bits) {
                    Ok(Value::Number(bits))
                } else {
                    Err(BridgeError::TypeMismatch)
                },
                _ => Err(BridgeError::TypeMismatch),
            }
        },
        Datum::Native(value) => {
            let found = value.key();
            if !value.is_well_formed() || found != key {
                return Err(BridgeError::TypeMismatch);
            }
            match dest {
                Dest::Scalar => Err(BridgeError::TypeMismatch),
                Dest::Fresh => match store.create_userdata(value) {
                    Ok(handle) => Ok(Value::Object(handle)),
                    Err(e) => Err(e),
                },
                Dest::Out(handle) => match store.replace(handle, value) {
                    Ok(()) => Ok(Value::Object(handle)),
                    Err(e) => Err(e),
                },
                Dest::Receiver(handle) => match store.replace(handle, value) {
                    Ok(()) => Ok(Value::Nil),
                    Err(e) => Err(e),
                },
            }
        },
    }
}

/// Binds a call of `method` on the type `key` to `args`.
///
/// Every argument is checked; where one is not of the type its place asks
/// for the call fails and nothing changes. A method that packs numbers
/// into a value is carried out at once. For any other the request is
/// returned, and the objects are left as they are until [`finish`].
pub fn begin(store: &mut ObjectStore, key: TypeKey, method: &MethodSpec, args: &[Value]) -> (r:
    Result<Step, BridgeError>)
    requires
        old(store).wf(),
    ensures
        final(store).wf(),
        match begin_spec(old(store)@, key, method@, args@) {
            Ok((objects, step)) => r is Ok && r->Ok_0@ == step && final(store)@ == objects,
            Err(e) => r is Err && r->Err_0 == e && final(store)@ == old(store)@,
        },
{
    let ghost objects = store@;
    let ghost sig = method@;
    let mut given: Vec<Datum> = Vec::new();
    let mut receiver: Option<usize> = None;
    let off: usize = match method.dispatch {
        Dispatch::Function => 0,
        _ => 1,
    };
    if off == 1 {
        let first = if args.len() > 0 {
            args[0]
        } else {
            Value::Nil
        };
        match first {
            Value::Object(handle) => match store.borrow(handle, key) {
                Ok(value) => {
                    receiver = Some(handle);
                    given.push(Datum::Native(value));
                },
                Err(e) => {
                    return Err(e);
                },
            },
            _ => {
                return Err(BridgeError::TypeMismatch);
            },
        }
    }
    let ghost head = given@;
    let mut out: Option<usize> = None;
    let mut i: usize = 0;
    while i < method.params.len()
        invariant
            i <= method.params@.len(),
            off == offset(method.dispatch),
            sig == method@,
            store@ == objects,
            objects == old(store)@,
            old(store).wf(),
            forall|j: int|
                0 <= j < i ==> (#[trigger] bind_param(
                    objects,
                    key,
                    method.params@[j],
                    arg_at(args@, j + off),
                )) is Ok,
            given@ == head + gather(objects, key, method.params@, args@, off as int, i as nat),
            out == chosen_out(objects, key, method.params@, args@, off as int, i as nat),
        decreases method.params@.len() - i,
    {
        let arg = if off <= args.len() && i < args.len() - off {
            args[i + off]
        } else {
            Value::Nil
        };
        assert(arg == arg_at(args@, i + off));
        let ghost before = gather(objects, key, method.params@, args@, off as int, i as nat);
        match bind_one(store, key, method.params[i], arg) {
            Ok(Slot::Operand(d)) => {
                given.push(d);
                assert(given@ =~= head + before.push(d));
            },
            Ok(Slot::Output(o)) => {
                if o.is_some() {
                    out = o;
                }
            },
            Err(e) => {
                assert(!well_typed(objects, key, sig, args@)) by {
                    assert(!(bind_param(
                        objects,
                        key,
                        sig.params[i as int],
                        arg_at(args@, i + offset(sig.dispatch)),
                    ) is Ok));
                }
                return Err(e);
            },
        }
        i += 1;
    }
    assert(well_typed(objects, key, sig, args@));
    assert(given@ =~= operands(objects, key, sig, args@));
    let dest = if let Some(handle) = receiver {
        match method.dispatch {
            Dispatch::MethodMut => Dest::Receiver(handle),
            _ => result_place(method.op, out),
        }
    } else {
        result_place(method.op, out)
    };
    assert(dest == destination(objects, key, sig, args@));
    match method.op {
        Op::Math(op) => Ok(Step::Compute(Request { op, key, operands: given, dest })),
        Op::Pack => {
            if !key.kind.has_coords() {
                return Err(BridgeError::TypeMismatch);
            }
            let coords = scalars_of(&given);
            match NativeValue::from_words(key, coords.as_slice()) {
                None => Err(BridgeError::TypeMismatch),
                Some(value) => match deliver(store, key, dest, Datum::Native(value)) {
                    Ok(returned) => Ok(Step::Done(returned)),
                    Err(e) => Err(e),
                },
            }
        },
        Op::Convert => {
            if given.len() == 0 {
                return Err(BridgeError::ConversionError);
            }
            match given[0] {
                Datum::Native(value) => {
                    let found = value.key();
                    if found != key {
                        return Err(BridgeError::ConversionError);
                    }
                    match deliver(store, key, dest, Datum::Native(value)) {
                        Ok(returned) => Ok(Step::Done(returned)),
                        Err(e) => Err(e),
                    }
                },
                _ => Err(BridgeError::ConversionError),
            }
        },
    }
}

fn result_place(op: Op, out: Option<usize>) -> (r: Dest)
    ensures
        r == if op matches Op::Math(m) && m.spec_yields_scalar() {
            Dest::Scalar
        } else {
            match out {
                Some(handle) => Dest::Out(handle),
                None => Dest::Fresh,
            }
        },
{
    let scalar = match op {
        Op::Math(m) => m.yields_scalar(),
        _ => false,
    };
    if scalar {
        Dest::Scalar
    } else {
        match out {
            Some(handle) => Dest::Out(handle),
            None => Dest::Fresh,
        }
    }
}

/// Finishes a call with the answer of the math collaborator.
///
/// The answer has to be of the kind the request asks for: a number for a
/// request that goes back as a number, else a well-formed value of the
/// type addressed. Any other answer fails the call and nothing changes.
pub fn finish(store: &mut ObjectStore, request: &Request, outcome: Datum) -> (r: Result<
    Value,
    BridgeError,
>)
    requires
        old(store).wf(),
    ensures
        final(store).wf(),
        match finish_spec(old(store)@, request@, outcome) {
            Ok((objects, returned)) => r == Ok::<Value, BridgeError>(returned) && final(store)@
                == objects,
            Err(e) => r == Err::<Value, BridgeError>(e) && final(store)@ == old(store)@,
        },
{
    deliver(store, request.key, request.dest, outcome)
}

/// What reading the coordinate at `index` of the object `target` gives.
pub open spec fn get_field_spec(objects: Seq<NativeValue>, target: Value, index: int) -> Result<
    Value,
    BridgeError,
> {
    match target {
        Value::Object(handle) => if handle < objects.len() {
            match objects[handle as int].spec_coord(index) {
                Some(bits) => Ok(Value::Number(bits)),
                None => Err(BridgeError::TypeMismatch),
            }
        } else {
            Err(BridgeError::TypeMismatch)
        },
        _ => Err(BridgeError::TypeMismatch),
    }
}

/// The objects after the coordinate at `index` of the object `target` has
/// been set to `value`.
pub open spec fn set_field_spec(
    objects: Seq<NativeValue>,
    target: Value,
    index: int,
    value: Value,
) -> Result<Seq<NativeValue>, BridgeError> {
    match target {
        Value::Object(handle) => match value {
            Value::Number(bits) => if handle < objects.len() {
                match objects[handle as int].spec_with_coord(index, bits) {
                    Some(changed) => Ok(objects.update(handle as int, changed)),
                    None => Err(BridgeError::TypeMismatch),
                }
            } else {
                Err(BridgeError::TypeMismatch)
            },
            _ => Err(BridgeError::TypeMismatch),
        },
        _ => Err(BridgeError::TypeMismatch),
    }
}

/// Reads one coordinate of an object. The call fails where `target` is no
/// object or the object has no such coordinate.
pub fn get_field(store: &ObjectStore, target: Value, index: usize) -> (r: Result<
    Value,
    BridgeError,
>)
    ensures
        r == get_field_spec(store@, target, index as int),
{
    match target {
        Value::Object(handle) => match store.get(handle) {
            Some(value) => match value.coord(index) {
                Some(bits) => Ok(Value::Number(bits)),
                None => Err(BridgeError::TypeMismatch),
            },
            None => Err(BridgeError::TypeMismatch),
        },
        _ => Err(BridgeError::TypeMismatch),
    }
}

/// Writes one coordinate of an object and leaves the others as they are.
/// The call fails, and nothing changes, where `target` is no object, the
/// object has no such coordinate, or `value` is not a number of the
/// object's representation.
pub fn set_field(store: &mut ObjectStore, target: Value, index: usize, value: Value) -> (r:
    Result<(), BridgeError>)
    requires
        old(store).wf(),
    ensures
        final(store).wf(),
        match set_field_spec(old(store)@, target, index as int, value) {
            Ok(objects) => r == Ok::<(), BridgeError>(()) && final(store)@ == objects,
            Err(e) => r == Err::<(), BridgeError>(e) && final(store)@ == old(store)@,
        },
{
    match target {
        Value::Object(handle) => match value {
            Value::Number(bits) => match store.get(handle) {
                Some(current) => {
                    assert(current.wf());
                    match current.with_coord(index, bits) {
                        Some(changed) => store.replace(handle, changed),
                        None => Err(BridgeError::TypeMismatch),
                    }
                },
                None => Err(BridgeError::TypeMismatch),
            },
            _ => Err(BridgeError::TypeMismatch),
        },
        _ => Err(BridgeError::TypeMismatch),
    }
}

/// Arguments that differ only where a parameter is an output object give
/// the same operands.
proof fn lemma_gather_ignores_out(
    objects: Seq<NativeValue>,
    key: TypeKey,
    params: Seq<Param>,
    first: Seq<Value>,
    second: Seq<Value>,
    off: int,
    n: nat,
)
    requires
        n <= params.len(),
        forall|i: int|
            0 <= i < params.len() && params[i] != Param::Out ==> arg_at(first, i + off) == arg_at(
                second,
                i + off,
            ),
    ensures
        gather(objects, key, params, first, off, n) == gather(objects, key, params, second, off, n),
    decreases n,
{
    if n > 0 {
        lemma_gather_ignores_out(objects, key, params, first, second, off, (n - 1) as nat);
    }
}

/// A call with an output object asks the same question as the call
/// without one, and the answer is stored as the same value: in the output
/// object in one case, in a new object in the other. The output object
/// keeps its handle and its type, no object is made for it, and every
/// other object is left as it was.
pub proof fn law_output_form_agrees(
    objects: Seq<NativeValue>,
    key: TypeKey,
    sig: MethodSig,
    with_out: Seq<Value>,
    without: Seq<Value>,
    answer: NativeValue,
)
    requires
        objects.len() < usize::MAX,
        sig.dispatch == Dispatch::Function,
        sig.op matches Op::Math(m) && !m.spec_yields_scalar(),
        well_typed(objects, key, sig, with_out),
        well_typed(objects, key, sig, without),
        forall|i: int|
            0 <= i < sig.params.len() && sig.params[i] != Param::Out ==> arg_at(with_out, i)
                == arg_at(without, i),
        chosen_out(objects, key, sig.params, with_out, 0, sig.params.len()) is Some,
        chosen_out(objects, key, sig.params, without, 0, sig.params.len()) is None,
        answer.wf(),
        answer.spec_key() == key,
    ensures
        ({
            let out = chosen_out(objects, key, sig.params, with_out, 0, sig.params.len())->Some_0;
            &&& begin_spec(objects, key, sig, with_out) matches Ok((same, StepView::Compute(asked)))
            &&& begin_spec(objects, key, sig, without) matches Ok((also, StepView::Compute(plain)))
            &&& same == objects && also == objects
            &&& asked.op == plain.op && asked.key == plain.key && asked.operands == plain.operands
            &&& finish_spec(objects, asked, Datum::Native(answer)) matches Ok((in_place, returned))
            &&& finish_spec(objects, plain, Datum::Native(answer)) matches Ok((grown, made))
            &&& returned == Value::Object(out)
            &&& made == Value::Object(objects.len() as usize)
            &&& in_place[out as int] == answer && grown[objects.len() as int] == answer
            &&& in_place.len() == objects.len()
            &&& in_place[out as int].spec_key() == objects[out as int].spec_key()
            &&& forall|j: int| 0 <= j < objects.len() && j != out ==> in_place[j] == objects[j]
        }),
{
    lemma_gather_ignores_out(objects, key, sig.params, with_out, without, 0, sig.params.len());
    lemma_chosen_out_is_object(objects, key, sig.params, with_out, 0, sig.params.len());
}

/// An output object that binding chose is an object of the type addressed.
proof fn lemma_chosen_out_is_object(
    objects: Seq<NativeValue>,
    key: TypeKey,
    params: Seq<Param>,
    args: Seq<Value>,
    off: int,
    n: nat,
)
    ensures
        chosen_out(objects, key, params, args, off, n) matches Some(handle) ==> handle
            < objects.len() && objects[handle as int].spec_key() == key,
    decreases n,
{
    if n > 0 {
        lemma_chosen_out_is_object(objects, key, params, args, off, (n - 1) as nat);
    }
}

/// A method that has no parameter for an output object never chooses one.
proof fn lemma_no_out_parameter_no_out(
    objects: Seq<NativeValue>,
    key: TypeKey,
    params: Seq<Param>,
    args: Seq<Value>,
    off: int,
    n: nat,
)
    requires
        n <= params.len(),
        forall|i: int| 0 <= i < params.len() ==> params[i] != Param::Out,
    ensures
        chosen_out(objects, key, params, args, off, n) is None,
    decreases n,
{
    if n > 0 {
        lemma_no_out_parameter_no_out(objects, key, params, args, off, (n - 1) as nat);
    }
}

/// A function without a parameter for an output object, as the operators
/// are, always stores its result in a new object: whatever the script
/// passes, no object that exists is written to.
pub proof fn law_without_output_parameter_a_new_object_is_made(
    objects: Seq<NativeValue>,
    key: TypeKey,
    sig: MethodSig,
    args: Seq<Value>,
    answer: NativeValue,
)
    requires
        objects.len() < usize::MAX,
        sig.dispatch == Dispatch::Function,
        sig.op matches Op::Math(m) && !m.spec_yields_scalar(),
        forall|i: int| 0 <= i < sig.params.len() ==> sig.params[i] != Param::Out,
        well_typed(objects, key, sig, args),
        answer.wf(),
        answer.spec_key() == key,
    ensures
        begin_spec(objects, key, sig, args) matches Ok((same, StepView::Compute(asked))) && same
            == objects && asked.dest == Dest::Fresh && finish_spec(
            objects,
            asked,
            Datum::Native(answer),
        ) == Ok::<(Seq<NativeValue>, Value), BridgeError>(
            (objects.push(answer), Value::Object(objects.len() as usize)),
        ),
{
    lemma_no_out_parameter_no_out(objects, key, sig.params, args, 0, sig.params.len());
}

/// A coordinate that was written is read back as it was written, and
/// every other coordinate of the object reads as before.
pub proof fn law_field_written_is_field_read(
    objects: Seq<NativeValue>,
    target: Value,
    index: int,
    bits: u64,
    other: int,
)
    requires
        set_field_spec(objects, target, index, Value::Number(bits)) is Ok,
    ensures
        ({
            let after = set_field_spec(objects, target, index, Value::Number(bits))->Ok_0;
            &&& get_field_spec(after, target, index) == Ok::<Value, BridgeError>(
                Value::Number(bits),
            )
            &&& other != index ==> get_field_spec(after, target, other) == get_field_spec(
                objects,
                target,
                other,
            )
            &&& after.len() == objects.len()
        }),
{
    let handle = target->Object_0;
    let before = objects[handle as int];
    let changed = before.spec_with_coord(index, bits)->Some_0;
    assert(changed.spec_words() =~= before.spec_words().update(index, bits));
}

} // verus!
