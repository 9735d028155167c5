//! What a type shows to scripts, written down as data: its fields, its
//! methods, and for each method the arguments it takes and the operation
//! it stands for.

use vstd::prelude::*;
use crate::text::names_equal;
use crate::value::TypeKind;

verus! {

/// An operation of the math collaborator.
#[derive(Clone, Copy, Debug, PartialEq, Eq, Structural)]
pub enum MathOp {
    /// The sum of two vectors.
    Add,
    /// The difference of two vectors.
    Sub,
    /// The negation of a vector.
    Neg,
    /// The length of a vector: the one operation that yields a number.
    Norm,
    /// The vector rescaled to length one.
    Normalize,
    /// The composition of two transforms.
    Mul,
    /// The composition of a transform with the inverse of another.
    Div,
    /// The zero vector.
    Zeros,
    /// The unit vector along the first axis.
    XAxis,
    /// The unit vector along the second axis.
    YAxis,
    /// The unit vector along the third axis.
    ZAxis,
    /// The transform that changes nothing.
    Identity,
    /// The transform made of a translation vector and a rotation: an angle
    /// in the plane, an axis scaled by an angle in space.
    Compose,
    /// The pure translation by the given coordinates.
    Translation,
    /// The pure rotation: by an angle in the plane, by an axis scaled by an
    /// angle in space.
    Rotation,
}

impl MathOp {
    /// Whether the operation yields a number and not a native value.
    pub open spec fn spec_yields_scalar(self) -> bool {
        self == MathOp::Norm
    }

    /// Whether the operation yields a number.
    pub fn yields_scalar(self) -> (r: bool)
        ensures
            r == self.spec_yields_scalar(),
    {
        match self {
            MathOp::Norm => true,
            _ => false,
        }
    }
}

/// What a method does with its operands.
#[derive(Clone, Copy, Debug, PartialEq, Eq, Structural)]
pub enum Op {
    /// Build a value of the addressed type from the numbers among the
    /// operands, taken as its coordinates in order. No math is involved.
    Pack,
    /// Take the first operand as a value of the addressed type. This fails
    /// where its type is another.
    Convert,
    /// Ask the math collaborator.
    Math(MathOp),
}

/// One parameter of a method.
#[derive(Clone, Copy, Debug, PartialEq, Eq, Structural)]
pub enum Param {
    /// A number in the representation of the addressed type.
    Scalar,
    /// An object of the given kind, in the representation of the addressed
    /// type. Its value is copied out when the call is bound.
    Object(TypeKind),
    /// An object of any type. Its value is copied out when the call is
    /// bound.
    Any,
    /// An optional output object of the addressed type. Nil, or nothing at
    /// all, stands for none. Where the parameter stands among the others
    /// is up to each method: the vectors of the plane take it last, the
    /// vectors and transforms of space take it first. The difference is
    /// kept as scripts have come to rely on it, and a caller learns the
    /// place from the method's parameters.
    Out,
}

/// How a method is called.
#[derive(Clone, Copy, Debug, PartialEq, Eq, Structural)]
pub enum Dispatch {
    /// A plain function of its arguments.
    Function,
    /// The first argument is the object addressed; it is the first operand.
    Method,
    /// As `Method`, and the result replaces the value of the object
    /// addressed.
    MethodMut,
}

/// An operator that scripts write in infix or prefix form.
#[derive(Clone, Copy, Debug, PartialEq, Eq, Structural)]
pub enum MetaMethod {
    Add,
    Sub,
    Unm,
}

impl MetaMethod {
    /// The name under which the runtime looks the operator up.
    pub open spec fn spec_name(self) -> Seq<char> {
        match self {
            MetaMethod::Add => "__add"@,
            MetaMethod::Sub => "__sub"@,
            MetaMethod::Unm => "__unm"@,
        }
    }

    /// The name under which the runtime looks the operator up.
    pub fn name(self) -> (r: &'static str)
        ensures
            r@ == self.spec_name(),
    {
        match self {
            MetaMethod::Add => "__add",
            MetaMethod::Sub => "__sub",
            MetaMethod::Unm => "__unm",
        }
    }
}

/// A method as a table holds it.
#[derive(Debug)]
pub struct MethodSpec {
    pub name: &'static str,
    pub dispatch: Dispatch,
    pub params: Vec<Param>,
    pub op: Op,
}

/// A method as contracts speak of it.
pub struct MethodSig {
    pub name: Seq<char>,
    pub dispatch: Dispatch,
    pub params: Seq<Param>,
    pub op: Op,
}

impl View for MethodSpec {
    type V = MethodSig;

    open spec fn view(&self) -> MethodSig {
        MethodSig { name: self.name@, dispatch: self.dispatch, params: self.params@, op: self.op }
    }
}

/// The names of the methods of `sigs`, in order.
pub open spec fn method_names(sigs: Seq<MethodSig>) -> Seq<Seq<char>> {
    Seq::new(sigs.len(), |i: int| sigs[i].name)
}

/// The method that a lookup of `name` in `sigs` gives: the first one of
/// that name.
pub open spec fn find_method(sigs: Seq<MethodSig>, name: Seq<char>) -> Option<MethodSig> {
    match method_names(sigs).index_of_first(name) {
        Some(i) => Some(sigs[i]),
        None => None,
    }
}

/// The methods of one type, in the order in which they were added.
#[derive(Debug)]
pub struct MethodTable {
    entries: Vec<MethodSpec>,
}

impl View for MethodTable {
    type V = Seq<MethodSig>;

    closed spec fn view(&self) -> Seq<MethodSig> {
        Seq::new(self.entries@.len(), |i: int| self.entries@[i]@)
    }
}

impl MethodTable {
    /// The table without methods.
    pub fn new() -> (r: MethodTable)
        ensures
            r@ == Seq::<MethodSig>::empty(),
    {
        let r = MethodTable { entries: Vec::new() };
        assert(r@ =~= Seq::<MethodSig>::empty());
        r
    }

    fn register(&mut self, name: &'static str, dispatch: Dispatch, params: Vec<Param>, op: Op)
        ensures
            final(self)@ == old(self)@.push(
                MethodSig { name: name@, dispatch, params: params@, op },
            ),
    {
        self.entries.push(MethodSpec { name, dispatch, params, op });
        assert(self@ =~= old(self)@.push(
            MethodSig { name: name@, dispatch, params: params@, op },
        ));
    }

    /// Adds a plain function.
    pub fn add_function(&mut self, name: &'static str, params: Vec<Param>, op: Op)
        ensures
            final(self)@ == old(self)@.push(
                MethodSig { name: name@, dispatch: Dispatch::Function, params: params@, op },
            ),
    {
        self.register(name, Dispatch::Function, params, op);
    }

    /// Adds a method that reads the object addressed.
    pub fn add_method(&mut self, name: &'static str, params: Vec<Param>, op: Op)
        ensures
            final(self)@ == old(self)@.push(
                MethodSig { name: name@, dispatch: Dispatch::Method, params: params@, op },
            ),
    {
        self.register(name, Dispatch::Method, params, op);
    }

    /// Adds a method whose result replaces the value of the object
    /// addressed.
    pub fn add_method_mut(&mut self, name: &'static str, params: Vec<Param>, op: Op)
        ensures
            final(self)@ == old(self)@.push(
                MethodSig { name: name@, dispatch: Dispatch::MethodMut, params: params@, op },
            ),
    {
        self.register(name, Dispatch::MethodMut, params, op);
    }

    /// Adds the function behind an operator.
    pub fn add_meta_function(&mut self, meta: MetaMethod, params: Vec<Param>, op: Op)
        ensures
            final(self)@ == old(self)@.push(
                MethodSig {
                    name: meta.spec_name(),
                    dispatch: Dispatch::Function,
                    params: params@,
                    op,
                },
            ),
    {
        self.register(meta.name(), Dispatch::Function, params, op);
    }

    /// The number of methods.
    pub fn len(&self) -> (r: usize)
        ensures
            r == self@.len(),
    {
        self.entries.len()
    }

    /// The method at `index`, in the order of addition.
    pub fn get(&self, index: usize) -> (r: Option<&MethodSpec>)
        ensures
            index < self@.len() ==> r is Some && r.unwrap()@ == self@[index as int],
            index >= self@.len() ==> r is None,
    {
        if index < self.entries.len() {
            Some(&self.entries[index])
        } else {
            None
        }
    }

    /// Looks a method up by name.
    pub fn find(&self, name: &str) -> (r: Option<&MethodSpec>)
        ensures
            find_method(self@, name@) is Some <==> r is Some,
            r matches Some(m) ==> Some(m@) == find_method(self@, name@),
    {
        let ghost names = method_names(self@);
        let mut i: usize = 0;
        while i < self.entries.len()
            invariant
                i <= self.entries@.len(),
                names == method_names(self@),
                forall|j: int| 0 <= j < i ==> names[j] != name@,
            decreases self.entries@.len() - i,
        {
            if names_equal(self.entries[i].name, name) {
                proof {
                    assert(names[i as int] == name@);
                    names.index_of_first_ensures(name@);
                }
                return Some(&self.entries[i]);
            }
            i += 1;
        }
        proof {
            names.index_of_first_ensures(name@);
        }
        None
    }
}

/// A coordinate that scripts reach by name.
#[derive(Clone, Copy, Debug)]
pub struct FieldSpec {
    pub name: &'static str,
    /// The place of the coordinate among the words of the value.
    pub index: usize,
}

/// A field as contracts speak of it.
pub struct FieldSig {
    pub name: Seq<char>,
    pub index: int,
}

impl View for FieldSpec {
    type V = FieldSig;

    open spec fn view(&self) -> FieldSig {
        FieldSig { name: self.name@, index: self.index as int }
    }
}

/// The names of the fields of `sigs`, in order.
pub open spec fn field_names(sigs: Seq<FieldSig>) -> Seq<Seq<char>> {
    Seq::new(sigs.len(), |i: int| sigs[i].name)
}

/// The coordinate that a lookup of `name` in `sigs` gives: that of the
/// first field of that name.
pub open spec fn find_field(sigs: Seq<FieldSig>, name: Seq<char>) -> Option<int> {
    match field_names(sigs).index_of_first(name) {
        Some(i) => Some(sigs[i].index),
        None => None,
    }
}

/// The fields of one type: those that can be read and those that can be
/// written, each in the order of addition.
#[derive(Debug)]
pub struct FieldTable {
    getters: Vec<FieldSpec>,
    setters: Vec<FieldSpec>,
}

impl FieldTable {
    /// The readable fields.
    pub closed spec fn getters(&self) -> Seq<FieldSig> {
        Seq::new(self.getters@.len(), |i: int| self.getters@[i]@)
    }

    /// The writable fields.
    pub closed spec fn setters(&self) -> Seq<FieldSig> {
        Seq::new(self.setters@.len(), |i: int| self.setters@[i]@)
    }

    /// The table without fields.
    pub fn new() -> (r: FieldTable)
        ensures
            r.getters() == Seq::<FieldSig>::empty(),
            r.setters() == Seq::<FieldSig>::empty(),
    {
        let r = FieldTable { getters: Vec::new(), setters: Vec::new() };
        assert(r.getters() =~= Seq::<FieldSig>::empty());
        assert(r.setters() =~= Seq::<FieldSig>::empty());
        r
    }

    /// Makes the coordinate at `index` readable under `name`.
    pub fn add_field_method_get(&mut self, name: &'static str, index: usize)
        ensures
            final(self).getters() == old(self).getters().push(
                FieldSig { name: name@, index: index as int },
            ),
            final(self).setters() == old(self).setters(),
    {
        self.getters.push(FieldSpec { name, index });
        assert(self.getters() =~= old(self).getters().push(
            FieldSig { name: name@, index: index as int },
        ));
    }

    /// Makes the coordinate at `index` writable under `name`.
    pub fn add_field_method_set(&mut self, name: &'static str, index: usize)
        ensures
            final(self).setters() == old(self).setters().push(
                FieldSig { name: name@, index: index as int },
            ),
            final(self).getters() == old(self).getters(),
    {
        self.setters.push(FieldSpec { name, index });
        assert(self.setters() =~= old(self).setters().push(
            FieldSig { name: name@, index: index as int },
        ));
    }

    /// The coordinate that is read under `name`.
    pub fn getter(&self, name: &str) -> (r: Option<usize>)
        ensures
            r is Some <==> find_field(self.getters(), name@) is Some,
            r matches Some(i) ==> find_field(self.getters(), name@) == Some(i as int),
    {
        find_in(&self.getters, name)
    }

    /// The coordinate that is written under `name`.
    pub fn setter(&self, name: &str) -> (r: Option<usize>)
        ensures
            r is Some <==> find_field(self.setters(), name@) is Some,
            r matches Some(i) ==> find_field(self.setters(), name@) == Some(i as int),
    {
        find_in(&self.setters, name)
    }
}

fn find_in(fields: &Vec<FieldSpec>, name: &str) -> (r: Option<usize>)
    ensures
        r is Some <==> find_field(Seq::new(fields@.len(), |i: int| fields@[i]@), name@) is Some,
        r matches Some(i) ==> find_field(Seq::new(fields@.len(), |i: int| fields@[i]@), name@)
            == Some(i as int),
{
    let ghost sigs = Seq::new(fields@.len(), |i: int| fields@[i]@);
    let ghost names = field_names(sigs);
    let mut i: usize = 0;
    while i < fields.len()
        invariant
            i <= fields@.len(),
            sigs == Seq::new(fields@.len(), |i: int| fields@[i]@),
            names == field_names(sigs),
            forall|j: int| 0 <= j < i ==> names[j] != name@,
        decreases fields@.len() - i,
    {
        if names_equal(fields[i].name, name) {
            proof {
                assert(names[i as int] == name@);
                names.index_of_first_ensures(name@);
            }
            return Some(fields[i].index);
        }
        i += 1;
    }
    proof {
        names.index_of_first_ensures(name@);
    }
    None
}

} // verus!
