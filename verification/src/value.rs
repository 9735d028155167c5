//! The vocabulary shared by every part of the bridge: numeric
//! representations, kinds of native value, and the values themselves.

use vstd::prelude::*;
use crate::text::names_equal;

verus! {

/// A numeric representation in which coordinates are stored.
#[derive(Clone, Copy, Debug, PartialEq, Eq, Structural)]
pub enum Repr {
    /// Single precision: a coordinate occupies the low 32 bits of its word.
    F32,
    /// Double precision: a coordinate occupies its whole word.
    F64,
}

impl Repr {
    /// The tag under which the representation is listed in a namespace.
    pub open spec fn spec_name(self) -> Seq<char> {
        match self {
            Repr::F32 => "f32"@,
            Repr::F64 => "f64"@,
        }
    }

    /// The representation listed under `name`, if there is one.
    pub open spec fn named(name: Seq<char>) -> Option<Repr> {
        if name == "f32"@ {
            Some(Repr::F32)
        } else if name == "f64"@ {
            Some(Repr::F64)
        } else {
            None
        }
    }

    /// Whether `bits` is a word of this representation.
    pub open spec fn fits(self, bits: u64) -> bool {
        match self {
            Repr::F32 => bits <= 0xFFFF_FFFF,
            Repr::F64 => true,
        }
    }

    /// The name under which a namespace lists it.
    pub fn name(self) -> (r: &'static str)
        ensures
            r@ == self.spec_name(),
    {
        match self {
            Repr::F32 => "f32",
            Repr::F64 => "f64",
        }
    }

    /// The representation listed under `name`, if there is one.
    pub fn from_name(name: &str) -> (r: Option<Repr>)
        ensures
            r == Repr::named(name@),
    {
        if names_equal(name, "f32") {
            Some(Repr::F32)
        } else if names_equal(name, "f64") {
            Some(Repr::F64)
        } else {
            None
        }
    }

    /// Whether `bits` is a word of this representation.
    pub fn holds(self, bits: u64) -> (r: bool)
        ensures
            r == self.fits(bits),
    {
        match self {
            Repr::F32 => bits <= 0xFFFF_FFFF,
            Repr::F64 => true,
        }
    }

    /// Every representation is found again under its own tag.
    pub proof fn lemma_named_name(self)
        ensures
            Repr::named(self.spec_name()) == Some(self),
    {
        reveal_strlit("f32");
        reveal_strlit("f64");
        assert("f32"@[1] == '3');
        assert("f64"@[1] == '6');
    }
}

/// A kind of native value that the bridge exposes.
#[derive(Clone, Copy, Debug, PartialEq, Eq, Structural)]
pub enum TypeKind {
    Vector2,
    Vector3,
    Isometry2,
    Isometry3,
}

impl TypeKind {
    /// The name under which the kind is listed in a namespace.
    pub open spec fn spec_name(self) -> Seq<char> {
        match self {
            TypeKind::Vector2 => "Vector2"@,
            TypeKind::Vector3 => "Vector3"@,
            TypeKind::Isometry2 => "Isometry2"@,
            TypeKind::Isometry3 => "Isometry3"@,
        }
    }

    /// The kind listed under `name`, if there is one.
    pub open spec fn named(name: Seq<char>) -> Option<TypeKind> {
        if name == "Vector2"@ {
            Some(TypeKind::Vector2)
        } else if name == "Vector3"@ {
            Some(TypeKind::Vector3)
        } else if name == "Isometry2"@ {
            Some(TypeKind::Isometry2)
        } else if name == "Isometry3"@ {
            Some(TypeKind::Isometry3)
        } else {
            None
        }
    }

    /// How many words a value of this kind is made of.
    pub open spec fn spec_width(self) -> nat {
        match self {
            TypeKind::Vector2 => 2,
            TypeKind::Vector3 => 3,
            TypeKind::Isometry2 => 4,
            TypeKind::Isometry3 => 7,
        }
    }

    /// Whether the words of a value of this kind are coordinates that a
    /// script may read and write one by one. A transform keeps its
    /// translation and rotation to itself.
    pub open spec fn spec_has_coords(self) -> bool {
        self == TypeKind::Vector2 || self == TypeKind::Vector3
    }

    /// How many words a value of this kind is made of.
    pub fn width(self) -> (r: usize)
        ensures
            r == self.spec_width(),
    {
        match self {
            TypeKind::Vector2 => 2,
            TypeKind::Vector3 => 3,
            TypeKind::Isometry2 => 4,
            TypeKind::Isometry3 => 7,
        }
    }

    /// Whether a script may read and write the words one by one.
    pub fn has_coords(self) -> (r: bool)
        ensures
            r == self.spec_has_coords(),
    {
        match self {
            TypeKind::Vector2 => true,
            TypeKind::Vector3 => true,
            TypeKind::Isometry2 => false,
            TypeKind::Isometry3 => false,
        }
    }

    /// The name under which a namespace lists it.
    pub fn name(self) -> (r: &'static str)
        ensures
            r@ == self.spec_name(),
    {
        match self {
            TypeKind::Vector2 => "Vector2",
            TypeKind::Vector3 => "Vector3",
            TypeKind::Isometry2 => "Isometry2",
            TypeKind::Isometry3 => "Isometry3",
        }
    }

    /// The kind listed under `name`, if there is one.
    pub fn from_name(name: &str) -> (r: Option<TypeKind>)
        ensures
            r == TypeKind::named(name@),
    {
        if names_equal(name, "Vector2") {
            Some(TypeKind::Vector2)
        } else if names_equal(name, "Vector3") {
            Some(TypeKind::Vector3)
        } else if names_equal(name, "Isometry2") {
            Some(TypeKind::Isometry2)
        } else if names_equal(name, "Isometry3") {
            Some(TypeKind::Isometry3)
        } else {
            None
        }
    }

    /// Every kind is found again under its own name.
    pub proof fn lemma_named_name(self)
        ensures
            TypeKind::named(self.spec_name()) == Some(self),
    {
        reveal_strlit("Vector2");
        reveal_strlit("Vector3");
        reveal_strlit("Isometry2");
        reveal_strlit("Isometry3");
        assert("Vector2"@[6] == '2');
        assert("Vector3"@[6] == '3');
        assert("Isometry2"@[8] == '2');
        assert("Isometry3"@[8] == '3');
        assert("Vector2"@.len() == 7);
        assert("Isometry2"@.len() == 9);
    }
}

/// One concrete native type: a kind in a representation.
#[derive(Clone, Copy, Debug, PartialEq, Eq, Structural)]
pub struct TypeKey {
    pub kind: TypeKind,
    pub repr: Repr,
}

/// The words of a native value, by kind.
///
/// A vector holds its coordinates. A planar transform holds a translation
/// and a unit complex number; a spatial transform holds a translation and a
/// unit quaternion.
#[derive(Clone, Copy, Debug, PartialEq, Eq, Structural)]
pub enum Body {
    Vector2 { x: u64, y: u64 },
    Vector3 { x: u64, y: u64, z: u64 },
    Isometry2 { tx: u64, ty: u64, re: u64, im: u64 },
    Isometry3 { tx: u64, ty: u64, tz: u64, qi: u64, qj: u64, qk: u64, qw: u64 },
}

impl Body {
    /// The kind of value that the body is of.
    pub open spec fn spec_kind(self) -> TypeKind {
        match self {
            Body::Vector2 { .. } => TypeKind::Vector2,
            Body::Vector3 { .. } => TypeKind::Vector3,
            Body::Isometry2 { .. } => TypeKind::Isometry2,
            Body::Isometry3 { .. } => TypeKind::Isometry3,
        }
    }

    /// The words in the order of the fields.
    pub open spec fn spec_words(self) -> Seq<u64> {
        match self {
            Body::Vector2 { x, y } => seq![x, y],
            Body::Vector3 { x, y, z } => seq![x, y, z],
            Body::Isometry2 { tx, ty, re, im } => seq![tx, ty, re, im],
            Body::Isometry3 { tx, ty, tz, qi, qj, qk, qw } => seq![tx, ty, tz, qi, qj, qk, qw],
        }
    }

    /// The body of the given kind whose words are `words`.
    pub open spec fn of_words(kind: TypeKind, words: Seq<u64>) -> Body
        recommends
            words.len() == kind.spec_width(),
    {
        match kind {
            TypeKind::Vector2 => Body::Vector2 { x: words[0], y: words[1] },
            TypeKind::Vector3 => Body::Vector3 { x: words[0], y: words[1], z: words[2] },
            TypeKind::Isometry2 => Body::Isometry2 {
                tx: words[0],
                ty: words[1],
                re: words[2],
                im: words[3],
            },
            TypeKind::Isometry3 => Body::Isometry3 {
                tx: words[0],
                ty: words[1],
                tz: words[2],
                qi: words[3],
                qj: words[4],
                qk: words[5],
                qw: words[6],
            },
        }
    }
}

/// Whether every word of `words` is a word of `repr`.
pub open spec fn all_fit(repr: Repr, words: Seq<u64>) -> bool {
    forall|i: int| 0 <= i < words.len() ==> repr.fits(#[trigger] words[i])
}

/// A value of a native type: its representation and its words.
#[derive(Clone, Copy, Debug, PartialEq, Eq, Structural)]
pub struct NativeValue {
    pub repr: Repr,
    pub body: Body,
}

impl NativeValue {
    /// The concrete type of the value.
    pub open spec fn spec_key(self) -> TypeKey {
        TypeKey { kind: self.body.spec_kind(), repr: self.repr }
    }

    /// The words of the value.
    pub open spec fn spec_words(self) -> Seq<u64> {
        self.body.spec_words()
    }

    /// A value is well formed when each of its words is a word of its
    /// representation.
    pub open spec fn wf(self) -> bool {
        all_fit(self.repr, self.spec_words())
    }

    /// The value of type `key` made of `words`: there is one exactly when
    /// the count is that of the kind and every word fits the representation.
    pub open spec fn spec_from_words(key: TypeKey, words: Seq<u64>) -> Option<NativeValue> {
        if words.len() == key.kind.spec_width() && all_fit(key.repr, words) {
            Some(NativeValue { repr: key.repr, body: Body::of_words(key.kind, words) })
        } else {
            None
        }
    }

    /// The coordinate at `index`, for a value that has coordinates.
    pub open spec fn spec_coord(self, index: int) -> Option<u64> {
        if self.body.spec_kind().spec_has_coords() && 0 <= index < self.spec_words().len() {
            Some(self.spec_words()[index])
        } else {
            None
        }
    }

    /// The value with the coordinate at `index` replaced by `bits`. There
    /// is none where the value has no such coordinate or `bits` is no word
    /// of its representation.
    pub open spec fn spec_with_coord(self, index: int, bits: u64) -> Option<NativeValue> {
        if self.body.spec_kind().spec_has_coords() && 0 <= index < self.spec_words().len()
            && self.repr.fits(bits) {
            Some(
                NativeValue {
                    repr: self.repr,
                    body: Body::of_words(
                        self.body.spec_kind(),
                        self.spec_words().update(index, bits),
                    ),
                },
            )
        } else {
            None
        }
    }

    /// The concrete type of the value.
    pub fn key(&self) -> (r: TypeKey)
        ensures
            r == self.spec_key(),
    {
        let kind = match self.body {
            Body::Vector2 { .. } => TypeKind::Vector2,
            Body::Vector3 { .. } => TypeKind::Vector3,
            Body::Isometry2 { .. } => TypeKind::Isometry2,
            Body::Isometry3 { .. } => TypeKind::Isometry3,
        };
        TypeKey { kind, repr: self.repr }
    }

    /// The words of the value, in the order of the fields.
    pub fn words(&self) -> (r: Vec<u64>)
        ensures
            r@ == self.spec_words(),
    {
        match self.body {
            Body::Vector2 { x, y } => vec![x, y],
            Body::Vector3 { x, y, z } => vec![x, y, z],
            Body::Isometry2 { tx, ty, re, im } => vec![tx, ty, re, im],
            Body::Isometry3 { tx, ty, tz, qi, qj, qk, qw } => vec![tx, ty, tz, qi, qj, qk, qw],
        }
    }

    /// Whether each word of the value is a word of its representation.
    pub fn is_well_formed(&self) -> (r: bool)
        ensures
            r == self.wf(),
    {
        let words = self.words();
        words_fit(self.repr, words.as_slice())
    }

    /// The value of type `key` made of `words`, if the count is that of the
    /// kind and every word fits the representation.
    pub fn from_words(key: TypeKey, words: &[u64]) -> (r: Option<NativeValue>)
        ensures
            r == NativeValue::spec_from_words(key, words@),
            r matches Some(v) ==> v.wf() && v.spec_key() == key && v.spec_words() == words@,
    {
        if words.len() != key.kind.width() || !words_fit(key.repr, words) {
            return None;
        }
        let body = match key.kind {
            TypeKind::Vector2 => Body::Vector2 { x: words[0], y: words[1] },
            TypeKind::Vector3 => Body::Vector3 { x: words[0], y: words[1], z: words[2] },
            TypeKind::Isometry2 => Body::Isometry2 {
                tx: words[0],
                ty: words[1],
                re: words[2],
                im: words[3],
            },
            TypeKind::Isometry3 => Body::Isometry3 {
                tx: words[0],
                ty: words[1],
                tz: words[2],
                qi: words[3],
                qj: words[4],
                qk: words[5],
                qw: words[6],
            },
        };
        let v = NativeValue { repr: key.repr, body };
        assert(v.spec_words() =~= words@);
        Some(v)
    }

    /// The coordinate at `index`, for a value that has coordinates.
    pub fn coord(&self, index: usize) -> (r: Option<u64>)
        ensures
            r == self.spec_coord(index as int),
    {
        match self.body {
            Body::Vector2 { x, y } => if index == 0 {
                Some(x)
            } else if index == 1 {
                Some(y)
            } else {
                None
            },
            Body::Vector3 { x, y, z } => if index == 0 {
                Some(x)
            } else if index == 1 {
                Some(y)
            } else if index == 2 {
                Some(z)
            } else {
                None
            },
            _ => None,
        }
    }

    /// The value with the coordinate at `index` replaced by `bits`.
    pub fn with_coord(&self, index: usize, bits: u64) -> (r: Option<NativeValue>)
        ensures
            r == self.spec_with_coord(index as int, bits),
            self.wf() ==> (r matches Some(v) ==> v.wf() && v.spec_key() == self.spec_key()),
    {
        if !self.repr.holds(bits) {
            return None;
        }
        let body = match self.body {
            Body::Vector2 { x, y } => if index == 0 {
                Body::Vector2 { x: bits, y }
            } else if index == 1 {
                Body::Vector2 { x, y: bits }
            } else {
                return None;
            },
            Body::Vector3 { x, y, z } => if index == 0 {
                Body::Vector3 { x: bits, y, z }
            } else if index == 1 {
                Body::Vector3 { x, y: bits, z }
            } else if index == 2 {
                Body::Vector3 { x, y, z: bits }
            } else {
                return None;
            },
            _ => { return None; },
        };
        let v = NativeValue { repr: self.repr, body };
        proof {
            assert(v.spec_words() =~= self.spec_words().update(index as int, bits));
            if self.wf() {
                assert forall|i: int| 0 <= i < v.spec_words().len() implies self.repr.fits(
                    #[trigger] v.spec_words()[i],
                ) by {
                    if i != index {
                        assert(v.spec_words()[i] == self.spec_words()[i]);
                    }
                }
            }
        }
        Some(v)
    }

    /// A value is made of its own words.
    pub proof fn law_words_round_trip(self)
        requires
            self.wf(),
        ensures
            NativeValue::spec_from_words(self.spec_key(), self.spec_words()) == Some(self),
    {
    }
}

/// Whether every word of `words` is a word of `repr`.
pub fn words_fit(repr: Repr, words: &[u64]) -> (r: bool)
    ensures
        r == all_fit(repr, words@),
{
    let mut i: usize = 0;
    while i < words.len()
        invariant
            i <= words.len(),
            forall|j: int| 0 <= j < i ==> repr.fits(#[trigger] words@[j]),
        decreases words.len() - i,
    {
        if !repr.holds(words[i]) {
            return false;
        }
        i += 1;
    }
    true
}

/// A value as the scripting runtime passes it.
#[derive(Clone, Copy, Debug, PartialEq, Eq, Structural)]
pub enum Value {
    /// No value.
    Nil,
    Boolean(bool),
    /// A number, as the bits of the representation of the type addressed.
    Number(u64),
    /// A script object holding one native value: a handle into the
    /// object store.
    Object(usize),
    /// A pointer-sized token that stands for a type's identity.
    Token(usize),
}

/// What goes into a math operation or comes out of one.
#[derive(Clone, Copy, Debug, PartialEq, Eq, Structural)]
pub enum Datum {
    Scalar(u64),
    Native(NativeValue),
}

} // verus!
