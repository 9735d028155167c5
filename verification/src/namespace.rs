//! The namespace that scripts see: each type under its name, and under
//! each type a constructor for every representation it comes in.

use vstd::prelude::*;
use crate::error::{BridgeError, LookupError};
use crate::type_object::Type;
use crate::value::{Repr, TypeKey, TypeKind};

verus! {

/// One kind of value and the representations it is registered in.
#[derive(Debug)]
pub struct Family {
    pub kind: TypeKind,
    pub reprs: Vec<Repr>,
}

impl View for Family {
    type V = (TypeKind, Seq<Repr>);

    open spec fn view(&self) -> (TypeKind, Seq<Repr>) {
        (self.kind, self.reprs@)
    }
}

/// The kinds of `families`, in order.
pub open spec fn kinds(families: Seq<(TypeKind, Seq<Repr>)>) -> Seq<TypeKind> {
    Seq::new(families.len(), |i: int| families[i].0)
}

/// Nothing is registered twice: no kind has two families, and no family
/// lists a representation twice.
pub open spec fn free_of_conflicts(families: Seq<(TypeKind, Seq<Repr>)>) -> bool {
    &&& kinds(families).no_duplicates()
    &&& forall|i: int| 0 <= i < families.len() ==> (#[trigger] families[i]).1.no_duplicates()
}

/// What looking up a type name and a representation name gives.
pub open spec fn lookup_spec(
    families: Seq<(TypeKind, Seq<Repr>)>,
    kind_name: Seq<char>,
    repr_name: Seq<char>,
) -> Result<Type, LookupError> {
    match TypeKind::named(kind_name) {
        None => Err(LookupError::UnknownType),
        Some(kind) => match kinds(families).index_of_first(kind) {
            None => Err(LookupError::UnknownType),
            Some(i) => match Repr::named(repr_name) {
                None => Err(LookupError::UnknownRepresentation),
                Some(repr) => if families[i].1.contains(repr) {
                    Ok(Type { key: TypeKey { kind, repr } })
                } else {
                    Err(LookupError::UnknownRepresentation)
                },
            },
        },
    }
}

/// The namespace that the bridge offers: every kind, each in single and
/// in double precision.
pub open spec fn standard() -> Seq<(TypeKind, Seq<Repr>)> {
    seq![
        (TypeKind::Vector2, seq![Repr::F32, Repr::F64]),
        (TypeKind::Vector3, seq![Repr::F32, Repr::F64]),
        (TypeKind::Isometry2, seq![Repr::F32, Repr::F64]),
        (TypeKind::Isometry3, seq![Repr::F32, Repr::F64]),
    ]
}

/// A namespace, assembled once and only read from then on.
#[derive(Debug)]
pub struct Namespace {
    families: Vec<Family>,
}

impl View for Namespace {
    type V = Seq<(TypeKind, Seq<Repr>)>;

    closed spec fn view(&self) -> Seq<(TypeKind, Seq<Repr>)> {
        Seq::new(self.families@.len(), |i: int| self.families@[i]@)
    }
}

fn repeats(reprs: &Vec<Repr>) -> (r: bool)
    ensures
        r == !reprs@.no_duplicates(),
{
    let mut i: usize = 0;
    while i < reprs.len()
        invariant
            i <= reprs@.len(),
            forall|a: int, b: int| 0 <= a < b < i ==> reprs@[a] != reprs@[b],
        decreases reprs@.len() - i,
    {
        let mut j: usize = 0;
        while j < i
            invariant
                j <= i < reprs@.len(),
                forall|a: int| 0 <= a < j ==> reprs@[a] != reprs@[i as int],
            decreases i - j,
        {
            if reprs[j] == reprs[i] {
                return true;
            }
            j += 1;
        }
        i += 1;
    }
    assert forall|a: int, b: int|
        0 <= a < reprs@.len() && 0 <= b < reprs@.len() && a != b implies reprs@[a]
        != reprs@[b] by {
        if a < b {
        } else {
            assert(reprs@[b] != reprs@[a]);
        }
    }
    false
}

fn lists(reprs: &Vec<Repr>, repr: Repr) -> (r: bool)
    ensures
        r == reprs@.contains(repr),
{
    let mut j: usize = 0;
    while j < reprs.len()
        invariant
            j <= reprs@.len(),
            forall|a: int| 0 <= a < j ==> reprs@[a] != repr,
        decreases reprs@.len() - j,
    {
        if reprs[j] == repr {
            assert(reprs@.contains(repr));
            return true;
        }
        j += 1;
    }
    false
}

impl Namespace {
    /// Nothing is registered twice.
    pub open spec fn wf(&self) -> bool {
        free_of_conflicts(self@)
    }

    /// Assembles a namespace from the families given. A kind that has two
    /// families, or a family that lists a representation twice, is a
    /// conflict, and no namespace is made.
    pub fn assemble(families: Vec<Family>) -> (r: Result<Namespace, BridgeError>)
        ensures
            free_of_conflicts(Seq::new(families@.len(), |i: int| families@[i]@)) ==> r is Ok
                && r->Ok_0.wf() && r->Ok_0@ == Seq::new(families@.len(), |i: int| families@[i]@),
            !free_of_conflicts(Seq::new(families@.len(), |i: int| families@[i]@)) ==> r is Err
                && r->Err_0 == BridgeError::RegistrationConflict,
    {
        let ghost views = Seq::new(families@.len(), |i: int| families@[i]@);
        let mut i: usize = 0;
        while i < families.len()
            invariant
                i <= families@.len(),
                views == Seq::new(families@.len(), |i: int| families@[i]@),
                forall|a: int, b: int| 0 <= a < b < i ==> families@[a].kind != families@[b].kind,
                forall|a: int| 0 <= a < i ==> (#[trigger] families@[a]).reprs@.no_duplicates(),
            decreases families@.len() - i,
        {
            if repeats(&families[i].reprs) {
                proof {
                    assert(views[i as int].1 == families@[i as int].reprs@);
                    assert(!free_of_conflicts(views));
                }
                return Err(BridgeError::RegistrationConflict);
            }
            let mut j: usize = 0;
            while j < i
                invariant
                    j <= i < families@.len(),
                    views == Seq::new(families@.len(), |i: int| families@[i]@),
                    forall|a: int| 0 <= a < j ==> families@[a].kind != families@[i as int].kind,
                decreases i - j,
            {
                if families[j].kind == families[i].kind {
                    proof {
                        let ks = kinds(views);
                        assert(ks[j as int] == ks[i as int]);
                        assert(!free_of_conflicts(views));
                    }
                    return Err(BridgeError::RegistrationConflict);
                }
                j += 1;
            }
            i += 1;
        }
        proof {
            let ks = kinds(views);
            assert forall|a: int, b: int|
                0 <= a < ks.len() && 0 <= b < ks.len() && a != b implies ks[a] != ks[b] by {
                if a < b {
                    assert(families@[a].kind != families@[b].kind);
                } else {
                    assert(families@[b].kind != families@[a].kind);
                }
            }
            assert forall|i: int| 0 <= i < views.len() implies (
            #[trigger] views[i]).1.no_duplicates() by {
                assert(families@[i].reprs@.no_duplicates());
            }
        }
        let r = Namespace { families };
        assert(r@ =~= views);
        Ok(r)
    }

    /// How many kinds are registered.
    pub fn len(&self) -> (r: usize)
        ensures
            r == self@.len(),
    {
        self.families.len()
    }

    /// Looks up the constructor of the type registered under `kind_name`
    /// in the representation registered under `repr_name`. A name under
    /// which no type is registered fails in one way, a representation in
    /// which the type is not registered in another.
    pub fn lookup(&self, kind_name: &str, repr_name: &str) -> (r: Result<Type, LookupError>)
        ensures
            r == lookup_spec(self@, kind_name@, repr_name@),
    {
        let kind = match TypeKind::from_name(kind_name) {
            Some(kind) => kind,
            None => {
                return Err(LookupError::UnknownType);
            },
        };
        let i = match self.position(kind) {
            Some(i) => i,
            None => {
                return Err(LookupError::UnknownType);
            },
        };
        let repr = match Repr::from_name(repr_name) {
            Some(repr) => repr,
            None => {
                return Err(LookupError::UnknownRepresentation);
            },
        };
        assert(self.families@[i as int].reprs@ == self@[i as int].1);
        if lists(&self.families[i].reprs, repr) {
            Ok(Type { key: TypeKey { kind, repr } })
        } else {
            Err(LookupError::UnknownRepresentation)
        }
    }

    fn position(&self, kind: TypeKind) -> (r: Option<usize>)
        ensures
            match r {
                Some(i) => kinds(self@).index_of_first(kind) == Some(i as int)
                    && i < self.families@.len(),
                None => kinds(self@).index_of_first(kind) is None,
            },
    {
        let ghost ks = kinds(self@);
        let mut i: usize = 0;
        while i < self.families.len()
            invariant
                i <= self.families@.len(),
                ks == kinds(self@),
                forall|a: int| 0 <= a < i ==> ks[a] != kind,
            decreases self.families@.len() - i,
        {
            if self.families[i].kind == kind {
                proof {
                    assert(ks[i as int] == kind);
                    ks.index_of_first_ensures(kind);
                }
                return Some(i);
            }
            i += 1;
        }
        proof {
            ks.index_of_first_ensures(kind);
        }
        None
    }
}

/// Builds the namespace that the bridge offers. Assembly cannot fail: the
/// list it is built from registers nothing twice.
pub fn table() -> (r: Result<Namespace, BridgeError>)
    ensures
        r is Ok,
        r->Ok_0.wf(),
        r->Ok_0@ == standard(),
{
    let all: Vec<TypeKind> = vec![
        TypeKind::Vector2,
        TypeKind::Vector3,
        TypeKind::Isometry2,
        TypeKind::Isometry3,
    ];
    let mut families: Vec<Family> = Vec::new();
    let mut i: usize = 0;
    while i < all.len()
        invariant
            i <= all@.len(),
            all@ == seq![
                TypeKind::Vector2,
                TypeKind::Vector3,
                TypeKind::Isometry2,
                TypeKind::Isometry3,
            ],
            families@.len() == i,
            forall|a: int| 0 <= a < i ==> (#[trigger] families@[a])@ == standard()[a],
        decreases all@.len() - i,
    {
        let family = Family { kind: all[i], reprs: vec![Repr::F32, Repr::F64] };
        assert(family@.1 =~= standard()[i as int].1);
        families.push(family);
        i += 1;
    }
    let ghost views = Seq::new(families@.len(), |i: int| families@[i]@);
    proof {
        assert(views =~= standard());
        lemma_standard_is_free_of_conflicts();
    }
    Namespace::assemble(families)
}

/// The namespace that the bridge offers registers nothing twice.
pub proof fn lemma_standard_is_free_of_conflicts()
    ensures
        free_of_conflicts(standard()),
{
    let ns = standard();
    let ks = kinds(ns);
    assert(ks =~= seq![
        TypeKind::Vector2,
        TypeKind::Vector3,
        TypeKind::Isometry2,
        TypeKind::Isometry3,
    ]);
    assert(ks.no_duplicates());
    assert forall|i: int| 0 <= i < ns.len() implies (#[trigger] ns[i]).1.no_duplicates() by {
        assert(ns[i].1 =~= seq![Repr::F32, Repr::F64]);
    }
}

/// The namespace as a whole, for a runtime that loads it as a module.
#[derive(Clone, Copy, Debug)]
pub struct Module;

impl Module {
    /// The namespace that the module stands for.
    pub fn to_lua(self) -> (r: Result<Namespace, BridgeError>)
        ensures
            r is Ok,
            r->Ok_0.wf(),
            r->Ok_0@ == standard(),
    {
        table()
    }
}

/// A type that is registered in a representation is found under the name
/// of its kind and the tag of the representation, and what is found is
/// the constructor of exactly that type.
pub proof fn law_registered_is_found(families: Seq<(TypeKind, Seq<Repr>)>, i: int, repr: Repr)
    requires
        free_of_conflicts(families),
        0 <= i < families.len(),
        families[i].1.contains(repr),
    ensures
        lookup_spec(families, families[i].0.spec_name(), repr.spec_name()) == Ok::<
            Type,
            LookupError,
        >(Type { key: TypeKey { kind: families[i].0, repr } }),
{
    let kind = families[i].0;
    kind.lemma_named_name();
    repr.lemma_named_name();
    let ks = kinds(families);
    assert(ks[i] == kind);
    ks.index_of_first_ensures(kind);
}

/// The namespace that the bridge offers lists every kind in every
/// representation.
pub proof fn law_standard_lists_every_type(kind: TypeKind, repr: Repr)
    ensures
        lookup_spec(standard(), kind.spec_name(), repr.spec_name()) == Ok::<Type, LookupError>(
            Type { key: TypeKey { kind, repr } },
        ),
{
    lemma_standard_is_free_of_conflicts();
    let ns = standard();
    let i: int = match kind {
        TypeKind::Vector2 => 0,
        TypeKind::Vector3 => 1,
        TypeKind::Isometry2 => 2,
        TypeKind::Isometry3 => 3,
    };
    assert(ns[i].0 == kind);
    let j: int = match repr {
        Repr::F32 => 0,
        Repr::F64 => 1,
    };
    assert(ns[i].1[j] == repr);
    law_registered_is_found(ns, i, repr);
}

/// The two ways in which a lookup fails are told apart by what is
/// missing. It fails for an unknown type exactly when no registered kind
/// goes by the type name. It fails for an unknown representation exactly
/// when a registered kind goes by the type name and is not registered in
/// a representation that goes by the representation name.
pub proof fn law_failures_are_distinct(
    families: Seq<(TypeKind, Seq<Repr>)>,
    kind_name: Seq<char>,
    repr_name: Seq<char>,
)
    requires
        free_of_conflicts(families),
    ensures
        lookup_spec(families, kind_name, repr_name) == Err::<Type, LookupError>(
            LookupError::UnknownType,
        ) <==> (forall|i: int|
            0 <= i < families.len() ==> (#[trigger] families[i]).0.spec_name() != kind_name),
        lookup_spec(families, kind_name, repr_name) == Err::<Type, LookupError>(
            LookupError::UnknownRepresentation,
        ) <==> (exists|i: int|
            0 <= i < families.len() && (#[trigger] families[i]).0.spec_name() == kind_name
                && forall|j: int|
                0 <= j < families[i].1.len() ==> (#[trigger] families[i].1[j]).spec_name()
                    != repr_name),
{
    let ks = kinds(families);
    assert forall|k: TypeKind| TypeKind::named(#[trigger] k.spec_name()) == Some(k) by {
        k.lemma_named_name();
    }
    assert forall|p: Repr| Repr::named(#[trigger] p.spec_name()) == Some(p) by {
        p.lemma_named_name();
    }
    match TypeKind::named(kind_name) {
        None => {},
        Some(kind) => {
            assert(kind.spec_name() == kind_name);
            ks.index_of_first_ensures(kind);
            match ks.index_of_first(kind) {
                None => {
                    assert forall|i: int| 0 <= i < families.len() implies (
                    #[trigger] families[i]).0.spec_name() != kind_name by {
                        assert(ks[i] == families[i].0);
                        assert(ks.contains(ks[i]));
                    }
                },
                Some(i) => {
                    assert(ks[i] == families[i].0);
                    assert forall|a: int|
                        0 <= a < families.len() && (#[trigger] families[a]).0.spec_name()
                            == kind_name implies a == i by {
                        assert(ks[a] == families[a].0);
                    }
                    match Repr::named(repr_name) {
                        None => {},
                        Some(repr) => {
                            assert(repr.spec_name() == repr_name);
                            if families[i].1.contains(repr) {
                                let j = families[i].1.index_of(repr);
                                assert(families[i].1[j].spec_name() == repr_name);
                            }
                        },
                    }
                },
            }
        },
    }
}

} // verus!
