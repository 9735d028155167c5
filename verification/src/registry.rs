//! The identity of types.
//!
//! Every concrete native type has one descriptor, made when the type is
//! first asked for and kept from then on. A descriptor is known by its
//! token, a pointer-sized number that can be handed to a script and taken
//! back. A token that comes back is checked before anything is read
//! through it: one that the registry never gave out is refused.

use vstd::prelude::*;
use crate::capability::Capability;
use crate::error::BridgeError;
use crate::userdata::{capabilities_of, Metatable};
use crate::value::{TypeKey, Value};

verus! {

/// The canonical record of one concrete native type.
#[derive(Debug)]
pub struct TypeDescriptor {
    key: TypeKey,
    token: usize,
    values: Metatable,
    type_object: Metatable,
}

impl TypeDescriptor {
    /// The type described.
    pub closed spec fn spec_key(&self) -> TypeKey {
        self.key
    }

    /// The token under which the registry keeps the descriptor.
    pub closed spec fn spec_token(&self) -> usize {
        self.token
    }

    /// The descriptor carries the metatables of its type.
    pub closed spec fn wf(&self) -> bool {
        &&& self.values.describes(self.key.kind)
        &&& self.type_object.describes_type(self.key.kind)
    }

    fn new(key: TypeKey, token: usize) -> (r: TypeDescriptor)
        ensures
            r.wf(),
            r.spec_key() == key,
            r.spec_token() == token,
    {
        TypeDescriptor {
            key,
            token,
            values: Metatable::of(key.kind),
            type_object: Metatable::of_type(key.kind),
        }
    }

    /// The type described.
    pub fn key(&self) -> (r: TypeKey)
        ensures
            r == self.spec_key(),
    {
        self.key
    }

    /// The token under which the registry keeps the descriptor.
    pub fn token(&self) -> (r: usize)
        ensures
            r == self.spec_token(),
    {
        self.token
    }

    /// The descriptor as a script value: its token.
    pub fn to_lua(&self) -> (r: Value)
        ensures
            r == Value::Token(self.spec_token()),
    {
        Value::Token(self.token)
    }

    /// The metatable of the values of the type.
    pub fn metatable(&self) -> (r: &Metatable)
        ensures
            self.wf() ==> r.describes(self.spec_key().kind),
    {
        &self.values
    }

    /// The metatable of the object that stands for the type.
    pub fn type_metatable(&self) -> (r: &Metatable)
        ensures
            self.wf() ==> r.describes_type(self.spec_key().kind),
    {
        &self.type_object
    }

    /// Whether values of the type have the capability.
    pub fn responds_to(&self, cap: Capability) -> (r: bool)
        requires
            self.wf(),
        ensures
            r == capabilities_of(self.spec_key().kind).contains(cap),
    {
        self.values.capabilities.has(cap)
    }
}

/// The types issued after `key` has been asked for, and the token of
/// `key`: the one it had, or the next one if it had none.
pub open spec fn of_spec(issued: Seq<TypeKey>, key: TypeKey) -> (Seq<TypeKey>, int) {
    if issued.contains(key) {
        (issued, issued.index_of(key))
    } else {
        (issued.push(key), issued.len() as int)
    }
}

/// What taking `value` back as a token gives, when `issued` tokens have
/// been given out: the tokens given out are the numbers below `issued`.
pub open spec fn decode_spec(issued: nat, value: Value) -> Result<usize, BridgeError> {
    match value {
        Value::Token(token) => if token < issued {
            Ok(token)
        } else {
            Err(BridgeError::InvalidHandle)
        },
        _ => Err(BridgeError::TypeMismatch),
    }
}

/// The descriptors of the types that have been asked for, in the order in
/// which they were first asked for.
#[derive(Debug)]
pub struct Registry {
    entries: Vec<TypeDescriptor>,
}

impl View for Registry {
    type V = Seq<TypeKey>;

    closed spec fn view(&self) -> Seq<TypeKey> {
        Seq::new(self.entries@.len(), |i: int| self.entries@[i].key)
    }
}

impl Registry {
    /// No type has two descriptors, and each descriptor is kept under its
    /// own token.
    pub closed spec fn wf(&self) -> bool {
        &&& self@.no_duplicates()
        &&& forall|i: int|
            0 <= i < self.entries@.len() ==> (#[trigger] self.entries@[i]).token == i
                && self.entries@[i].wf()
    }

    /// The registry that has given out no token.
    pub fn new() -> (r: Registry)
        ensures
            r.wf(),
            r@ == Seq::<TypeKey>::empty(),
    {
        let r = Registry { entries: Vec::new() };
        assert(r@ =~= Seq::<TypeKey>::empty());
        r
    }

    /// How many tokens have been given out.
    pub fn len(&self) -> (r: usize)
        ensures
            r == self@.len(),
    {
        self.entries.len()
    }

    /// The token of the type `key`. The first time a type is asked for its
    /// descriptor is made; every later time gives the same token and
    /// changes nothing.
    pub fn of(&mut self, key: TypeKey) -> (token: usize)
        requires
            old(self).wf(),
        ensures
            final(self).wf(),
            (final(self)@, token as int) == of_spec(old(self)@, key),
            token < final(self)@.len(),
            final(self)@[token as int] == key,
    {
        let mut i: usize = 0;
        while i < self.entries.len()
            invariant
                i <= self.entries@.len(),
                *self == *old(self),
                self.wf(),
                forall|j: int| 0 <= j < i ==> self@[j] != key,
            decreases self.entries@.len() - i,
        {
            if self.entries[i].key == key {
                proof {
                    assert(self@[i as int] == key);
                    assert(self@.contains(key));
                    let k = self@.index_of(key);
                    assert(self@[k] == key);
                }
                return i;
            }
            i += 1;
        }
        let token = self.entries.len();
        self.entries.push(TypeDescriptor::new(key, token));
        proof {
            assert(!old(self)@.contains(key));
            assert(self@ =~= old(self)@.push(key));
            assert forall|a: int, b: int|
                0 <= a < self@.len() && 0 <= b < self@.len() && a != b implies self@[a]
                != self@[b] by {
                if a < token && b < token {
                    assert(old(self)@[a] != old(self)@[b]);
                } else if a < token {
                    assert(old(self)@[a] != key);
                } else {
                    assert(old(self)@[b] != key);
                }
            }
            assert forall|i: int| 0 <= i < self.entries@.len() implies (
            #[trigger] self.entries@[i]).token == i && self.entries@[i].wf() by {
                if i < token {
                    assert(self.entries@[i] == old(self).entries@[i]);
                }
            }
        }
        token
    }

    /// The descriptor kept under `token`, if the token was given out.
    pub fn get(&self, token: usize) -> (r: Option<&TypeDescriptor>)
        requires
            self.wf(),
        ensures
            token < self@.len() ==> r is Some && r->Some_0.wf() && r->Some_0.spec_token() == token
                && r->Some_0.spec_key() == self@[token as int],
            token >= self@.len() ==> r is None,
    {
        if token < self.entries.len() {
            Some(&self.entries[token])
        } else {
            None
        }
    }

    /// Takes a script value back as a descriptor. A value that is no token
    /// is a type mismatch; a token that was never given out is an invalid
    /// handle. Nothing is read through a token before it has been found
    /// among those given out.
    pub fn from_lua(&self, value: Value) -> (r: Result<&TypeDescriptor, BridgeError>)
        requires
            self.wf(),
        ensures
            match decode_spec(self@.len(), value) {
                Ok(token) => r is Ok && r->Ok_0.wf() && r->Ok_0.spec_token() == token
                    && r->Ok_0.spec_key() == self@[token as int],
                Err(e) => r is Err && r->Err_0 == e,
            },
    {
        match value {
            Value::Token(token) => match self.get(token) {
                Some(descriptor) => Ok(descriptor),
                None => Err(BridgeError::InvalidHandle),
            },
            _ => Err(BridgeError::TypeMismatch),
        }
    }
}

/// A token that was never given out is refused as an invalid handle.
pub proof fn law_unissued_token_is_refused(issued: Seq<TypeKey>, token: usize)
    requires
        !(token < issued.len()),
    ensures
        decode_spec(issued.len(), Value::Token(token)) == Err::<usize, BridgeError>(
            BridgeError::InvalidHandle,
        ),
{
}

/// Asking for types in two places, one after the other: each token that
/// was given out is taken back as itself and stands for the type it was
/// given out for, the same type gets the same token both times, and two
/// different types never share a token.
pub proof fn law_one_descriptor_per_type(issued: Seq<TypeKey>, first: TypeKey, second: TypeKey)
    requires
        issued.no_duplicates(),
        issued.len() < usize::MAX,
    ensures
        ({
            let (once, a) = of_spec(issued, first);
            let (twice, b) = of_spec(once, second);
            &&& twice.no_duplicates()
            &&& decode_spec(twice.len(), Value::Token(a as usize)) == Ok::<usize, BridgeError>(
                a as usize,
            )
            &&& decode_spec(twice.len(), Value::Token(b as usize)) == Ok::<usize, BridgeError>(
                b as usize,
            )
            &&& twice[a] == first
            &&& twice[b] == second
            &&& (first == second <==> a == b)
        }),
{
    let (once, a) = of_spec(issued, first);
    lemma_of_spec(issued, first);
    lemma_of_spec(once, second);
}

/// What asking for a type keeps and gives.
pub proof fn lemma_of_spec(issued: Seq<TypeKey>, key: TypeKey)
    requires
        issued.no_duplicates(),
    ensures
        ({
            let (after, token) = of_spec(issued, key);
            &&& after.no_duplicates()
            &&& 0 <= token < after.len()
            &&& after[token] == key
            &&& issued.len() <= after.len() <= issued.len() + 1
            &&& forall|i: int| 0 <= i < issued.len() ==> after[i] == issued[i]
        }),
{
    if issued.contains(key) {
        let k = issued.index_of(key);
        assert(issued[k] == key);
    } else {
        let after = issued.push(key);
        assert forall|a: int, b: int|
            0 <= a < after.len() && 0 <= b < after.len() && a != b implies after[a]
            != after[b] by {
            if a < issued.len() && b < issued.len() {
                assert(issued[a] != issued[b]);
            }
        }
    }
}

} // verus!
