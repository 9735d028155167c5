//! The capabilities that a type declares to scripts.

use vstd::prelude::*;
use crate::error::BridgeError;
use crate::value::TypeKind;

verus! {

/// A behaviour that a type offers beyond its own fields and methods.
#[derive(Clone, Copy, Debug, PartialEq, Eq, Structural)]
pub enum Capability {
    /// Values can be duplicated.
    Clone,
    /// Values can be duplicated bit by bit.
    Copy,
    /// Values can be moved to another thread.
    Send,
    /// Values can be shared between threads.
    Sync,
    /// Values can be printed for a human reader.
    Debug,
    /// The value stands for a type and can name the type it stands for.
    MetaType,
    /// Values can be made from values of the given kind.
    ConvertFrom(TypeKind),
}

/// The capabilities declared for one type. A capability is in the set or it
/// is not: declaring it again changes nothing, and none is ever taken out.
#[derive(Debug)]
pub struct CapabilitySet {
    items: Vec<Capability>,
}

impl View for CapabilitySet {
    type V = Set<Capability>;

    open spec fn view(&self) -> Set<Capability> {
        self.order().to_set()
    }
}

impl CapabilitySet {
    /// The capabilities in the order in which they were first declared.
    pub closed spec fn order(&self) -> Seq<Capability> {
        self.items@
    }

    /// No capability is stored twice.
    pub open spec fn wf(&self) -> bool {
        self.order().no_duplicates()
    }

    /// The set in which nothing is declared.
    pub fn new() -> (r: CapabilitySet)
        ensures
            r.wf(),
            r.order() == Seq::<Capability>::empty(),
            r@ == Set::<Capability>::empty(),
    {
        let r = CapabilitySet { items: Vec::new() };
        assert(r@ =~= Set::<Capability>::empty());
        r
    }

    /// Whether `cap` has been declared.
    pub fn has(&self, cap: Capability) -> (r: bool)
        ensures
            r == self@.contains(cap),
    {
        let mut i: usize = 0;
        while i < self.items.len()
            invariant
                i <= self.items@.len(),
                forall|j: int| 0 <= j < i ==> self.items@[j] != cap,
            decreases self.items@.len() - i,
        {
            if self.items[i] == cap {
                assert(self.items@.contains(cap));
                return true;
            }
            i += 1;
        }
        assert(!self.items@.contains(cap));
        false
    }

    /// Declares `cap`. The set gains it if it was not there and stays as it
    /// is if it was.
    pub fn declare(&mut self, cap: Capability)
        requires
            old(self).wf(),
        ensures
            final(self).wf(),
            final(self)@ == old(self)@.insert(cap),
            final(self).order() == if old(self)@.contains(cap) {
                old(self).order()
            } else {
                old(self).order().push(cap)
            },
    {
        if !self.has(cap) {
            self.items.push(cap);
            proof {
                let before = old(self).items@;
                let after = self.items@;
                assert(after == before.push(cap));
                assert forall|c: Capability| after.to_set().contains(c) == before.to_set().insert(
                    cap,
                ).contains(c) by {
                    if before.contains(c) {
                        let k = choose|k: int| 0 <= k < before.len() && before[k] == c;
                        assert(after[k] == c);
                    }
                    if c == cap {
                        assert(after[before.len() as int] == c);
                    }
                }
                assert(after.to_set() =~= before.to_set().insert(cap));
            }
        } else {
            assert(self@ =~= old(self)@.insert(cap));
        }
    }

    /// Composes the set that a list of declarations stands for, as it is
    /// done while a namespace is assembled. There a list that names a
    /// capability twice is a conflict, and no set is made.
    pub fn compose(list: &Vec<Capability>) -> (r: Result<CapabilitySet, BridgeError>)
        ensures
            list@.no_duplicates() ==> r is Ok && r->Ok_0.wf() && r->Ok_0.order() == list@,
            !list@.no_duplicates() ==> r is Err && r->Err_0 == BridgeError::RegistrationConflict,
    {
        let mut set = CapabilitySet { items: Vec::new() };
        assert(set.items@ =~= list@.subrange(0, 0));
        let mut i: usize = 0;
        while i < list.len()
            invariant
                i <= list@.len(),
                set.wf(),
                set.items@ == list@.subrange(0, i as int),
            decreases list@.len() - i,
        {
            let cap = list[i];
            if set.has(cap) {
                proof {
                    let k = choose|k: int| 0 <= k < set.items@.len() && set.items@[k] == cap;
                    assert(list@[k] == list@[i as int]);
                }
                return Err(BridgeError::RegistrationConflict);
            }
            set.items.push(cap);
            proof {
                let before = list@.subrange(0, i as int);
                assert(set.items@ =~= list@.subrange(0, i + 1));
                assert forall|a: int, b: int|
                    0 <= a < set.items@.len() && 0 <= b < set.items@.len() && a != b implies set.items@[a]
                    != set.items@[b] by {
                    if a < i && b < i {
                        assert(before[a] != before[b]);
                    } else if a < i {
                        assert(before.contains(before[a]));
                    } else {
                        assert(before.contains(before[b]));
                    }
                }
            }
            i += 1;
        }
        assert(set.items@ =~= list@);
        Ok(set)
    }

    /// How many capabilities have been declared.
    pub fn len(&self) -> (r: usize)
        requires
            self.wf(),
        ensures
            r == self@.len(),
    {
        proof {
            self.items@.unique_seq_to_set();
        }
        self.items.len()
    }

    /// The capabilities in the order in which they were first declared.
    pub fn to_vec(&self) -> (r: Vec<Capability>)
        ensures
            r@ == self.order(),
    {
        let mut out: Vec<Capability> = Vec::new();
        let mut i: usize = 0;
        while i < self.items.len()
            invariant
                i <= self.items@.len(),
                out@ == self.items@.subrange(0, i as int),
            decreases self.items@.len() - i,
        {
            out.push(self.items[i]);
            assert(out@ =~= self.items@.subrange(0, i + 1));
            i += 1;
        }
        assert(out@ =~= self.items@);
        out
    }
}

/// Declaring a capability a second time changes nothing.
pub proof fn law_declaration_idempotent(caps: Set<Capability>, cap: Capability)
    ensures
        caps.insert(cap).insert(cap) == caps.insert(cap),
{
    assert(caps.insert(cap).insert(cap) =~= caps.insert(cap));
}

/// The order in which two capabilities are declared does not matter.
pub proof fn law_declaration_order_independent(
    caps: Set<Capability>,
    first: Capability,
    second: Capability,
)
    ensures
        caps.insert(first).insert(second) == caps.insert(second).insert(first),
{
    assert(caps.insert(first).insert(second) =~= caps.insert(second).insert(first));
}

} // verus!
