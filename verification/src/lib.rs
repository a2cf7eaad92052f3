use vstd::prelude::*;

pub mod decimal;
pub mod defs;
pub mod enums;
mod impls;
mod primitives;
pub mod attrs;
pub mod json;
pub mod rename;
pub mod structs;
pub mod types;

use defs::DefType;

verus! {

/// Dense index of a descriptor within one catalog; `0` is the root.
pub type TypeId = usize;

/// Accumulates one descriptor for every distinct type reachable from a root.
///
/// Each distinct type is identified by its fully qualified display name, which
/// the capability interface supplies, so no runtime reflection facility is
/// needed; identities are assigned densely in first-visit order.
pub struct TypesCollector {
    types: Vec<Option<DefType>>,
    keys: Vec<String>,
}

impl TypesCollector {
    /// Well-formed: one identity key per slot, keys pairwise distinct, and
    /// every finished descriptor carries its own key as name and references
    /// only registered identities.
    pub closed spec fn wf(self) -> bool {
        &&& self.types@.len() == self.keys@.len()
        &&& forall|i: int, j: int|
            0 <= i < j < self.keys@.len() ==> self.keys@[i]@ != self.keys@[j]@
        &&& forall|i: int|
            0 <= i < self.types@.len() ==> ((#[trigger] self.types@[i]) matches Some(d) ==> {
                &&& d.def_name() == self.keys@[i]@
                &&& d.refs_ok(self.types@.len() as nat)
            })
    }

    /// Number of identities registered so far.
    pub closed spec fn len_spec(self) -> nat {
        self.keys@.len()
    }

    /// The identity key registered under `id`.
    pub closed spec fn key_at(self, id: int) -> Seq<char> {
        self.keys@[id]@
    }

    /// The finished descriptor in slot `id`.
    pub closed spec fn slot_at(self, id: int) -> DefType {
        self.types@[id]->Some_0
    }

    /// Everything registered in `prior` is still registered, unchanged.
    pub closed spec fn preserves(self, prior: TypesCollector) -> bool {
        &&& self.keys@.len() >= prior.keys@.len()
        &&& forall|i: int|
            0 <= i < prior.keys@.len() ==> self.keys@[i] == prior.keys@[i]
        &&& forall|i: int|
            0 <= i < prior.keys@.len() ==> self.types@[i] == prior.types@[i]
    }

    /// Every slot from `from` on holds a finished descriptor.
    pub closed spec fn filled_from(self, from: nat) -> bool {
        forall|i: int| from <= i < self.types@.len() ==> self.types@[i] is Some
    }

    pub fn new() -> (r: TypesCollector)
        ensures
            r.wf(),
            r.len_spec() == 0,
    {
        TypesCollector { types: Vec::new(), keys: Vec::new() }
    }

    /// Register `T` and everything reachable from it; return `T`'s identity.
    ///
    /// A type already registered is not visited again: its existing identity
    /// comes back and the state is left exactly as it was. Registering the
    /// identity before `T::def` runs is what lets a self-referential type
    /// resolve back to its own reserved identity instead of recursing forever.
    pub fn collect<T: Inspect + ?Sized>(&mut self) -> (id: TypeId)
        requires
            old(self).wf(),
        ensures
            final(self).wf(),
            final(self).preserves(*old(self)),
            final(self).filled_from(old(self).len_spec()),
            id < final(self).len_spec(),
            final(self).key_at(id as int) == T::key(),
            (exists|i: int| 0 <= i < old(self).len_spec() && old(self).key_at(i) == T::key())
                ==> *final(self) == *old(self),
            !(exists|i: int| 0 <= i < old(self).len_spec() && old(self).key_at(i) == T::key())
                ==> id == old(self).len_spec() && final(self).len_spec() > old(self).len_spec(),
    {
        let name = T::name();
        let n = self.keys.len();
        let mut i: usize = 0;
        while i < n
            invariant
                *self == *old(self),
                old(self).wf(),
                name@ == T::key(),
                n == self.keys@.len(),
                i <= n,
                forall|j: int| 0 <= j < i ==> self.keys@[j]@ != name@,
            decreases n - i,
        {
            if self.keys[i] == name {
                proof {
                    assert(old(self).key_at(i as int) == T::key());
                }
                return i;
            }
            i += 1;
        }
        let id = self.types.len();
        self.keys.push(name);
        self.types.push(None);
        let d = T::def(self);
        self.types.set(id, Some(d));
        id
    }

    /// A preserved collector keeps every previously registered key, unmoved.
    pub proof fn lemma_preserved_key(self, prior: TypesCollector, i: int)
        requires
            self.preserves(prior),
            0 <= i < prior.len_spec(),
        ensures
            self.key_at(i) == prior.key_at(i),
            self.len_spec() >= prior.len_spec(),
    {
    }

    /// Hand out the finished catalog, in identity order.
    pub fn into_types(self) -> (r: Vec<DefType>)
        requires
            self.wf(),
            self.filled_from(0),
        ensures
            r@.len() == self.len_spec(),
            forall|i: int| 0 <= i < r@.len() ==> r@[i] == self.slot_at(i),
    {
        let ghost orig = self.types@;
        let mut out: Vec<DefType> = Vec::new();
        let mut types = self.types;
        while types.len() > 0
            invariant
                out@.len() + types@.len() == orig.len(),
                types@ == orig.subrange(out@.len() as int, orig.len() as int),
                forall|i: int| 0 <= i < orig.len() ==> orig[i] is Some,
                forall|i: int| 0 <= i < out@.len() ==> Some(out@[i]) == orig[i],
            decreases types@.len(),
        {
            let slot = types.remove(0);
            out.push(slot.unwrap());
        }
        out
    }
}

/// The capability interface: the contract a type satisfies to be cataloged.
///
/// `key` is the ghost identity under which the type registers; the executable
/// `name` must produce exactly that string. `def` builds the type's own
/// descriptor, registering every referenced type through the collector it is
/// handed, and must leave the collector well-formed with all new slots
/// finished.
pub trait Inspect {
    /// The identity key (the fully qualified display name) of this type.
    spec fn key() -> Seq<char>;

    fn name() -> (r: String)
        ensures
            r@ == Self::key(),
    ;

    /// The size in bytes, or `None` for genuinely unsized shapes.
    fn size() -> (r: Option<usize>);

    /// The alignment in bytes, or `None` where it cannot be known.
    fn align() -> (r: Option<usize>);

    fn def(collector: &mut TypesCollector) -> (d: DefType)
        requires
            old(collector).wf(),
        ensures
            final(collector).wf(),
            final(collector).preserves(*old(collector)),
            final(collector).filled_from(old(collector).len_spec()),
            d.def_name() == Self::key(),
            d.refs_ok(final(collector).len_spec()),
    ;
}

/// The process-stable identity key of `T`: its fully qualified display name.
pub fn type_id_of<T: Inspect + ?Sized>() -> (r: String)
    ensures
        r@ == T::key(),
{
    T::name()
}

/// Produce the catalog of every type reachable from the root `T`.
///
/// Index 0 is the root's descriptor, descriptors are in first-visit order,
/// display names are pairwise distinct, and every `TypeId` mentioned anywhere
/// in the catalog indexes an entry of the catalog itself.
///
/// These clauses pin the catalog's structure; the contents of each entry are
/// pinned by the `def` contract of the type registered there, so the whole
/// result is underdetermined by this contract alone and determined only
/// together with the impls'. Each call builds its own fresh collector and
/// reads nothing but the capability implementations, which the contracts
/// require to be functions of their types alone, so two calls in one process
/// return equal catalogs.
pub fn inspect<T: Inspect + ?Sized>() -> (r: Vec<DefType>)
    ensures
        r@.len() >= 1,
        r@[0].def_name() == T::key(),
        forall|i: int| 0 <= i < r@.len() ==> (#[trigger] r@[i]).refs_ok(r@.len() as nat),
        forall|i: int, j: int|
            0 <= i < j < r@.len() ==> r@[i].def_name() != r@[j].def_name(),
{
    let mut collector = TypesCollector::new();
    collector.collect::<T>();
    let ghost c = collector;
    let r = collector.into_types();
    proof {
        assert forall|i: int| 0 <= i < r@.len() implies (#[trigger] r@[i]).refs_ok(
            r@.len() as nat,
        ) by {
            assert(c.types@[i] is Some);
            assert(r@[i] == c.slot_at(i));
        }
        assert forall|i: int, j: int|
            0 <= i < j < r@.len() implies r@[i].def_name() != r@[j].def_name() by {
            assert(c.types@[i] is Some && c.types@[j] is Some);
            assert(r@[i] == c.slot_at(i) && r@[j] == c.slot_at(j));
        }
        assert(c.types@[0] is Some);
        assert(c.key_at(0) == T::key());
        assert(r@[0] == c.slot_at(0));
    }
    r
}

} // verus!
