//! The compiler uses arena allocation for the data structures that represent
//! the program being compiled. This eases the implementation because no care
//! needs to be taken about dropping data: every allocation stays valid and
//! unchanged for the whole lifetime of its region, and the regions are torn
//! down together when compilation of the unit ends. It is also faster than
//! any alternative allocation strategy since we never drop the data.

use vstd::prelude::*;
use vstd::std_specs::cmp::PartialEqSpec;

use crate::name::Id;
use crate::name::Ns;
use crate::name::texts_of;
use crate::syntactic::Def;
use crate::syntactic::Term;
use crate::syntactic::Type;

verus! {

/// Relies on typed_arena::Arena, an append-only allocation region: values
/// placed in it stay valid and unchanged until the arena itself is dropped.
/// The type is opaque here; only the wrappers below touch it.
#[verifier::external_type_specification]
#[verifier::external_body]
#[verifier::reject_recursive_types(T)]
pub struct ExArena<T>(typed_arena::Arena<T>);

/// Relies on typed_arena::Arena::alloc_str: the returned string is a copy of
/// the argument, placed in the arena and valid for the arena's lifetime.
#[verifier::external_body]
fn arena_copy_str<'a>(arena: &'a typed_arena::Arena<u8>, text: &str) -> (r: &'a str)
    ensures
        r@ == text@,
{
    arena.alloc_str(text)
}

/// Relies on typed_arena::Arena::alloc_extend: the returned slice holds
/// exactly the items drawn from the iterator, in order, placed in the arena
/// and valid for the arena's lifetime.
#[verifier::external_body]
fn arena_copy_ids<'a>(arena: &'a typed_arena::Arena<Id<'a>>, segments: &[Id<'a>]) -> (r: &'a [Id<'a>])
    ensures
        r@ == segments@,
{
    arena.alloc_extend(segments.iter().copied())
}

/// Relies on typed_arena::Arena::alloc: the returned reference points at the
/// value just moved into the arena and is valid for the arena's lifetime.
#[verifier::external_body]
fn arena_place<'a, T>(arena: &'a typed_arena::Arena<T>, value: T) -> (r: &'a T)
    ensures
        *r == value,
{
    arena.alloc(value)
}

/// One independent append-only allocation region per allocated shape: raw
/// identifier text, identifier arrays, and one region per syntactic node
/// kind. All regions share one externally managed lifetime scope, so a
/// single teardown reclaims everything; no reference handed out by any of
/// the allocation operations is ever individually freed or mutated.
pub struct Arenas<'a> {
    pub bytes: &'a typed_arena::Arena<u8>,
    pub ids: &'a typed_arena::Arena<Id<'a>>,
    pub defs: &'a typed_arena::Arena<Def<'a>>,
    pub types: &'a typed_arena::Arena<Type<'a>>,
    pub terms: &'a typed_arena::Arena<Term<'a>>,
}

impl<'a> Arenas<'a> {
    /// Copies `name`'s text into the byte region and returns an identifier
    /// whose view is that copy. Equal input text gives identifiers that
    /// compare equal, even though each call copies into distinct storage.
    pub fn allocId(&self, name: &str) -> (r: Id<'a>)
        ensures
            r@ == name@,
    {
        Id { name: arena_copy_str(self.bytes, name) }
    }

    /// Copies `segments` into the identifier-array region, preserving order
    /// and length exactly.
    pub fn allocNs(&self, segments: &[Id<'a>]) -> (r: Ns<'a>)
        ensures
            r.segments@ == segments@,
            r@ == texts_of(segments@),
    {
        Ns { segments: arena_copy_ids(self.ids, segments) }
    }

    /// Places one definition node into the definition region and returns a
    /// stable reference to it, usable as a child pointer elsewhere. The
    /// node's array-valued fields must already reference arena-owned
    /// storage; they are not deep-copied by this call.
    pub fn allocSyDef(&self, def: Def<'a>) -> (r: &'a Def<'a>)
        ensures
            *r == def,
    {
        arena_place(self.defs, def)
    }

    /// Places one type-expression node into the type region and returns a
    /// stable reference to it.
    pub fn allocSyType(&self, type_: Type<'a>) -> (r: &'a Type<'a>)
        ensures
            *r == type_,
    {
        arena_place(self.types, type_)
    }

    /// Places one term-expression node into the term region and returns a
    /// stable reference to it.
    pub fn allocSyTerm(&self, term: Term<'a>) -> (r: &'a Term<'a>)
        ensures
            *r == term,
    {
        arena_place(self.terms, term)
    }
}

/// Identifiers allocated from equal text compare equal, however distinct
/// their backing storage: `allocId` ensures of each result only that it
/// carries the text handed in, and structural equality then makes the two
/// results indistinguishable to any consumer of `==`.
pub proof fn lemma_allocated_ids_equal<'a>(t1: Seq<char>, t2: Seq<char>, r1: Id<'a>, r2: Id<'a>)
    requires
        t1 == t2,
        r1@ == t1,
        r2@ == t2,
    ensures
        r1.eq_spec(&r2),
{
}

} // verus!
