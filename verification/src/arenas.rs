//! The arenas that own what values and bindings refer to.

use crate::anf::Binding;
use crate::value::Value;
use typed_arena::Arena;
use vstd::prelude::*;

verus! {

/// `typed_arena::Arena`: a region that owns every value allocated in it
/// until the region itself is dropped. What it holds is not modelled.
#[verifier::external_type_specification]
#[verifier::external_body]
#[verifier::reject_recursive_types(T)]
pub struct ExArena<T>(Arena<T>);

/// `typed_arena::Arena::alloc` moves `value` into the arena and returns a
/// reference to where it now lives. Taken on trust: what is behind the
/// reference is `value`.
pub assume_specification<T>[ Arena::<T>::alloc ](arena: &Arena<T>, value: T) -> (stored: &mut T)
    ensures
        *stored == value,
;

/// Collection of arenas that can be passed around easily.
pub struct Arenas<'a> {
    /// The ANF builder uses vecs to allocate arrays of bindings. Once
    /// finished, the vecs are moved into this arena so that they can be
    /// sliced into by ANF expressions.
    pub bindings: &'a Arena<Vec<Binding<'a>>>,
    pub values: &'a Arena<Value<'a>>,
}

} // verus!
