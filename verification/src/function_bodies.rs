//! The bodies of the functions that a module defines, in the order of their
//! definition.

use crate::capacity::can_reserve;
use crate::module_environ::{FunctionBodyData, FunctionBodyView};
use cranelift_entity::PrimaryMap;
use cranelift_wasm::DefinedFuncIndex;
use vstd::prelude::*;

verus! {

/// The function bodies of a module: a `cranelift_entity::PrimaryMap` from
/// `DefinedFuncIndex` to `FunctionBodyData`. The map is opaque to proofs;
/// `function_bodies` names what it holds.
#[verifier::external_body]
pub struct FunctionBodies<'data> {
    map: PrimaryMap<DefinedFuncIndex, FunctionBodyData<'data>>,
}

/// The bodies that the map holds, in the order of their keys.
pub uninterp spec fn function_bodies(bodies: FunctionBodies<'_>) -> Seq<FunctionBodyData<'_>>;

/// Calls `PrimaryMap::new`, which creates a map without entries.
#[verifier::external_body]
fn map_new<'data>() -> (bodies: FunctionBodies<'data>)
    ensures
        function_bodies(bodies) == Seq::<FunctionBodyData<'data>>::empty(),
{
    FunctionBodies { map: PrimaryMap::new() }
}

/// Calls `PrimaryMap::values`, the iterator over the entries in the order of
/// their keys, and hands out the slice that it walks.
#[verifier::external_body]
fn map_values<'a, 'data>(bodies: &'a FunctionBodies<'data>) -> (values: &'a [FunctionBodyData<
    'data,
>])
    ensures
        values@ == function_bodies(*bodies),
{
    bodies.map.values().as_slice()
}

/// Calls `PrimaryMap::reserve_exact`, which hands `additional` on to
/// `Vec::reserve_exact` of the vector that holds the entries: the entries
/// stay as they are. The vector panics where its new capacity overflows
/// `usize` or, in bytes, exceeds `isize::MAX`, which `requires` rules out.
#[verifier::external_body]
fn map_reserve_exact<'data>(bodies: &mut FunctionBodies<'data>, additional: usize)
    requires
        can_reserve::<FunctionBodyData<'data>>(
            function_bodies(*old(bodies)).len(),
            additional as nat,
        ),
    ensures
        function_bodies(*final(bodies)) == function_bodies(*old(bodies)),
{
    bodies.map.reserve_exact(additional)
}

/// Calls `PrimaryMap::push`, which appends an entry under the key that
/// follows the last one. The key is made from the number of entries, which in
/// a debug build must be below `u32::MAX`. The vector that holds the entries
/// grows as `Vec::push` makes it grow.
#[verifier::external_body]
fn map_push<'data>(bodies: &mut FunctionBodies<'data>, body: FunctionBodyData<'data>)
    requires
        function_bodies(*old(bodies)).len() < u32::MAX,
    ensures
        function_bodies(*final(bodies)) == function_bodies(*old(bodies)).push(body),
{
    bodies.map.push(body);
}

impl<'data> View for FunctionBodies<'data> {
    type V = Seq<FunctionBodyView>;

    open spec fn view(&self) -> Seq<FunctionBodyView> {
        Seq::new(function_bodies(*self).len(), |i: int| function_bodies(*self)[i]@)
    }
}

impl<'data> FunctionBodies<'data> {
    /// Creates an empty collection.
    pub fn new() -> (bodies: Self)
        ensures
            bodies@ == Seq::<FunctionBodyView>::empty(),
    {
        let bodies = map_new();
        bodies
    }

    /// The bodies, in the order of their definition.
    pub fn as_slice(&self) -> (values: &[FunctionBodyData<'data>])
        ensures
            values@ == function_bodies(*self),
            values@.len() == self@.len(),
            forall|i: int| 0 <= i < values@.len() ==> (#[trigger] values@[i])@ == self@[i],
    {
        map_values(self)
    }

    /// The number of bodies.
    pub fn len(&self) -> (len: usize)
        ensures
            len == self@.len(),
    {
        map_values(self).len()
    }

    /// Makes room for `additional` more bodies. The bodies stay as they are.
    pub fn reserve_exact(&mut self, additional: usize)
        requires
            can_reserve::<FunctionBodyData<'data>>(old(self)@.len(), additional as nat),
        ensures
            final(self)@ == old(self)@,
    {
        map_reserve_exact(self, additional);
    }

    /// Appends a body. Its key is the number of bodies before it, which has
    /// to be a key of 32 bits.
    pub fn push(&mut self, body: FunctionBodyData<'data>)
        requires
            old(self)@.len() < u32::MAX,
        ensures
            final(self)@ == old(self)@.push(body@),
    {
        map_push(self, body);
    }

    /// The body of the defined function of the given number, if there is one.
    pub fn get(&self, index: usize) -> (body: Option<FunctionBodyData<'data>>)
        ensures
            index < self@.len() ==> body is Some && body->0@ == self@[index as int],
            index >= self@.len() ==> body is None,
    {
        let values = map_values(self);
        if index < values.len() {
            Some(values[index])
        } else {
            None
        }
    }
}

} // verus!
