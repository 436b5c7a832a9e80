//! The schema descriptor: the composed validation/serialization contract
//! object built once per native type. It is a union of two sub-schemas —
//! instance check first, generic string-keyed mapping second — with the
//! validator and serializer adapters attached as its hook pair.

use vstd::prelude::*;

use crate::codec::NativeType;
use crate::value::ForeignVal;
use crate::value::ForeignValue;

verus! {

/// Schema for one side of the generic-mapping sub-schema's entries.
#[derive(Clone, Copy, PartialEq, Eq, Structural, Debug)]
pub enum ItemSchema {
    /// Matches string values only.
    Str,
    /// Matches values of any shape.
    Any,
}

/// One branch of the union descriptor.
#[derive(Clone, Copy, PartialEq, Eq, Structural, Debug)]
pub enum SubSchema {
    /// Matches a value that already carries the native type's identity.
    IsInstance,
    /// Matches any mapping whose keys satisfy `keys` and whose values
    /// satisfy `values`.
    Mapping { keys: ItemSchema, values: ItemSchema },
}

/// The union of the two branches, tried in declaration order.
#[derive(Clone, Copy, PartialEq, Eq, Structural, Debug)]
pub struct UnionSchema {
    pub first: SubSchema,
    pub second: SubSchema,
}

/// Whether one branch accepts a foreign value.
pub open spec fn sub_matches<T>(s: SubSchema, v: ForeignVal<T>) -> bool {
    match s {
        SubSchema::IsInstance => v is Instance,
        SubSchema::Mapping { .. } => v matches ForeignVal::Generic(t) && t is Mapping,
    }
}

/// The branch a union routes a foreign value to: the first branch that
/// accepts it, or none.
pub open spec fn union_route<T>(u: UnionSchema, v: ForeignVal<T>) -> Option<int> {
    if sub_matches(u.first, v) {
        Some(0int)
    } else if sub_matches(u.second, v) {
        Some(1int)
    } else {
        None
    }
}

/// The union the descriptor builder composes: the instance check ordered
/// before the generic string-keyed mapping, so an already-native value never
/// falls through to the generic path.
pub open spec fn descriptor_schema() -> UnionSchema {
    UnionSchema {
        first: SubSchema::IsInstance,
        second: SubSchema::Mapping { keys: ItemSchema::Str, values: ItemSchema::Any },
    }
}

/// The schema descriptor registered with the foreign runtime for one native
/// type: the union schema together with the type identity the adapters are
/// bound to. It holds no per-value state, so one descriptor may be shared
/// and invoked concurrently; its adapter hooks are the `validate` and
/// `serialize` methods.
pub struct SchemaDescriptor<T> {
    /// The composed union schema.
    pub schema: UnionSchema,
    /// The native type identity the adapter hooks are bound to.
    pub identity: core::marker::PhantomData<T>,
}

/// Build the schema descriptor for one native type: an instance-check
/// sub-schema, a generic-mapping sub-schema over string keys and
/// unconstrained values, and the union of the two with the instance check
/// first.
pub fn register<T: NativeType>() -> (d: SchemaDescriptor<T>)
    ensures
        d.schema == descriptor_schema(),
{
    SchemaDescriptor {
        schema: UnionSchema {
            first: SubSchema::IsInstance,
            second: SubSchema::Mapping { keys: ItemSchema::Str, values: ItemSchema::Any },
        },
        identity: core::marker::PhantomData,
    }
}

/// Whether one branch accepts a foreign value.
pub fn matches_sub<T>(s: &SubSchema, v: &ForeignValue<T>) -> (r: bool)
    ensures
        r == sub_matches::<T>(*s, v@),
{
    match s {
        SubSchema::IsInstance => matches!(v, ForeignValue::Instance(_)),
        SubSchema::Mapping { .. } => matches!(
            v,
            ForeignValue::Generic(crate::tree::GenericValue::Mapping(_))
        ),
    }
}

impl<T: NativeType> SchemaDescriptor<T> {
    /// The branch of the union this descriptor routes a foreign value to.
    pub fn route(&self, v: &ForeignValue<T>) -> (r: Option<usize>)
        ensures
            match r {
                Some(i) => union_route::<T>(self.schema, v@) == Some(i as int),
                None => union_route::<T>(self.schema, v@) is None,
            },
    {
        if matches_sub(&self.schema.first, v) {
            Some(0)
        } else if matches_sub(&self.schema.second, v) {
            Some(1)
        } else {
            None
        }
    }
}

/// Union ordering is deterministic: a value accepted by the first branch is
/// routed to the first branch, whatever the second branch would say of it.
pub proof fn lemma_union_prefers_first<T>(u: UnionSchema, v: ForeignVal<T>)
    requires
        sub_matches(u.first, v),
    ensures
        union_route(u, v) == Some(0int),
{
}

/// In the built descriptor the instance check is the first branch, so a
/// value that carries the native type's identity — even one that the
/// generic-mapping branch would also accept — is always routed through the
/// instance-check path.
pub proof fn lemma_instance_precedence<T: NativeType>(d: SchemaDescriptor<T>, x: T)
    requires
        d.schema == descriptor_schema(),
    ensures
        union_route::<T>(d.schema, ForeignVal::Instance(x)) == Some(0int),
{
}

} // verus!
