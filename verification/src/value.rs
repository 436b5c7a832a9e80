//! The foreign value: the one input shape the adapters receive. A foreign
//! value either already carries the native type's identity, or it is a
//! generic structural value of unconstrained shape.

use vstd::prelude::*;

use crate::tree::GenericValue;
use crate::tree::Tree;

verus! {

/// Mathematical model of one foreign value.
pub ghost enum ForeignVal<T> {
    /// A value that already carries the native type's identity.
    Instance(T),
    /// Any other foreign value, seen as a generic tree.
    Generic(Tree),
}

/// One value handed over by the foreign runtime.
pub enum ForeignValue<T> {
    /// A value that already wraps a native instance.
    Instance(T),
    /// Any other foreign value, seen as a generic tree.
    Generic(GenericValue),
}

impl<T> View for ForeignValue<T> {
    type V = ForeignVal<T>;

    open spec fn view(&self) -> ForeignVal<T> {
        match *self {
            ForeignValue::Instance(x) => ForeignVal::Instance(x),
            ForeignValue::Generic(g) => ForeignVal::Generic(g@),
        }
    }
}

/// The shape of a generic tree, named for diagnostics.
pub open spec fn shape_name(t: Tree) -> Seq<char> {
    match t {
        Tree::Null => "null"@,
        Tree::Bool(_) => "a boolean"@,
        Tree::Int(_) => "an integer"@,
        Tree::Text(_) => "a string"@,
        Tree::List(_) => "a sequence"@,
        Tree::Mapping(_) => "a mapping"@,
    }
}

/// Name the shape of a generic tree value.
pub fn shape_name_of(g: &GenericValue) -> (r: &'static str)
    ensures
        r@ == shape_name(g@),
{
    match g {
        GenericValue::Null => "null",
        GenericValue::Bool(_) => "a boolean",
        GenericValue::Int(_) => "an integer",
        GenericValue::Text(_) => "a string",
        GenericValue::List(_) => "a sequence",
        GenericValue::Mapping(_) => "a mapping",
    }
}

} // verus!
