//! The generic tree: the untyped, string-keyed, arbitrarily nested structural
//! value used as the interchange format with the foreign runtime.

use vstd::prelude::*;

verus! {

broadcast use vstd::std_specs::vec::group_vec_axioms;

/// Mathematical model of a generic tree value: scalars, sequences, and
/// string-keyed mappings, nested to any depth.
pub ghost enum Tree {
    Null,
    Bool(bool),
    Int(int),
    Text(Seq<char>),
    List(Seq<Tree>),
    Mapping(Seq<(Seq<char>, Tree)>),
}

/// An untyped foreign-native structured value: scalars, sequences, and
/// string-keyed mappings whose values are themselves of unconstrained shape.
#[derive(Debug, PartialEq, Eq)]
pub enum GenericValue {
    Null,
    Bool(bool),
    Int(i64),
    Text(String),
    List(Vec<GenericValue>),
    Mapping(Vec<(String, GenericValue)>),
}

/// The model of the items of one exec sequence value.
pub open spec fn list_view(vs: Vec<GenericValue>) -> Seq<Tree>
    decreases vs,
{
    Seq::new(
        vs@.len(),
        |i: int|
            if 0 <= i < vs@.len() {
                tree_of(vs[i])
            } else {
                Tree::Null
            },
    )
}

/// The model of the entries of one exec mapping value, in entry order.
pub open spec fn map_view(es: Vec<(String, GenericValue)>) -> Seq<(Seq<char>, Tree)>
    decreases es,
{
    Seq::new(
        es@.len(),
        |i: int|
            if 0 <= i < es@.len() {
                (es[i].0@, tree_of(es[i].1))
            } else {
                (Seq::empty(), Tree::Null)
            },
    )
}

/// The model of one exec tree value.
pub open spec fn tree_of(g: GenericValue) -> Tree
    decreases g,
{
    match g {
        GenericValue::Null => Tree::Null,
        GenericValue::Bool(b) => Tree::Bool(b),
        GenericValue::Int(i) => Tree::Int(i as int),
        GenericValue::Text(s) => Tree::Text(s@),
        GenericValue::List(vs) => Tree::List(list_view(vs)),
        GenericValue::Mapping(es) => Tree::Mapping(map_view(es)),
    }
}

impl View for GenericValue {
    type V = Tree;

    open spec fn view(&self) -> Tree {
        tree_of(*self)
    }
}

/// First entry at or after position `i` whose key is `key`, if any.
pub open spec fn lookup_from(es: Seq<(Seq<char>, Tree)>, i: int, key: Seq<char>) -> Option<Tree>
    decreases es.len() - i,
{
    if i < 0 || i >= es.len() {
        None
    } else if es[i].0 == key {
        Some(es[i].1)
    } else {
        lookup_from(es, i + 1, key)
    }
}

/// First entry with the given key, if any.
pub open spec fn lookup(es: Seq<(Seq<char>, Tree)>, key: Seq<char>) -> Option<Tree> {
    lookup_from(es, 0, key)
}

/// Find the first entry of a mapping with the given key.
pub fn lookup_value<'a>(es: &'a Vec<(String, GenericValue)>, key: &String) -> (r: Option<
    &'a GenericValue,
>)
    ensures
        match r {
            Some(g) => lookup(map_view(*es), key@) == Some(g@),
            None => lookup(map_view(*es), key@) is None,
        },
{
    let mut i: usize = 0;
    while i < es.len()
        invariant
            i <= es@.len(),
            lookup(map_view(*es), key@) == lookup_from(map_view(*es), i as int, key@),
        decreases es@.len() - i,
    {
        if es[i].0 == *key {
            assert(map_view(*es)[i as int].0 == key@);
            return Some(&es[i].1);
        }
        assert(map_view(*es)[i as int].0 != key@);
        i = i + 1;
    }
    None
}

} // verus!
