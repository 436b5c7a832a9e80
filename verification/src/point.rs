//! A plane point: the native type the bridge's tests exercise end to end.
//! Its generic representation is the mapping `{"x": ..., "y": ...}`.

use vstd::prelude::*;
use vstd::string::StringExecFns;

use crate::codec::NativeType;
use crate::errors::CodecError;
use crate::tree::lookup;
use crate::tree::lookup_from;
use crate::tree::lookup_value;
use crate::tree::map_view;
use crate::tree::GenericValue;
use crate::tree::Tree;
use crate::value::shape_name;
use crate::value::shape_name_of;

verus! {

/// A point with two integer coordinates.
#[derive(Clone, Copy, PartialEq, Eq, Structural, Debug)]
pub struct Point {
    pub x: i64,
    pub y: i64,
}

impl NativeType for Point {
    open spec fn encodable(&self) -> bool {
        true
    }

    open spec fn encode_spec(&self) -> Tree {
        Tree::Mapping(
            seq![("x"@, Tree::Int(self.x as int)), ("y"@, Tree::Int(self.y as int))],
        )
    }

    open spec fn decode_spec(t: Tree) -> Option<Point> {
        match t {
            Tree::Mapping(es) => match (lookup(es, "x"@), lookup(es, "y"@)) {
                (Some(Tree::Int(x)), Some(Tree::Int(y))) => if i64::MIN as int <= x
                    && x <= i64::MAX as int && i64::MIN as int <= y && y <= i64::MAX as int {
                    Some(Point { x: x as i64, y: y as i64 })
                } else {
                    None
                },
                _ => None,
            },
            _ => None,
        }
    }

    open spec fn decode_diagnostic(t: Tree) -> Seq<char> {
        match t {
            Tree::Mapping(es) => match lookup(es, "x"@) {
                None => "missing field `x`"@,
                Some(Tree::Int(x)) => if x < i64::MIN as int || x > i64::MAX as int {
                    "field `x` is out of range"@
                } else {
                    match lookup(es, "y"@) {
                        None => "missing field `y`"@,
                        Some(Tree::Int(y)) => if y < i64::MIN as int || y > i64::MAX as int {
                            "field `y` is out of range"@
                        } else {
                            Seq::empty()
                        },
                        Some(_) => "invalid value for field `y`: expected an integer"@,
                    }
                },
                Some(_) => "invalid value for field `x`: expected an integer"@,
            },
            _ => "expected a string-keyed mapping, found "@ + shape_name(t),
        }
    }

    open spec fn encode_diagnostic(&self) -> Seq<char> {
        Seq::empty()
    }

    proof fn lemma_codec_round_trip(&self) {
        reveal_strlit("x");
        reveal_strlit("y");
        let es = seq![("x"@, Tree::Int(self.x as int)), ("y"@, Tree::Int(self.y as int))];
        assert("x"@[0] == 'x' && "y"@[0] == 'y');
        assert("x"@ != "y"@);
        assert(lookup(es, "x"@) == Some(Tree::Int(self.x as int))) by {
            reveal_with_fuel(lookup_from, 2);
        }
        assert(lookup(es, "y"@) == Some(Tree::Int(self.y as int))) by {
            reveal_with_fuel(lookup_from, 3);
        }
    }

    fn encode(&self) -> (r: Result<GenericValue, CodecError>) {
        let mut entries: Vec<(String, GenericValue)> = Vec::new();
        entries.push((String::from_str("x"), GenericValue::Int(self.x)));
        entries.push((String::from_str("y"), GenericValue::Int(self.y)));
        let g = GenericValue::Mapping(entries);
        proof {
            assert(map_view(entries) =~= seq![
                ("x"@, Tree::Int(self.x as int)),
                ("y"@, Tree::Int(self.y as int)),
            ]);
        }
        Ok(g)
    }

    fn decode(g: &GenericValue) -> (r: Result<Point, CodecError>) {
        match g {
            GenericValue::Mapping(es) => {
                let key_x = String::from_str("x");
                match lookup_value(es, &key_x) {
                    None => Err(
                        CodecError { message: String::from_str("missing field `x`") },
                    ),
                    Some(gx) => match gx {
                        GenericValue::Int(x) => {
                            let key_y = String::from_str("y");
                            match lookup_value(es, &key_y) {
                                None => Err(
                                    CodecError {
                                        message: String::from_str("missing field `y`"),
                                    },
                                ),
                                Some(gy) => match gy {
                                    GenericValue::Int(y) => Ok(Point { x: *x, y: *y }),
                                    _ => Err(
                                        CodecError {
                                            message: String::from_str(
                                                "invalid value for field `y`: expected an integer",
                                            ),
                                        },
                                    ),
                                },
                            }
                        },
                        _ => Err(
                            CodecError {
                                message: String::from_str(
                                    "invalid value for field `x`: expected an integer",
                                ),
                            },
                        ),
                    },
                }
            },
            _ => {
                let mut m = String::from_str("expected a string-keyed mapping, found ");
                m.append(shape_name_of(g));
                Err(CodecError { message: m })
            },
        }
    }
}

} // verus!
