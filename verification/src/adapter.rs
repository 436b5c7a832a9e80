//! The validator and serializer adapters: the hook pair attached to the
//! schema descriptor. Both are pure functions of the one value they are
//! handed — they hold no shared state, so a descriptor's hooks may be
//! invoked concurrently and always return what a sequential call would.

use vstd::prelude::*;
use vstd::string::StringExecFns;

use crate::codec::NativeType;
use crate::errors::deserialize_failure_message;
use crate::errors::extract_failure_message;
use crate::errors::serialize_failure_message;
use crate::errors::translate_decode_failure;
use crate::errors::translate_encode_failure;
use crate::errors::translate_extract_failure;
use crate::errors::SerializationError;
use crate::errors::ValidationError;
use crate::schema::SchemaDescriptor;
use crate::tree::GenericValue;
use crate::tree::Tree;
use crate::value::shape_name;
use crate::value::shape_name_of;
use crate::value::ForeignVal;
use crate::value::ForeignValue;

verus! {

/// The diagnostic for a foreign value from which no native instance can be
/// extracted: it does not carry the native type's identity.
pub open spec fn extract_diagnostic(t: Tree) -> Seq<char> {
    "the value is "@ + shape_name(t) + ", not an instance of the native type"@
}

/// Render the extraction diagnostic for a generic tree value.
fn extract_diagnostic_of(g: &GenericValue) -> (r: String)
    ensures
        r@ == extract_diagnostic(g@),
{
    let mut m = String::from_str("the value is ");
    m.append(shape_name_of(g));
    m.append(", not an instance of the native type");
    m
}

/// What validation returns for one foreign value: the instance itself on the
/// fast path, the decoded instance on the generic path, and otherwise the
/// translated codec failure. The fast-path case is fixed by the instance
/// alone — no codec function appears in it.
pub open spec fn validate_spec<T: NativeType>(v: ForeignVal<T>) -> Result<T, Seq<char>> {
    match v {
        ForeignVal::Instance(x) => Ok(x),
        ForeignVal::Generic(t) => match T::decode_spec(t) {
            Some(x) => Ok(x),
            None => Err(deserialize_failure_message(T::decode_diagnostic(t))),
        },
    }
}

/// What serialization returns for one foreign value: the encoded tree of the
/// extracted instance, or the translated extraction or encoding failure.
pub open spec fn serialize_spec<T: NativeType>(v: ForeignVal<T>) -> Result<Tree, Seq<char>> {
    match v {
        ForeignVal::Instance(x) => if x.encodable() {
            Ok(x.encode_spec())
        } else {
            Err(serialize_failure_message(x.encode_diagnostic()))
        },
        ForeignVal::Generic(t) => Err(extract_failure_message(extract_diagnostic(t))),
    }
}

impl<T: NativeType> SchemaDescriptor<T> {
    /// The validator adapter: if the value already carries the native type's
    /// identity, hand the instance straight back; otherwise decode it as a
    /// generic tree, and on failure report the codec's diagnostic behind the
    /// deserialize phase marker.
    pub fn validate(&self, value: ForeignValue<T>) -> (r: Result<T, ValidationError>)
        ensures
            r is Ok <==> validate_spec::<T>(value@) is Ok,
            r matches Ok(x) ==> validate_spec::<T>(value@) == Ok::<T, Seq<char>>(x),
            r matches Err(e) ==> validate_spec::<T>(value@) == Err::<T, Seq<char>>(e.message@),
    {
        match value {
            ForeignValue::Instance(x) => Ok(x),
            ForeignValue::Generic(g) => match T::decode(&g) {
                Ok(x) => Ok(x),
                Err(e) => Err(translate_decode_failure(e)),
            },
        }
    }

    /// The serializer adapter: extract the native instance — defensively,
    /// since serialization may be invoked on a value that never went through
    /// validation — then encode it to a generic tree. Each failure is
    /// reported behind its phase marker.
    pub fn serialize(&self, value: ForeignValue<T>) -> (r: Result<
        GenericValue,
        SerializationError,
    >)
        ensures
            r is Ok <==> serialize_spec::<T>(value@) is Ok,
            r matches Ok(g) ==> serialize_spec::<T>(value@) == Ok::<Tree, Seq<char>>(g@),
            r matches Err(e) ==> serialize_spec::<T>(value@) == Err::<Tree, Seq<char>>(
                e.message@,
            ),
    {
        match value {
            ForeignValue::Instance(x) => match x.encode() {
                Ok(g) => Ok(g),
                Err(e) => Err(translate_encode_failure(e)),
            },
            ForeignValue::Generic(g) => Err(translate_extract_failure(extract_diagnostic_of(&g))),
        }
    }
}

/// Round-trip via the generic path: serializing a native instance yields a
/// generic tree that validates back to an equal instance.
pub proof fn lemma_generic_round_trip<T: NativeType>(x: T)
    requires
        x.encodable(),
    ensures
        serialize_spec::<T>(ForeignVal::Instance(x)) == Ok::<Tree, Seq<char>>(x.encode_spec()),
        validate_spec::<T>(ForeignVal::Generic(x.encode_spec())) == Ok::<T, Seq<char>>(x),
{
    x.lemma_codec_round_trip();
}

/// Fast-path short-circuit: validating a value that already carries the
/// native type's identity returns the instance itself. The result is fixed
/// by the instance alone, whatever the codec would do — no codec function
/// appears in it.
pub proof fn lemma_fast_path<T: NativeType>(x: T)
    ensures
        validate_spec::<T>(ForeignVal::Instance(x)) == Ok::<T, Seq<char>>(x),
{
}

/// The descriptor's invariant, keeping validation and serialization mutually
/// consistent: an encodable instance that validation accepted — on either
/// branch — serializes to a generic tree that validates back to the same
/// instance.
pub proof fn lemma_round_trip_fidelity<T: NativeType>(v: ForeignVal<T>, x: T)
    requires
        validate_spec::<T>(v) == Ok::<T, Seq<char>>(x),
        x.encodable(),
    ensures
        serialize_spec::<T>(ForeignVal::Instance(x)) == Ok::<Tree, Seq<char>>(x.encode_spec()),
        validate_spec::<T>(ForeignVal::Generic(x.encode_spec())) == Ok::<T, Seq<char>>(x),
{
    lemma_generic_round_trip::<T>(x);
}

} // verus!
