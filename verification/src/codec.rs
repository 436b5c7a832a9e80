//! The generic codec contract: bidirectional conversion between one native
//! type and the untyped generic tree.

use vstd::prelude::*;

use crate::errors::CodecError;
use crate::tree::GenericValue;
use crate::tree::Tree;

verus! {

/// A native type that the bridge can expose to the foreign runtime.
///
/// `encode_spec` and `decode_spec` are the mathematical content of the two
/// codec directions, and the exec methods are pinned to them exactly. An
/// implementation must prove `lemma_codec_round_trip`, so round-trip
/// fidelity of the generic path holds by construction for every native type
/// the bridge serves.
pub trait NativeType: Sized {
    /// Whether this instance has a generic representation.
    spec fn encodable(&self) -> bool;

    /// The generic tree encoding this instance.
    spec fn encode_spec(&self) -> Tree;

    /// The instance a well-formed tree decodes to; `None` for a tree the
    /// codec rejects.
    spec fn decode_spec(t: Tree) -> Option<Self>;

    /// The diagnostic the codec reports for a tree it rejects.
    spec fn decode_diagnostic(t: Tree) -> Seq<char>;

    /// The diagnostic the codec reports for an instance it cannot encode.
    spec fn encode_diagnostic(&self) -> Seq<char>;

    /// Round-trip fidelity of the codec itself: decoding an encoded instance
    /// gives back an equal instance.
    proof fn lemma_codec_round_trip(&self)
        requires
            self.encodable(),
        ensures
            Self::decode_spec(self.encode_spec()) == Some(*self),
    ;

    /// Encode this instance into a generic tree.
    fn encode(&self) -> (r: Result<GenericValue, CodecError>)
        ensures
            r is Ok <==> self.encodable(),
            r matches Ok(g) ==> g@ == self.encode_spec(),
            r matches Err(e) ==> e.message@ == self.encode_diagnostic(),
    ;

    /// Decode a generic tree into a fresh native instance.
    fn decode(g: &GenericValue) -> (r: Result<Self, CodecError>)
        ensures
            r is Ok <==> Self::decode_spec(g@) is Some,
            r matches Ok(x) ==> Self::decode_spec(g@) == Some(x),
            r matches Err(e) ==> e.message@ == Self::decode_diagnostic(g@),
    ;
}

} // verus!
