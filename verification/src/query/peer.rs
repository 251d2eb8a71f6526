//! Queries related to peers.
use vstd::prelude::*;

use crate::introspect::{lemma_decls_spec_empty, struct_metadata, Introspect};
use crate::metadata::{DeclSpec, Declaration, MetaSpec, Metadata};
use crate::scale::{ScaleDecode, ScaleEncode};

verus! {

/// `FindAllPeers` Iroha Query will find all trusted `Peer`s presented in current Iroha `Peer`.
#[derive(Debug, Default, Clone, Copy, PartialEq, Eq, PartialOrd, Ord, Hash)]
pub struct FindAllPeers {}

impl FindAllPeers {
    /// Default `FindAllPeers` constructor.
    pub fn new() -> (r: FindAllPeers)
        ensures
            r == (FindAllPeers {}),
    {
        FindAllPeers {}
    }
}

impl ScaleEncode for FindAllPeers {
    open spec fn encodable(&self) -> bool {
        true
    }

    open spec fn spec_encoding(&self) -> Seq<u8> {
        Seq::empty()
    }

    fn encode_to(&self, out: &mut Vec<u8>) {
        assert(old(out)@ + self.spec_encoding() =~= old(out)@);
    }
}

/// `FindAllParameters` Iroha Query will find all `Peer`s parameters.
#[derive(Debug, Default, Clone, Copy, PartialEq, Eq, PartialOrd, Ord, Hash)]
pub struct FindAllParameters {}

impl FindAllParameters {
    /// Default `FindAllParameters` constructor.
    pub fn new() -> (r: FindAllParameters)
        ensures
            r == (FindAllParameters {}),
    {
        FindAllParameters {}
    }
}

impl ScaleEncode for FindAllParameters {
    open spec fn encodable(&self) -> bool {
        true
    }

    open spec fn spec_encoding(&self) -> Seq<u8> {
        Seq::empty()
    }

    fn encode_to(&self, out: &mut Vec<u8>) {
        assert(old(out)@ + self.spec_encoding() =~= old(out)@);
    }
}

impl DeepView for FindAllPeers {
    type V = ();

    open spec fn deep_view(&self) -> () {
        ()
    }
}

impl ScaleDecode for FindAllPeers {
    proof fn lemma_encoding_determined(a: Self, b: Self) {
    }

    proof fn lemma_encoding_injective(a: Self, b: Self) {
    }

    proof fn lemma_prefix_free(a: Self, b: Self) {
    }

    fn decode_from(input: &[u8]) -> (r: Option<(Self, usize)>) {
        assert(input@.take(0) =~= Seq::<u8>::empty());
        Some((FindAllPeers {}, 0))
    }
}

impl DeepView for FindAllParameters {
    type V = ();

    open spec fn deep_view(&self) -> () {
        ()
    }
}

impl ScaleDecode for FindAllParameters {
    proof fn lemma_encoding_determined(a: Self, b: Self) {
    }

    proof fn lemma_encoding_injective(a: Self, b: Self) {
    }

    proof fn lemma_prefix_free(a: Self, b: Self) {
    }

    fn decode_from(input: &[u8]) -> (r: Option<(Self, usize)>) {
        assert(input@.take(0) =~= Seq::<u8>::empty());
        Some((FindAllParameters {}, 0))
    }
}

impl Introspect for FindAllPeers {
    open spec fn spec_introspect() -> MetaSpec {
        MetaSpec::Struct("FindAllPeers"@, Seq::empty())
    }

    fn introspect() -> (m: Metadata) {
        let mut declarations: Vec<Declaration> = Vec::new();
        proof {
            lemma_decls_spec_empty();
        }
        struct_metadata("FindAllPeers", declarations)
    }
}

impl Introspect for FindAllParameters {
    open spec fn spec_introspect() -> MetaSpec {
        MetaSpec::Struct("FindAllParameters"@, Seq::empty())
    }

    fn introspect() -> (m: Metadata) {
        let mut declarations: Vec<Declaration> = Vec::new();
        proof {
            lemma_decls_spec_empty();
        }
        struct_metadata("FindAllParameters", declarations)
    }
}

/// Each of these types is encoded as its fields, one after the other, in the order in
/// which they are declared (a type without fields as no bytes at all).
pub proof fn law_peer_encodings_follow_field_order()
    ensures
        forall|x: FindAllPeers| #[trigger] x.spec_encoding() == Seq::<u8>::empty(),
        forall|x: FindAllParameters| #[trigger] x.spec_encoding() == Seq::<u8>::empty(),
{
}

/// Each of these types is described as a struct under its own name that declares its
/// fields, under their names, in the order in which they are declared (the order of the
/// encoding), each described as its own type.
pub proof fn law_peer_descriptions_follow_field_order()
    ensures
        FindAllPeers::spec_introspect() == MetaSpec::Struct("FindAllPeers"@, seq![]),
        FindAllParameters::spec_introspect() == MetaSpec::Struct("FindAllParameters"@, seq![]),
{
}

} // verus!
