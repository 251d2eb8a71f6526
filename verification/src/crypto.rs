//! Hashes and signatures.
use blake2::digest::consts::U32;
use blake2::{Blake2b, Digest};

use vstd::prelude::*;

use crate::introspect::{
    lemma_two_declarations,
    lemma_decls_spec_empty, named_decl_spec, named_declaration, push_declaration, struct_metadata,
    Introspect,
};
use crate::metadata::{DeclSpec, Declaration, MetaSpec, Metadata, Mode};

verus! {

/// The BLAKE2b digest, 32 bytes long, of a byte sequence.
pub uninterp spec fn blake2b_256(bytes: Seq<u8>) -> Seq<u8>;

/// Computes the 32-byte BLAKE2b digest of `bytes` with the `blake2` crate.
///
/// Trusted: the contract claims only that the result is the function `blake2b_256`
/// of the bytes, that is, that the digest depends on the bytes alone.
#[verifier::external_body]
fn blake2b_256_digest(bytes: &[u8]) -> (r: [u8; 32])
    ensures
        r@ == blake2b_256(bytes@),
{
    Blake2b::<U32>::digest(bytes).into()
}

/// A 32-byte hash.
#[derive(Debug, Clone, Copy, PartialEq, Eq, PartialOrd, Ord, Hash)]
pub struct Hash(pub [u8; 32]);

impl Hash {
    /// The hash of `bytes`: their 32-byte BLAKE2b digest.
    pub fn new(bytes: &[u8]) -> (r: Hash)
        ensures
            r.0@ == blake2b_256(bytes@),
    {
        Hash(blake2b_256_digest(bytes))
    }
}

/// A public key: the name of its digest function and its bytes.
#[derive(Debug, Clone, PartialEq, Eq, PartialOrd, Ord, Hash)]
pub struct PublicKey {
    pub digest_function: String,
    pub payload: Vec<u8>,
}

/// A signature together with the public key that checks it.
#[derive(Debug, Clone, PartialEq, Eq, PartialOrd, Ord, Hash)]
pub struct Signature {
    pub public_key: PublicKey,
    pub signature: Vec<u8>,
}

impl Introspect for PublicKey {
    open spec fn spec_introspect() -> MetaSpec {
        let digest_function = <String as Introspect>::spec_introspect();
        let payload = <Vec<u8> as Introspect>::spec_introspect();
        MetaSpec::Struct(
            "PublicKey"@,
            Seq::empty()
                .push(named_decl_spec("digest_function"@, digest_function))
                .push(named_decl_spec("payload"@, payload)),
        )
    }

    fn introspect() -> (m: Metadata) {
        let mut declarations: Vec<Declaration> = Vec::new();
        proof {
            lemma_decls_spec_empty();
        }
        let d = <String as Introspect>::introspect();
        push_declaration(&mut declarations, named_declaration("digest_function", d));
        let d = <Vec<u8> as Introspect>::introspect();
        push_declaration(&mut declarations, named_declaration("payload", d));
        struct_metadata("PublicKey", declarations)
    }
}

impl Introspect for Signature {
    open spec fn spec_introspect() -> MetaSpec {
        let public_key = <PublicKey as Introspect>::spec_introspect();
        let signature = <Vec<u8> as Introspect>::spec_introspect();
        MetaSpec::Struct(
            "Signature"@,
            Seq::empty()
                .push(named_decl_spec("public_key"@, public_key))
                .push(named_decl_spec("signature"@, signature)),
        )
    }

    fn introspect() -> (m: Metadata) {
        let mut declarations: Vec<Declaration> = Vec::new();
        proof {
            lemma_decls_spec_empty();
        }
        let d = <PublicKey as Introspect>::introspect();
        push_declaration(&mut declarations, named_declaration("public_key", d));
        let d = <Vec<u8> as Introspect>::introspect();
        push_declaration(&mut declarations, named_declaration("signature", d));
        struct_metadata("Signature", declarations)
    }
}

/// A public key is described as a struct that declares its digest function's name and then
/// its bytes; a signature as a struct that declares its public key and then its bytes.
pub proof fn law_key_and_signature_descriptions()
    ensures
        PublicKey::spec_introspect() == MetaSpec::Struct(
            "PublicKey"@,
            seq![
                DeclSpec { name: Some("digest_function"@), definition: MetaSpec::String },
                DeclSpec {
                    name: Some("payload"@),
                    definition: MetaSpec::Vec(Box::new(MetaSpec::Int(Mode::FixedWidth))),
                },
            ],
        ),
        Signature::spec_introspect() == MetaSpec::Struct(
            "Signature"@,
            seq![
                DeclSpec { name: Some("public_key"@), definition: PublicKey::spec_introspect() },
                DeclSpec {
                    name: Some("signature"@),
                    definition: MetaSpec::Vec(Box::new(MetaSpec::Int(Mode::FixedWidth))),
                },
            ],
        ),
{
    lemma_two_declarations(
        named_decl_spec("digest_function"@, <String as Introspect>::spec_introspect()),
        named_decl_spec("payload"@, <Vec<u8> as Introspect>::spec_introspect()),
    );
    lemma_two_declarations(
        named_decl_spec("public_key"@, <PublicKey as Introspect>::spec_introspect()),
        named_decl_spec("signature"@, <Vec<u8> as Introspect>::spec_introspect()),
    );
}

} // verus!
