//! Requests that carry a query, their hashes, and their signing.
//!
//! A request is hashed over the encoding of its query followed by the sixteen
//! little-endian bytes of its timestamp. A signed request keeps the query and the
//! timestamp of the request it was made from, and so has the same hash.
use vstd::prelude::*;

use crate::crypto::{blake2b_256, Signature};
use crate::introspect::{
    lemma_three_declarations,
    lemma_decls_spec_empty, named_decl_spec, named_declaration, push_declaration, struct_metadata,
    Introspect,
};
use crate::metadata::{DeclSpec, Declaration, IntMeta, MetaSpec, Metadata, Mode};
use crate::scale::{
    encode_u128_le, le_bytes, lemma_le_bytes_injective, lemma_le_bytes_len, pow256, ScaleDecode,
    ScaleEncode,
};

use super::query_box::{query_index, QueryBox};

verus! {

/// The bytes that a request's hash is taken over: the encoding of the query, then the
/// sixteen little-endian bytes of the timestamp.
pub open spec fn request_payload(query: QueryBox, timestamp_ms: u128) -> Seq<u8> {
    query.spec_encoding() + le_bytes(timestamp_ms as nat, 16)
}

/// The hash of a request for `query` made at `timestamp_ms`.
pub open spec fn request_hash(query: QueryBox, timestamp_ms: u128) -> Seq<u8> {
    blake2b_256(request_payload(query, timestamp_ms))
}

/// Computes the hash of a request for `query` made at `timestamp_ms`.
fn hash_of_request(query: &QueryBox, timestamp_ms: u128) -> (r: crate::crypto::Hash)
    requires
        query.encodable(),
    ensures
        r.0@ == request_hash(*query, timestamp_ms),
{
    let mut payload: Vec<u8> = Vec::new();
    query.encode_to(&mut payload);
    encode_u128_le(timestamp_ms, &mut payload);
    assert(payload@ =~= request_payload(*query, timestamp_ms));
    crate::crypto::Hash::new(payload.as_slice())
}

/// A query with the time at which it was made.
#[derive(Debug, Clone)]
pub struct QueryRequest {
    /// Timestamp of the query creation, in milliseconds since the Unix epoch.
    pub timestamp_ms: u128,
    /// Query definition.
    pub query: QueryBox,
}

/// A query with the time at which it was made and the signature of the client who sends it.
#[derive(Debug, Clone)]
pub struct SignedQueryRequest {
    /// Timestamp of the query creation, in milliseconds since the Unix epoch.
    pub timestamp_ms: u128,
    /// Signature of the client who sends this query.
    pub signature: Signature,
    /// Query definition.
    pub query: QueryBox,
}

/// The signed request made from `request` with `signature`.
pub open spec fn signed_request(request: QueryRequest, signature: Signature) -> SignedQueryRequest {
    SignedQueryRequest {
        timestamp_ms: request.timestamp_ms,
        signature,
        query: request.query,
    }
}

impl QueryRequest {
    /// Constructs a new request with the `query`, made at `timestamp_ms`.
    pub fn new(query: QueryBox, timestamp_ms: u128) -> (r: QueryRequest)
        ensures
            r == (QueryRequest { timestamp_ms, query }),
    {
        QueryRequest { timestamp_ms, query }
    }

    /// `Hash` of this request.
    pub fn hash(&self) -> (r: crate::crypto::Hash)
        requires
            self.query.encodable(),
        ensures
            r.0@ == request_hash(self.query, self.timestamp_ms),
    {
        hash_of_request(&self.query, self.timestamp_ms)
    }

    /// Consumes self and returns the signed request: the same query and timestamp,
    /// with `signature`, which the client made over this request's hash.
    pub fn sign(self, signature: Signature) -> (r: SignedQueryRequest)
        ensures
            r == signed_request(self, signature),
    {
        SignedQueryRequest { timestamp_ms: self.timestamp_ms, signature, query: self.query }
    }
}

impl SignedQueryRequest {
    /// `Hash` of this request.
    pub fn hash(&self) -> (r: crate::crypto::Hash)
        requires
            self.query.encodable(),
        ensures
            r.0@ == request_hash(self.query, self.timestamp_ms),
    {
        hash_of_request(&self.query, self.timestamp_ms)
    }
}

/// Signing a request keeps its hash: the signed request hashes as the request did.
pub proof fn law_signing_keeps_hash(request: QueryRequest, signature: Signature)
    ensures
        ({
            let signed = signed_request(request, signature);
            request_hash(signed.query, signed.timestamp_ms) == request_hash(
                request.query,
                request.timestamp_ms,
            )
        }),
{
}

/// The hashed bytes are the query's encoding, which starts with the index byte of its
/// variant, followed by exactly sixteen timestamp bytes.
pub proof fn law_payload_layout(query: QueryBox, timestamp_ms: u128)
    ensures
        request_payload(query, timestamp_ms).len() == query.spec_encoding().len() + 16,
        request_payload(query, timestamp_ms)[0] == query_index(query),
        request_payload(query, timestamp_ms).subrange(0, query.spec_encoding().len() as int)
            == query.spec_encoding(),
        request_payload(query, timestamp_ms).skip(query.spec_encoding().len() as int) == le_bytes(
            timestamp_ms as nat,
            16,
        ),
{
    let p = request_payload(query, timestamp_ms);
    let e = query.spec_encoding();
    lemma_le_bytes_len(timestamp_ms as nat, 16);
    assert(p.subrange(0, e.len() as int) =~= e);
    assert(p.skip(e.len() as int) =~= le_bytes(timestamp_ms as nat, 16));
}

/// The same query sent at two different times is hashed over two different byte strings.
pub proof fn law_timestamp_distinguishes_payloads(query: QueryBox, t1: u128, t2: u128)
    requires
        t1 != t2,
    ensures
        request_payload(query, t1) != request_payload(query, t2),
{
    let e = query.spec_encoding();
    law_payload_layout(query, t1);
    law_payload_layout(query, t2);
    if request_payload(query, t1) == request_payload(query, t2) {
        assert(le_bytes(t1 as nat, 16) == le_bytes(t2 as nat, 16));
        reveal_with_fuel(pow256, 17);
        assert(pow256(16) == 0x1_0000_0000_0000_0000_0000_0000_0000_0000);
        lemma_le_bytes_injective(t1 as nat, t2 as nat, 16);
    }
}

/// A request's hashed bytes commit to its query and its timestamp: two requests are
/// hashed over the same bytes exactly when their queries carry the same value and their
/// timestamps are equal. (The hashes are then equal; that different bytes give different
/// hashes is what the digest function is for, and is not stated here.)
pub proof fn law_payload_injective(q1: QueryBox, t1: u128, q2: QueryBox, t2: u128)
    requires
        q1.encodable(),
        q2.encodable(),
    ensures
        request_payload(q1, t1) == request_payload(q2, t2) <==> (q1.deep_view() == q2.deep_view()
            && t1 == t2),
{
    law_payload_layout(q1, t1);
    law_payload_layout(q2, t2);
    let p1 = request_payload(q1, t1);
    let p2 = request_payload(q2, t2);
    if p1 == p2 {
        let e1 = q1.spec_encoding();
        let e2 = q2.spec_encoding();
        assert(e1.len() == e2.len());
        assert(e1 == e2);
        QueryBox::lemma_encoding_injective(q1, q2);
        if t1 != t2 {
            law_timestamp_distinguishes_payloads(q1, t1, t2);
            assert(request_payload(q1, t2) == p2);
        }
    }
    if q1.deep_view() == q2.deep_view() && t1 == t2 {
        QueryBox::lemma_encoding_determined(q1, q2);
    }
}

/// Requests for queries that carry the same value, made at the same time, have the same hash.
pub proof fn law_same_request_same_hash(q1: QueryBox, t1: u128, q2: QueryBox, t2: u128)
    requires
        q1.encodable(),
        q2.encodable(),
        q1.deep_view() == q2.deep_view(),
        t1 == t2,
    ensures
        request_hash(q1, t1) == request_hash(q2, t2),
{
    law_payload_injective(q1, t1, q2, t2);
}

impl Introspect for SignedQueryRequest {
    open spec fn spec_introspect() -> MetaSpec {
        let signature = Signature::spec_introspect();
        let query = QueryBox::spec_introspect();
        MetaSpec::Struct(
            "SignedQueryRequest"@,
            Seq::empty()
                .push(named_decl_spec("timestamp_ms"@, MetaSpec::Int(Mode::Compact)))
                .push(named_decl_spec("signature"@, signature))
                .push(named_decl_spec("query"@, query)),
        )
    }

    fn introspect() -> (m: Metadata) {
        let mut declarations: Vec<Declaration> = Vec::new();
        proof {
            lemma_decls_spec_empty();
        }
        let d = Metadata::Int(IntMeta { mode: Mode::Compact });
        push_declaration(&mut declarations, named_declaration("timestamp_ms", d));
        let d = Signature::introspect();
        push_declaration(&mut declarations, named_declaration("signature", d));
        let d = QueryBox::introspect();
        push_declaration(&mut declarations, named_declaration("query", d));
        struct_metadata("SignedQueryRequest", declarations)
    }
}

/// A signed request is described as a struct named `SignedQueryRequest` that declares,
/// in order, its timestamp as a compact integer, its signature, and its query.
pub proof fn law_signed_request_description()
    ensures
        SignedQueryRequest::spec_introspect() == MetaSpec::Struct(
            "SignedQueryRequest"@,
            seq![
                DeclSpec { name: Some("timestamp_ms"@), definition: MetaSpec::Int(Mode::Compact) },
                DeclSpec { name: Some("signature"@), definition: Signature::spec_introspect() },
                DeclSpec { name: Some("query"@), definition: QueryBox::spec_introspect() },
            ],
        ),
{
    lemma_three_declarations(
        named_decl_spec("timestamp_ms"@, MetaSpec::Int(Mode::Compact)),
        named_decl_spec("signature"@, Signature::spec_introspect()),
        named_decl_spec("query"@, QueryBox::spec_introspect()),
    );
}

} // verus!
