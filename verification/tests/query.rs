use blake2::digest::consts::U32;
use blake2::{Blake2b, Digest};
use parity_scale_codec::{Compact, Encode};

use iroha_introspect::crypto::{PublicKey, Signature};
use iroha_introspect::model::{AccountId, AssetDefinitionId, AssetId, EvaluatesTo};
use iroha_introspect::query::{
    FindAccountById, FindAccountKeyValueByIdAndKey, FindAllAccounts, FindAllParameters,
    FindAllPeers, FindAssetKeyValueByIdAndKey, FindAssetsByDomainNameAndAssetDefinitionId,
    FindPermissionTokensByAccountId, FindTransactionsByAccountId, QueryBox, QueryRequest,
    SignedQueryRequest,
};
use iroha_introspect::{Declaration, IntMeta, Introspect, Metadata, Mode, StructMeta};
use iroha_introspect::scale::{decode, encode_u128_le, ScaleEncode};

fn alice() -> AccountId {
    AccountId::new("alice", "wonderland")
}

fn encoded(q: &QueryBox) -> Vec<u8> {
    let mut out = Vec::new();
    ScaleEncode::encode_to(q, &mut out);
    out
}

fn signature() -> Signature {
    Signature {
        public_key: PublicKey { digest_function: "ed25519".into(), payload: vec![1, 2, 3] },
        signature: vec![9; 64],
    }
}

fn digest(bytes: &[u8]) -> [u8; 32] {
    Blake2b::<U32>::digest(bytes).into()
}

#[test]
fn account_query_encoding_matches_codec() {
    let q = QueryBox::FindAccountById(FindAccountById::new(EvaluatesTo::new(alice())));
    let mut expected = vec![1u8];
    expected.extend(("alice".to_string(), "wonderland".to_string()).encode());
    assert_eq!(encoded(&q), expected);
    assert_eq!(encoded(&q), vec![1, 20, b'a', b'l', b'i', b'c', b'e', 40, b'w', b'o', b'n', b'd', b'e', b'r', b'l', b'a', b'n', b'd']);
}

#[test]
fn unit_queries_are_one_index_byte() {
    assert_eq!(encoded(&QueryBox::FindAllAccounts(FindAllAccounts::new())), vec![0]);
    assert_eq!(encoded(&QueryBox::FindAllPeers(FindAllPeers::new())), vec![18]);
    assert_eq!(encoded(&QueryBox::from(FindAllAccounts::new())), vec![0]);
}

#[test]
fn two_field_queries_encode_fields_in_order() {
    let key = FindAccountKeyValueByIdAndKey::new(alice().into(), "color".to_string().into());
    let mut expected = vec![2u8];
    expected.extend(("alice", "wonderland", "color").encode());
    assert_eq!(encoded(&QueryBox::from(key)), expected);

    let xor = AssetDefinitionId::new("xor", "wonderland");
    let by_domain = FindAssetsByDomainNameAndAssetDefinitionId::new(
        EvaluatesTo::new("wonderland".to_string()),
        EvaluatesTo::new(xor.clone()),
    );
    let mut expected = vec![13u8];
    expected.extend(("wonderland", "xor", "wonderland").encode());
    assert_eq!(encoded(&QueryBox::from(by_domain)), expected);

    let asset = AssetId::new(xor, alice());
    let asset_key = FindAssetKeyValueByIdAndKey::new(asset.into(), EvaluatesTo::new("k".into()));
    let mut expected = vec![15u8];
    expected.extend(("xor", "wonderland", "alice", "wonderland", "k").encode());
    assert_eq!(encoded(&QueryBox::from(asset_key)), expected);
}

#[test]
fn last_variants_have_last_indices() {
    let tx = FindTransactionsByAccountId::new(alice().into());
    assert_eq!(encoded(&QueryBox::from(tx))[0], 19);
    let tokens = FindPermissionTokensByAccountId::new(alice().into());
    assert_eq!(encoded(&QueryBox::from(tokens))[0], 22);
}

#[test]
fn long_strings_get_wider_length_prefix() {
    for len in [63usize, 64, 16383, 16384] {
        let name = "a".repeat(len);
        let q = QueryBox::FindAccountById(FindAccountById::new(EvaluatesTo::new(AccountId::new(
            &name, "d",
        ))));
        let mut expected = vec![1u8];
        expected.extend(Compact(len as u32).encode());
        expected.extend(name.as_bytes());
        expected.extend("d".encode());
        assert_eq!(encoded(&q), expected);
    }
    let non_ascii = "ß€".to_string();
    let mut out = Vec::new();
    ScaleEncode::encode_to(&non_ascii, &mut out);
    assert_eq!(out, vec![20, 0xc3, 0x9f, 0xe2, 0x82, 0xac]);
}

#[test]
fn timestamp_bytes_are_little_endian() {
    let mut out = vec![7u8];
    encode_u128_le(0x0102_0304_0506_0708_090a_0b0c_0d0e_0f10, &mut out);
    assert_eq!(out, vec![7, 0x10, 0x0f, 0x0e, 0x0d, 0x0c, 0x0b, 0x0a, 9, 8, 7, 6, 5, 4, 3, 2, 1]);
}

#[test]
fn request_hash_is_digest_of_query_and_timestamp() {
    let q = QueryBox::FindAccountById(FindAccountById::new(alice().into()));
    let ts: u128 = 1_620_000_000_123;
    let request = QueryRequest::new(q.clone(), ts);
    let mut payload = encoded(&q);
    payload.extend_from_slice(&ts.to_le_bytes());
    assert_eq!(request.hash().0, digest(&payload));
}

#[test]
fn hash_changes_with_timestamp() {
    let q = QueryBox::FindAllAccounts(FindAllAccounts::new());
    let a = QueryRequest::new(q.clone(), 1).hash();
    let b = QueryRequest::new(q, 2).hash();
    assert_ne!(a, b);
}

#[test]
fn signing_keeps_hash_query_and_timestamp() {
    let q = QueryBox::FindAllAccounts(FindAllAccounts::new());
    let request = QueryRequest::new(q.clone(), 42);
    let before = request.hash();
    let signed = request.sign(signature());
    assert_eq!(signed.hash(), before);
    assert_eq!(signed.timestamp_ms, 42);
    assert_eq!(signed.query, q);
    assert_eq!(signed.signature, signature());
}

#[test]
fn constructors_keep_their_arguments() {
    let q = FindAccountById::new(alice().into());
    assert_eq!(q.id.expression, alice());
    assert_eq!(FindAllParameters::new(), FindAllParameters::default());
}

#[test]
fn decode_gives_back_encoded_query() {
    let xor = AssetDefinitionId::new("xor", "wonderland");
    let queries = vec![
        QueryBox::from(FindAllAccounts::new()),
        QueryBox::from(FindAccountById::new(alice().into())),
        QueryBox::from(FindAccountKeyValueByIdAndKey::new(alice().into(), "ключ".to_string().into())),
        QueryBox::from(FindAssetKeyValueByIdAndKey::new(
            AssetId::new(xor.clone(), alice()).into(),
            EvaluatesTo::new("k".into()),
        )),
        QueryBox::from(FindAssetsByDomainNameAndAssetDefinitionId::new(
            EvaluatesTo::new("a".repeat(70)),
            xor.into(),
        )),
        QueryBox::from(FindPermissionTokensByAccountId::new(alice().into())),
    ];
    for q in queries {
        let mut bytes = encoded(&q);
        let len = bytes.len();
        bytes.extend_from_slice(&[0xff, 0xee]);
        let (back, n) = decode::<QueryBox>(&bytes).expect("decodes");
        assert_eq!(back, q);
        assert_eq!(n, len);
    }
}

#[test]
fn decode_rejects_what_no_query_encodes_to() {
    assert!(decode::<QueryBox>(&[]).is_none());
    assert!(decode::<QueryBox>(&[23]).is_none());
    assert!(decode::<QueryBox>(&[200, 0, 0]).is_none());
    // truncated string
    assert!(decode::<QueryBox>(&[1, 20, b'a', b'l']).is_none());
    // a length of one written in the two-byte form is not the shortest form
    assert!(decode::<QueryBox>(&[3, 0b0000_0101, 0, b'a']).is_none());
    // invalid UTF-8
    assert!(decode::<QueryBox>(&[3, 4, 0xff]).is_none());
    assert_eq!(decode::<QueryBox>(&[3, 4, b'a']).map(|(_, n)| n), Some(3));
}

#[test]
fn string_decoding_agrees_with_codec() {
    let s = "wonderland".to_string();
    let bytes = s.encode();
    let (back, n) = decode::<String>(&bytes).expect("decodes");
    assert_eq!(back, s);
    assert_eq!(n, bytes.len());
}

fn strukt(name: &str, decls: Vec<(&str, Metadata)>) -> Metadata {
    Metadata::Struct(StructMeta {
        ident: name.to_string(),
        declarations: decls
            .into_iter()
            .map(|(n, d)| Declaration { name: Some(n.to_string()), definition: Box::new(d) })
            .collect(),
    })
}

#[test]
fn query_descriptions_follow_their_fields() {
    let account = strukt(
        "AccountId",
        vec![("name", Metadata::String), ("domain_name", Metadata::String)],
    );
    let expected = strukt(
        "FindAccountById",
        vec![("id", strukt("EvaluatesTo", vec![("expression", account)]))],
    );
    assert_eq!(FindAccountById::introspect(), expected);
    assert_eq!(FindAllPeers::introspect(), strukt("FindAllPeers", vec![]));
}

#[test]
fn query_box_description_numbers_variants_like_encoding() {
    let Metadata::Enum(e) = QueryBox::introspect() else { panic!("not an enum") };
    assert_eq!(e.ident, "QueryBox");
    assert_eq!(e.variants.len(), 23);
    for (i, v) in e.variants.iter().enumerate() {
        assert_eq!(v.discriminant as usize, i);
        assert_eq!(v.declarations.len(), 1);
        assert!(v.declarations[0].name.is_none());
    }
    assert_eq!(e.variants[1].name, "FindAccountById");
    assert_eq!(*e.variants[1].declarations[0].definition, FindAccountById::introspect());
    let q = QueryBox::from(FindPermissionTokensByAccountId::new(alice().into()));
    assert_eq!(e.variants[22].name, "FindPermissionTokensByAccountId");
    assert_eq!(encoded(&q)[0], e.variants[22].discriminant);
}

#[test]
fn signed_request_description_has_compact_timestamp() {
    let Metadata::Struct(s) = SignedQueryRequest::introspect() else { panic!("not a struct") };
    assert_eq!(s.ident, "SignedQueryRequest");
    let names: Vec<_> = s.declarations.iter().map(|d| d.name.clone().unwrap()).collect();
    assert_eq!(names, vec!["timestamp_ms", "signature", "query"]);
    assert_eq!(*s.declarations[0].definition, Metadata::Int(IntMeta { mode: Mode::Compact }));
    assert_eq!(*s.declarations[2].definition, QueryBox::introspect());
}

#[test]
fn hash_commits_to_query_and_timestamp() {
    let by_id = |name: &str| {
        QueryBox::FindAccountById(FindAccountById::new(EvaluatesTo::new(AccountId::new(
            name,
            "wonderland",
        ))))
    };
    let same_a = QueryRequest::new(by_id("alice"), 7).hash();
    let same_b = QueryRequest::new(by_id("alice"), 7).hash();
    assert_eq!(same_a, same_b);
    assert_ne!(same_a, QueryRequest::new(by_id("bob"), 7).hash());
    assert_ne!(same_a, QueryRequest::new(by_id("alice"), 8).hash());
    let other_variant = QueryBox::FindTransactionsByAccountId(FindTransactionsByAccountId::new(
        EvaluatesTo::new(AccountId::new("alice", "wonderland")),
    ));
    assert_ne!(same_a, QueryRequest::new(other_variant, 7).hash());
}
