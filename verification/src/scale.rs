//! Values framed in the SCALE binary encoding.
//!
//! A string is its length in the compact encoding followed by its UTF-8 bytes; a
//! struct is its fields one after the other; an enum is its variant's index byte
//! followed by the variant's fields; a fixed-width integer is its little-endian bytes.
use vstd::prelude::*;
use vstd::utf8::encode_utf8;

verus! {

/// The `k` lowest bytes of `v`, least significant first.
pub open spec fn le_bytes(v: nat, k: nat) -> Seq<u8>
    decreases k,
{
    if k == 0 {
        Seq::empty()
    } else {
        seq![(v % 256) as u8] + le_bytes(v / 256, (k - 1) as nat)
    }
}

/// The compact encoding of a length: the length shifted left by two bits, tagged in
/// the two low bits with the number of bytes used (one, two or four), or, for the
/// largest lengths, the tag byte `3` followed by the four bytes of the length.
pub open spec fn spec_compact_u32(n: u32) -> Seq<u8> {
    if n < 0x40 {
        seq![(n * 4) as u8]
    } else if n < 0x4000 {
        le_bytes((n * 4 + 1) as nat, 2)
    } else if n < 0x4000_0000 {
        le_bytes((n * 4 + 2) as nat, 4)
    } else {
        seq![3u8] + le_bytes(n as nat, 4)
    }
}

/// A string whose UTF-8 bytes can be counted in a `u32`.
pub open spec fn str_fits(s: Seq<char>) -> bool {
    encode_utf8(s).len() <= u32::MAX
}

/// The encoding of a string: its byte length in the compact encoding, then its UTF-8 bytes.
pub open spec fn spec_encode_str(s: Seq<char>) -> Seq<u8> {
    spec_compact_u32(encode_utf8(s).len() as u32) + encode_utf8(s)
}

/// Encodes a string with `parity_scale_codec`'s `Encode` implementation for `str`.
///
/// Trusted: the contract claims that the crate writes the byte length as a compact
/// `u32` (one byte for lengths below 64, two little-endian bytes below 16384, four
/// below 2^30, else the tag byte 3 and four bytes) followed by the string's UTF-8
/// bytes; the crate panics on longer strings, which the precondition leaves out.
#[verifier::external_body]
fn scale_encode_str(s: &str) -> (r: Vec<u8>)
    requires
        str_fits(s@),
    ensures
        r@ == spec_encode_str(s@),
{
    parity_scale_codec::Encode::encode(s)
}

/// A value with a SCALE encoding.
pub trait ScaleEncode {
    /// The value can be encoded: its strings are short enough.
    spec fn encodable(&self) -> bool;

    /// The encoding of the value.
    spec fn spec_encoding(&self) -> Seq<u8>;

    /// Appends the encoding of the value to `out`.
    fn encode_to(&self, out: &mut Vec<u8>)
        requires
            self.encodable(),
        ensures
            final(out)@ == old(out)@ + self.spec_encoding(),
    ;
}

impl ScaleEncode for String {
    open spec fn encodable(&self) -> bool {
        str_fits(self@)
    }

    open spec fn spec_encoding(&self) -> Seq<u8> {
        spec_encode_str(self@)
    }

    fn encode_to(&self, out: &mut Vec<u8>) {
        let mut bytes = scale_encode_str(self.as_str());
        out.append(&mut bytes);
    }
}

/// Appends the encoding of a `u128`: its sixteen bytes, least significant first.
pub fn encode_u128_le(v: u128, out: &mut Vec<u8>)
    ensures
        final(out)@ == old(out)@ + le_bytes(v as nat, 16),
{
    let ghost start = out@;
    let mut x: u128 = v;
    let mut i: usize = 0;
    while i < 16
        invariant
            i <= 16,
            start + le_bytes(v as nat, 16) == out@ + le_bytes(x as nat, (16 - i) as nat),
        decreases 16 - i,
    {
        let b = (x & 0xff) as u8;
        assert(x & 0xff == x % 256) by (bit_vector);
        assert(x >> 8 == x / 256) by (bit_vector);
        let ghost before = out@;
        let ghost k = (16 - i) as nat;
        assert(le_bytes(x as nat, k) == seq![(x % 256) as u8] + le_bytes(
            (x / 256) as nat,
            (k - 1) as nat,
        ));
        out.push(b);
        x = x >> 8;
        i = i + 1;
        let ghost tail = le_bytes(x as nat, (16 - i) as nat);
        assert(before + (seq![b] + tail) =~= out@ + tail);
    }
    assert(le_bytes(x as nat, 0) =~= Seq::<u8>::empty());
    assert(start + le_bytes(v as nat, 16) =~= out@);
}

/// The value of little-endian bytes.
pub open spec fn from_le(b: Seq<u8>) -> nat
    decreases b.len(),
{
    if b.len() == 0 {
        0
    } else {
        b[0] as nat + 256 * from_le(b.drop_first())
    }
}

/// `256` to the power `k`, for `k` up to four.
pub open spec fn pow256_small(k: nat) -> nat {
    if k == 0 {
        1
    } else if k == 1 {
        0x100
    } else if k == 2 {
        0x1_0000
    } else if k == 3 {
        0x100_0000
    } else {
        0x1_0000_0000
    }
}

/// Reading the `k` lowest bytes of `v` gives back `v` when it fits in them.
pub proof fn lemma_le_bytes_roundtrip(v: nat, k: nat)
    requires
        k <= 4,
        v < pow256_small(k),
    ensures
        le_bytes(v, k).len() == k,
        from_le(le_bytes(v, k)) == v,
    decreases k,
{
    if k > 0 {
        lemma_le_bytes_roundtrip(v / 256, (k - 1) as nat);
        let b = le_bytes(v, k);
        assert(b.drop_first() =~= le_bytes(v / 256, (k - 1) as nat));
        assert(((v % 256) as u8) as nat == v % 256);
    }
}

/// Reads a compact `u32` at the start of `b`: its value and the number of bytes it took.
/// Only the shortest encoding of a value is accepted.
pub open spec fn spec_decode_compact_u32(b: Seq<u8>) -> Option<(u32, nat)> {
    if b.len() == 0 {
        None
    } else if b[0] % 4 == 0 {
        Some(((b[0] / 4) as u32, 1))
    } else if b[0] % 4 == 1 {
        if b.len() < 2 {
            None
        } else {
            let x = from_le(b.take(2)) / 4;
            if 0x40 <= x && x < 0x4000 {
                Some((x as u32, 2))
            } else {
                None
            }
        }
    } else if b[0] % 4 == 2 {
        if b.len() < 4 {
            None
        } else {
            let x = from_le(b.take(4)) / 4;
            if 0x4000 <= x && x < 0x4000_0000 {
                Some((x as u32, 4))
            } else {
                None
            }
        }
    } else {
        if b[0] / 4 != 0 || b.len() < 5 {
            None
        } else {
            let x = from_le(b.subrange(1, 5));
            if 0x4000_0000 <= x && x <= u32::MAX {
                Some((x as u32, 5))
            } else {
                None
            }
        }
    }
}

/// The first byte of little-endian bytes is the value's lowest byte.
proof fn lemma_first_le_byte(v: nat, k: nat)
    requires
        k > 0,
    ensures
        le_bytes(v, k)[0] as nat == v % 256,
{
    assert(((v % 256) as u8) as nat == v % 256);
}

/// A compact `u32` is read back from the front of any byte string that starts with it.
pub proof fn lemma_compact_roundtrip(n: u32, rest: Seq<u8>)
    ensures
        spec_decode_compact_u32(spec_compact_u32(n) + rest) == Some(
            (n, spec_compact_u32(n).len()),
        ),
{
    let e = spec_compact_u32(n);
    let b = e + rest;
    if n < 0x40 {
        assert(b[0] == (n * 4) as u8);
        assert(((n * 4) as u8) as nat == n * 4);
        assert((n * 4) % 4 == 0);
    } else if n < 0x4000 {
        let v = (n * 4 + 1) as nat;
        lemma_le_bytes_roundtrip(v, 2);
        lemma_first_le_byte(v, 2);
        assert(b.take(2) =~= e);
        assert(b[0] as nat % 4 == 1) by (nonlinear_arith)
            requires
                b[0] as nat == v % 256,
                v == n * 4 + 1,
        ;
        assert(v / 4 == n);
    } else if n < 0x4000_0000 {
        let v = (n * 4 + 2) as nat;
        lemma_le_bytes_roundtrip(v, 4);
        lemma_first_le_byte(v, 4);
        assert(b.take(4) =~= e);
        assert(b[0] as nat % 4 == 2) by (nonlinear_arith)
            requires
                b[0] as nat == v % 256,
                v == n * 4 + 2,
        ;
        assert(v / 4 == n);
    } else {
        lemma_le_bytes_roundtrip(n as nat, 4);
        assert(b[0] == 3u8);
        assert(b.subrange(1, 5) =~= le_bytes(n as nat, 4));
    }
}

/// Compact encodings are prefix-free: one that starts another is the same value's.
pub proof fn lemma_compact_prefix_free(n: u32, m: u32, x: Seq<u8>, y: Seq<u8>)
    requires
        spec_compact_u32(n) + x == spec_compact_u32(m) + y,
    ensures
        n == m,
{
    lemma_compact_roundtrip(n, x);
    lemma_compact_roundtrip(m, y);
}

/// `a` is the first `a.len()` bytes of `b`.
pub open spec fn is_prefix(a: Seq<u8>, b: Seq<u8>) -> bool {
    a.len() <= b.len() && b.take(a.len() as int) == a
}

/// Decodes a string with `parity_scale_codec`'s `Decode` implementation for `String`,
/// giving the string and the bytes after it.
///
/// Trusted: the contract claims that the crate accepts exactly the inputs that start
/// with the encoding of some string (the shortest compact form of its byte length, then
/// that many bytes of valid UTF-8), and that it then returns that string and the rest.
#[verifier::external_body]
fn scale_decode_str<'a>(input: &'a [u8]) -> (r: Option<(String, &'a [u8])>)
    ensures
        r matches Some((s, rest)) ==> str_fits(s@) && input@ == spec_encode_str(s@) + rest@,
        r is None ==> forall|s: Seq<char>|
            str_fits(s) ==> !is_prefix(#[trigger] spec_encode_str(s), input@),
{
    let mut rest = input;
    match <String as parity_scale_codec::Decode>::decode(&mut rest) {
        Ok(s) => Some((s, rest)),
        Err(_) => None,
    }
}

/// A value that can be read back from its SCALE encoding. Its deep view is the value
/// that the encoding carries.
pub trait ScaleDecode: ScaleEncode + DeepView + Sized {
    /// Encodings are injective: values with the same encoding have the same deep view.
    proof fn lemma_encoding_injective(a: Self, b: Self)
        requires
            a.encodable(),
            b.encodable(),
            a.spec_encoding() == b.spec_encoding(),
        ensures
            a.deep_view() == b.deep_view(),
    ;

    /// The encoding depends on the deep view alone.
    proof fn lemma_encoding_determined(a: Self, b: Self)
        requires
            a.deep_view() == b.deep_view(),
        ensures
            a.spec_encoding() == b.spec_encoding(),
    ;

    /// The encodings of the type are prefix-free: an encoding that starts another is that one.
    proof fn lemma_prefix_free(a: Self, b: Self)
        requires
            a.encodable(),
            b.encodable(),
            is_prefix(a.spec_encoding(), b.spec_encoding()),
        ensures
            a.spec_encoding() == b.spec_encoding(),
    ;

    /// Reads a value from the front of `input`: the value and the number of bytes read,
    /// or none when `input` does not start with the encoding of a value.
    fn decode_from(input: &[u8]) -> (r: Option<(Self, usize)>)
        ensures
            r matches Some((v, n)) ==> v.encodable() && n == v.spec_encoding().len() && is_prefix(
                v.spec_encoding(),
                input@,
            ),
            r is None ==> forall|v: Self|
                v.encodable() ==> !is_prefix(#[trigger] v.spec_encoding(), input@),
    ;
}

/// Two encodings that both start the same bytes are the same encoding.
pub proof fn lemma_common_prefix<T: ScaleDecode>(a: T, b: T, z: Seq<u8>)
    requires
        a.encodable(),
        b.encodable(),
        is_prefix(a.spec_encoding(), z),
        is_prefix(b.spec_encoding(), z),
    ensures
        a.spec_encoding() == b.spec_encoding(),
{
    let ea = a.spec_encoding();
    let eb = b.spec_encoding();
    if ea.len() <= eb.len() {
        assert(eb.take(ea.len() as int) =~= z.take(ea.len() as int));
        T::lemma_prefix_free(a, b);
    } else {
        assert(ea.take(eb.len() as int) =~= z.take(eb.len() as int));
        T::lemma_prefix_free(b, a);
    }
}

/// The bytes of `s` from position `n` on.
pub fn skip_bytes(s: &[u8], n: usize) -> (r: &[u8])
    requires
        n <= s@.len(),
    ensures
        r@ == s@.skip(n as int),
{
    vstd::slice::slice_subrange(s, n, s.len())
}

/// Reads a value from the front of `input`. Decoding gives back what was encoded: when
/// `input` starts with the encoding of a value, the value read carries the same value (its
/// deep view), has that same encoding, and exactly its bytes are read.
pub fn decode<T: ScaleDecode>(input: &[u8]) -> (r: Option<(T, usize)>)
    ensures
        r matches Some((v, n)) ==> v.encodable() && n == v.spec_encoding().len() && is_prefix(
            v.spec_encoding(),
            input@,
        ),
        forall|v: T|
            v.encodable() && is_prefix(#[trigger] v.spec_encoding(), input@) ==> (r matches Some(
                (w, n),
            ) && w.deep_view() == v.deep_view() && w.spec_encoding() == v.spec_encoding() && n
                == v.spec_encoding().len()),
{
    let r = T::decode_from(input);
    assert forall|v: T|
        v.encodable() && is_prefix(#[trigger] v.spec_encoding(), input@) implies (r matches Some(
        (w, n),
    ) && w.deep_view() == v.deep_view() && w.spec_encoding() == v.spec_encoding() && n
        == v.spec_encoding().len()) by {
        match r {
            Some((w, n)) => {
                lemma_common_prefix(w, v, input@);
                T::lemma_encoding_injective(w, v);
            },
            None => {},
        }
    }
    r
}

/// String encodings are prefix-free.
pub proof fn lemma_str_prefix_free(a: Seq<char>, b: Seq<char>)
    requires
        str_fits(a),
        str_fits(b),
        is_prefix(spec_encode_str(a), spec_encode_str(b)),
    ensures
        spec_encode_str(a) == spec_encode_str(b),
{
    let ea = spec_encode_str(a);
    let eb = spec_encode_str(b);
    let la = encode_utf8(a).len() as u32;
    let lb = encode_utf8(b).len() as u32;
    let tail = eb.skip(ea.len() as int);
    assert(ea + tail =~= eb);
    assert(spec_compact_u32(la) + (encode_utf8(a) + tail) =~= spec_compact_u32(lb) + encode_utf8(
        b,
    ));
    lemma_compact_prefix_free(la, lb, encode_utf8(a) + tail, encode_utf8(b));
    assert(ea.len() == eb.len());
    assert(eb.take(ea.len() as int) =~= eb);
}

/// Strings with the same encoding are the same string.
pub proof fn lemma_str_encoding_injective(a: Seq<char>, b: Seq<char>)
    requires
        spec_encode_str(a) == spec_encode_str(b),
    ensures
        a == b,
{
    let la = encode_utf8(a).len() as u32;
    let lb = encode_utf8(b).len() as u32;
    lemma_compact_prefix_free(la, lb, encode_utf8(a), encode_utf8(b));
    let ca = spec_compact_u32(la);
    assert(encode_utf8(a) =~= spec_encode_str(a).skip(ca.len() as int));
    assert(encode_utf8(b) =~= spec_encode_str(b).skip(ca.len() as int));
    vstd::utf8::encode_utf8_decode_utf8(a);
    vstd::utf8::encode_utf8_decode_utf8(b);
}

impl ScaleDecode for String {
    proof fn lemma_encoding_injective(a: Self, b: Self) {
        lemma_str_encoding_injective(a@, b@);
    }

    proof fn lemma_encoding_determined(a: Self, b: Self) {
    }

    proof fn lemma_prefix_free(a: Self, b: Self) {
        lemma_str_prefix_free(a@, b@);
    }

    fn decode_from(input: &[u8]) -> (r: Option<(String, usize)>) {
        match scale_decode_str(input) {
            Some((s, rest)) => {
                let n = input.len() - rest.len();
                assert(input@.take(n as int) =~= spec_encode_str(s@));
                Some((s, n))
            },
            None => {
                assert forall|v: String| v.encodable() implies !is_prefix(
                    #[trigger] v.spec_encoding(),
                    input@,
                ) by {
                    assert(str_fits(v@));
                    assert(!is_prefix(spec_encode_str(v@), input@));
                }
                None
            },
        }
    }
}

/// The encoding of two values, one after the other.
pub open spec fn pair_encoding<A: ScaleEncode, B: ScaleEncode>(a: A, b: B) -> Seq<u8> {
    a.spec_encoding() + b.spec_encoding()
}

/// The encodings of pairs are prefix-free when those of their parts are.
pub proof fn lemma_pair_prefix_free<A: ScaleDecode, B: ScaleDecode>(a1: A, b1: B, a2: A, b2: B)
    requires
        a1.encodable(),
        b1.encodable(),
        a2.encodable(),
        b2.encodable(),
        is_prefix(pair_encoding(a1, b1), pair_encoding(a2, b2)),
    ensures
        pair_encoding(a1, b1) == pair_encoding(a2, b2),
{
    let z = pair_encoding(a2, b2);
    let p1 = pair_encoding(a1, b1);
    let e1 = a1.spec_encoding();
    let e2 = a2.spec_encoding();
    let f1 = b1.spec_encoding();
    let f2 = b2.spec_encoding();
    assert(z.take(p1.len() as int) == p1);
    assert(z.take(p1.len() as int).take(e1.len() as int) =~= z.take(e1.len() as int));
    assert(p1.take(e1.len() as int) =~= e1);
    assert(is_prefix(e1, z));
    assert(z.take(e2.len() as int) =~= e2);
    lemma_common_prefix(a1, a2, z);
    assert(f2.take(f1.len() as int) =~= z.take(p1.len() as int).skip(e1.len() as int));
    assert(p1.skip(e1.len() as int) =~= f1);
    B::lemma_prefix_free(b1, b2);
}

/// Reads two values one after the other from the front of `input`.
pub fn decode_pair<A: ScaleDecode, B: ScaleDecode>(input: &[u8]) -> (r: Option<(A, B, usize)>)
    ensures
        r matches Some((a, b, n)) ==> a.encodable() && b.encodable() && n == pair_encoding(
            a,
            b,
        ).len() && is_prefix(pair_encoding(a, b), input@),
        r is None ==> forall|a: A, b: B|
            a.encodable() && b.encodable() ==> !is_prefix(#[trigger] pair_encoding(a, b), input@),
{
    let (a, n1) = match A::decode_from(input) {
        Some(x) => x,
        None => {
            assert forall|a: A, b: B| a.encodable() && b.encodable() implies !is_prefix(
                #[trigger] pair_encoding(a, b),
                input@,
            ) by {
                if is_prefix(pair_encoding(a, b), input@) {
                    assert(input@.take(a.spec_encoding().len() as int) =~= pair_encoding(a, b).take(
                        a.spec_encoding().len() as int,
                    ));
                    assert(pair_encoding(a, b).take(a.spec_encoding().len() as int)
                        =~= a.spec_encoding());
                }
            }
            return None;
        },
    };
    let rest = skip_bytes(input, n1);
    let (b, n2) = match B::decode_from(rest) {
        Some(x) => x,
        None => {
            assert forall|a2: A, b2: B| a2.encodable() && b2.encodable() implies !is_prefix(
                #[trigger] pair_encoding(a2, b2),
                input@,
            ) by {
                if is_prefix(pair_encoding(a2, b2), input@) {
                    let e2 = a2.spec_encoding();
                    assert(input@.take(e2.len() as int) =~= pair_encoding(a2, b2).take(
                        e2.len() as int,
                    ));
                    assert(pair_encoding(a2, b2).take(e2.len() as int) =~= e2);
                    lemma_common_prefix(a, a2, input@);
                    let p2 = pair_encoding(a2, b2);
                    let f2 = b2.spec_encoding();
                    assert(input@.take(p2.len() as int) == p2);
                    assert(rest@.take(f2.len() as int) =~= input@.take(p2.len() as int).skip(
                        n1 as int,
                    ));
                    assert(p2.skip(n1 as int) =~= f2);
                    assert(is_prefix(f2, rest@));
                }
            }
            return None;
        },
    };
    let total = input.len();
    assert(rest@.len() == input@.len() - n1);
    assert(n1 + n2 <= total);
    assert(input@.take((n1 + n2) as int) =~= pair_encoding(a, b));
    Some((a, b, n1 + n2))
}

/// Pairs with the same encoding have parts with the same encodings.
/// Pairs with the same encoding have parts with the same deep views.
pub proof fn lemma_pair_injective<A: ScaleDecode, B: ScaleDecode>(a1: A, b1: B, a2: A, b2: B)
    requires
        a1.encodable(),
        b1.encodable(),
        a2.encodable(),
        b2.encodable(),
        pair_encoding(a1, b1) == pair_encoding(a2, b2),
    ensures
        a1.deep_view() == a2.deep_view(),
        b1.deep_view() == b2.deep_view(),
{
    lemma_pair_split(a1, b1, a2, b2);
    A::lemma_encoding_injective(a1, a2);
    B::lemma_encoding_injective(b1, b2);
}

pub proof fn lemma_pair_split<A: ScaleDecode, B: ScaleDecode>(a1: A, b1: B, a2: A, b2: B)
    requires
        a1.encodable(),
        b1.encodable(),
        a2.encodable(),
        b2.encodable(),
        pair_encoding(a1, b1) == pair_encoding(a2, b2),
    ensures
        a1.spec_encoding() == a2.spec_encoding(),
        b1.spec_encoding() == b2.spec_encoding(),
{
    let z = pair_encoding(a1, b1);
    assert(z.take(a1.spec_encoding().len() as int) =~= a1.spec_encoding());
    assert(z.take(a2.spec_encoding().len() as int) =~= a2.spec_encoding());
    lemma_common_prefix(a1, a2, z);
    assert(z.skip(a1.spec_encoding().len() as int) =~= b1.spec_encoding());
    assert(z.skip(a2.spec_encoding().len() as int) =~= b2.spec_encoding());
}

/// `256` to the power `k`.
pub open spec fn pow256(k: nat) -> nat
    decreases k,
{
    if k == 0 {
        1
    } else {
        256 * pow256((k - 1) as nat)
    }
}

/// Little-endian byte strings of the same length are equal only for equal values.
pub proof fn lemma_le_bytes_injective(a: nat, b: nat, k: nat)
    requires
        a < pow256(k),
        b < pow256(k),
        le_bytes(a, k) == le_bytes(b, k),
    ensures
        a == b,
    decreases k,
{
    if k > 0 {
        let p = pow256((k - 1) as nat);
        assert(le_bytes(a, k)[0] == (a % 256) as u8);
        assert(le_bytes(b, k)[0] == (b % 256) as u8);
        assert(((a % 256) as u8) as nat == a % 256);
        assert(((b % 256) as u8) as nat == b % 256);
        assert(a % 256 == b % 256);
        assert(le_bytes(a, k).drop_first() =~= le_bytes(a / 256, (k - 1) as nat));
        assert(le_bytes(b, k).drop_first() =~= le_bytes(b / 256, (k - 1) as nat));
        assert(a / 256 < p) by (nonlinear_arith)
            requires
                a < 256 * p,
        ;
        assert(b / 256 < p) by (nonlinear_arith)
            requires
                b < 256 * p,
        ;
        lemma_le_bytes_injective(a / 256, b / 256, (k - 1) as nat);
    }
}

/// `le_bytes(v, k)` has `k` bytes.
pub proof fn lemma_le_bytes_len(v: nat, k: nat)
    ensures
        le_bytes(v, k).len() == k,
    decreases k,
{
    if k > 0 {
        lemma_le_bytes_len(v / 256, (k - 1) as nat);
    }
}

} // verus!
