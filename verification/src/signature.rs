//! The signature of a Last.fm request.

use crate::params;
use crate::params::{Pair, ParamMap};
use vstd::prelude::*;
use vstd::utf8::*;

verus! {

/// The name of the MD5 digest of `data`, as `md5::compute` gives it.
pub uninterp spec fn md5_digest(data: Seq<u8>) -> Seq<u8>;

/// The hexadecimal digit of a number under 16, in lower case.
pub open spec fn hex_digit(d: u8) -> char {
    if d < 10 {
        (48 + d) as char
    } else {
        (87 + d) as char
    }
}

/// Whether `c` is a hexadecimal digit in lower case.
pub open spec fn is_lower_hex(c: char) -> bool {
    '0' <= c <= '9' || 'a' <= c <= 'f'
}

/// Two hexadecimal digits for each byte, the higher one first.
pub open spec fn hex_text(bytes: Seq<u8>) -> Seq<char> {
    Seq::new(
        2 * bytes.len(),
        |i: int|
            hex_digit(
                if i % 2 == 0 {
                    bytes[i / 2] / 16
                } else {
                    bytes[i / 2] % 16
                },
            ),
    )
}

/// Calls `md5::compute`. Its result is sixteen bytes that depend on the data
/// alone; [`md5_digest`] names them.
#[verifier::external_body]
pub(crate) fn md5_compute(data: &[u8]) -> (digest: [u8; 16])
    ensures
        digest@ == md5_digest(data@),
{
    md5::compute(data).0
}

/// Formats an `md5::Digest` with `{:x}`, which writes each byte as two
/// lower-case hexadecimal digits.
#[verifier::external_body]
pub(crate) fn md5_lower_hex(digest: [u8; 16]) -> (text: String)
    ensures
        text@ == hex_text(digest@),
{
    format!("{:x}", md5::Digest(digest))
}

/// The names and values of the parameters, one after the other.
pub open spec fn joined(pairs: Seq<Pair>) -> Seq<char>
    decreases pairs.len(),
{
    if pairs.len() == 0 {
        Seq::empty()
    } else {
        joined(pairs.drop_last()) + pairs.last().0 + pairs.last().1
    }
}

/// The text that a signature is the digest of.
pub open spec fn signature_text(pairs: Seq<Pair>, secret: Seq<char>) -> Seq<char> {
    joined(pairs) + secret
}

/// The signature of parameters that are given in the order of their names.
pub open spec fn signature(pairs: Seq<Pair>, secret: Seq<char>) -> Seq<char> {
    hex_text(md5_digest(encode_utf8(signature_text(pairs, secret))))
}

/// A signature depends on which parameters there are, not on the order in
/// which they were inserted.
pub proof fn lemma_signature_ignores_insertion_order(
    a: ParamMap,
    b: ParamMap,
    secret: Seq<char>,
)
    requires
        a.wf(),
        b.wf(),
        a@ == b@,
    ensures
        signature_text(a.pairs(), secret) == signature_text(b.pairs(), secret),
        signature(a.pairs(), secret) == signature(b.pairs(), secret),
{
    params::lemma_key_order_unique(a.pairs(), b.pairs());
}

/// The text of a list that consists of two parts is the text of the first
/// part, then that of the second, then the secret.
pub proof fn lemma_signed_text_of_parts(a: Seq<Pair>, b: Seq<Pair>, secret: Seq<char>)
    ensures
        signature_text(a + b, secret) == signature_text(a, Seq::empty()) + signature_text(b, secret),
{
    lemma_joined_of_parts(a, b);
    assert(joined(a) + Seq::<char>::empty() == joined(a));
    assert(joined(a) + joined(b) + secret == joined(a) + (joined(b) + secret));
}

proof fn lemma_joined_of_parts(a: Seq<Pair>, b: Seq<Pair>)
    ensures
        joined(a + b) == joined(a) + joined(b),
    decreases b.len(),
{
    if b.len() == 0 {
        assert(a + b == a);
        assert(joined(a) + joined(b) == joined(a));
    } else {
        lemma_joined_of_parts(a, b.drop_last());
        assert((a + b).drop_last() == a + b.drop_last());
        assert((a + b).last() == b.last());
        assert(joined(a) + joined(b.drop_last()) + b.last().0 + b.last().1 == joined(a) + (joined(
            b.drop_last(),
        ) + b.last().0 + b.last().1));
    }
}

/// The text of one parameter is its name, its value and the secret; that of
/// none is the secret.
pub proof fn lemma_signed_text_of_one(pair: Pair, secret: Seq<char>)
    ensures
        signature_text(Seq::empty(), secret) == secret,
        signature_text(seq![pair], secret) == pair.0 + pair.1 + secret,
{
    let one = Seq::<Pair>::empty().push(pair);
    assert(one == seq![pair]);
    assert(one.drop_last() == Seq::<Pair>::empty());
    reveal_with_fuel(joined, 2);
    assert(joined(one) == pair.0 + pair.1);
    assert(Seq::<char>::empty() + secret == secret);
}

/// How long the names and values of the parameters are together.
pub open spec fn total_length(pairs: Seq<Pair>) -> nat
    decreases pairs.len(),
{
    if pairs.len() == 0 {
        0
    } else {
        pairs[0].0.len() + pairs[0].1.len() + total_length(pairs.drop_first())
    }
}

/// Every parameter is in the text: its name and value stand behind all those
/// of the parameters before it, the secret stands behind them all, and there
/// is nothing else.
pub proof fn lemma_every_parameter_is_signed(pairs: Seq<Pair>, secret: Seq<char>, i: int)
    requires
        0 <= i < pairs.len(),
    ensures
        ({
            let text = signature_text(pairs, secret);
            let at = total_length(pairs.take(i)) as int;
            let end = at + pairs[i].0.len() + pairs[i].1.len();
            &&& text.len() == total_length(pairs) + secret.len()
            &&& end <= total_length(pairs)
            &&& text.subrange(at, end) == pairs[i].0 + pairs[i].1
            &&& text.subrange(total_length(pairs) as int, text.len() as int) == secret
        }),
{
    let before = pairs.take(i);
    let one = seq![pairs[i]];
    let behind = pairs.skip(i + 1);
    assert(pairs == before + (one + behind));
    lemma_joined_length(pairs);
    lemma_joined_length(before);
    lemma_joined_length(one + behind);
    lemma_signed_text_of_parts(before, one + behind, secret);
    lemma_signed_text_of_parts(one, behind, secret);
    lemma_signed_text_of_one(pairs[i], Seq::empty());
    let text = signature_text(pairs, secret);
    let at = total_length(before) as int;
    assert(signature_text(before, Seq::empty()).len() == at);
    let pair_text = pairs[i].0 + pairs[i].1;
    assert(signature_text(one, Seq::empty()) == pair_text);
    let rest = signature_text(behind, secret);
    assert(text == signature_text(before, Seq::empty()) + (pair_text + rest));
    assert(text.subrange(at, at + pair_text.len()) == pair_text);
    assert(text.subrange(joined(pairs).len() as int, text.len() as int) == secret);
    lemma_joined_length(behind);
}

proof fn lemma_joined_length(pairs: Seq<Pair>)
    ensures
        joined(pairs).len() == total_length(pairs),
    decreases pairs.len(),
{
    if pairs.len() > 0 {
        let one = seq![pairs[0]];
        let rest = pairs.drop_first();
        assert(pairs == one + rest);
        lemma_joined_of_parts(one, rest);
        lemma_joined_length(rest);
        lemma_signed_text_of_one(pairs[0], Seq::empty());
        assert(signature_text(one, Seq::empty()) == joined(one));
    }
}

/// The number that a hexadecimal digit stands for.
pub open spec fn hex_value(c: char) -> int {
    if '0' <= c <= '9' {
        c as int - '0' as int
    } else {
        c as int - 'a' as int + 10
    }
}

/// The hexadecimal form of bytes has two lower-case digits for each byte,
/// which read back as that byte.
pub proof fn lemma_hex_reads_back(bytes: Seq<u8>, i: int)
    requires
        0 <= i < bytes.len(),
    ensures
        hex_text(bytes).len() == 2 * bytes.len(),
        is_lower_hex(hex_text(bytes)[2 * i]),
        is_lower_hex(hex_text(bytes)[2 * i + 1]),
        16 * hex_value(hex_text(bytes)[2 * i]) + hex_value(hex_text(bytes)[2 * i + 1]) == bytes[i],
{
    assert((2 * i) / 2 == i);
    assert((2 * i + 1) / 2 == i);
    assert((2 * i) % 2 == 0);
    assert((2 * i + 1) % 2 == 1);
    assert(bytes[i] / 16 < 16);
}

/// A signature is the digest of the whole text: its digits read back as the
/// bytes of the digest of the text's encoding.
pub proof fn lemma_signature_is_the_digest(pairs: Seq<Pair>, secret: Seq<char>, i: int)
    requires
        0 <= i < md5_digest(encode_utf8(signature_text(pairs, secret))).len(),
    ensures
        ({
            let digest = md5_digest(encode_utf8(signature_text(pairs, secret)));
            let sig = signature(pairs, secret);
            &&& sig.len() == 2 * digest.len()
            &&& is_lower_hex(sig[2 * i]) && is_lower_hex(sig[2 * i + 1])
            &&& 16 * hex_value(sig[2 * i]) + hex_value(sig[2 * i + 1]) == digest[i]
        }),
{
    lemma_hex_reads_back(md5_digest(encode_utf8(signature_text(pairs, secret))), i);
}

} // verus!
