//! The shared-secret check in front of the teams surface.

use vstd::prelude::*;

use crate::text::{lemma_utf8_injective, strip_prefix};

verus! {

/// Byte comparison that tells neither the length of `b` nor how much of it was right by
/// the time it takes: all of `a` is walked, whatever `b` is, and past the end of `b` it is
/// held against zeros.
pub fn ct_eq(a: &[u8], b: &[u8]) -> (same: bool)
    ensures
        same == (a@ == b@),
{
    let mut diff: u8 = if a.len() == b.len() {
        0
    } else {
        1
    };
    let mut i: usize = 0;
    assert(a@.take(0) == b@.take(0));
    while i < a.len()
        invariant
            i <= a@.len(),
            a@.len() != b@.len() ==> diff != 0,
            a@.len() == b@.len() ==> (diff == 0 <==> a@.take(i as int) == b@.take(i as int)),
        decreases a@.len() - i,
    {
        let x: u8 = a[i];
        let y: u8 = if i < b.len() {
            b[i]
        } else {
            0
        };
        let folded: u8 = diff | (x ^ y);
        assert(folded == 0 <==> (diff == 0 && x == y)) by (bit_vector)
            requires
                folded == diff | (x ^ y),
        ;
        proof {
            if a@.len() == b@.len() {
                assert(a@.take(i + 1) == a@.take(i as int).push(x));
                assert(b@.take(i + 1) == b@.take(i as int).push(y));
                if folded == 0 {
                    assert(a@.take(i + 1) == b@.take(i + 1));
                } else if a@.take(i + 1) == b@.take(i + 1) {
                    assert(a@.take(i as int) == a@.take(i + 1).drop_last());
                    assert(b@.take(i as int) == b@.take(i + 1).drop_last());
                    assert(a@.take(i + 1).last() == b@.take(i + 1).last());
                }
            }
        }
        diff = folded;
        i = i + 1;
    }
    proof {
        assert(a@.take(i as int) == a@);
        if a@.len() == b@.len() {
            assert(b@.take(i as int) == b@);
        }
    }
    diff == 0
}

/// The bearer a request must present to be let in: the configured token, if it is
/// set and not empty. Without one, nothing is let in.
pub open spec fn admits(provided: Option<Seq<char>>, expected: Option<Seq<char>>) -> bool {
    &&& expected is Some
    &&& expected->0.len() > 0
    &&& provided == expected
}

/// The auth decision: `true` exactly when a non-empty token is configured and the
/// request presents that token. No or an empty configured token rejects every request.
pub fn bearer_ok(provided: Option<&str>, expected: Option<&str>) -> (ok: bool)
    ensures
        ok == admits(provided.deep_view(), expected.deep_view()),
{
    match expected {
        None => false,
        Some(token) => {
            if token.is_empty() {
                return false;
            }
            let presented = match provided {
                Some(p) => p,
                None => "",
            };
            proof {
                reveal_strlit("");
                if vstd::utf8::encode_utf8(presented@) == vstd::utf8::encode_utf8(token@) {
                    lemma_utf8_injective(presented@, token@);
                }
            }
            ct_eq(presented.as_bytes(), token.as_bytes())
        },
    }
}

/// The token that an `Authorization` header carries: what follows `Bearer `.
pub open spec fn bearer_of(header: Option<Seq<char>>) -> Option<Seq<char>> {
    match header {
        Some(h) => if "Bearer "@.is_prefix_of(h) {
            Some(h.skip("Bearer "@.len() as int))
        } else {
            None
        },
        None => None,
    }
}

/// Whether a request with this `Authorization` header may go on to the teams surface.
/// A header that is absent, is no text, or is no bearer header counts as no token.
pub fn authorize(header: Option<&str>, expected: Option<&str>) -> (ok: bool)
    ensures
        ok == admits(bearer_of(header.deep_view()), expected.deep_view()),
{
    let provided = match header {
        Some(h) => strip_prefix(h, "Bearer "),
        None => None,
    };
    bearer_ok(provided, expected)
}

/// Without a configured token, or with an empty one, no request is let in.
pub proof fn law_fail_closed(provided: Option<Seq<char>>, expected: Option<Seq<char>>)
    requires
        expected is None || expected->0.len() == 0,
    ensures
        !admits(provided, expected),
{
}

/// With a token configured, a request is let in exactly when its header is `Bearer `
/// followed by that very token.
pub proof fn law_only_the_exact_token(header: Option<Seq<char>>, token: Seq<char>)
    requires
        token.len() > 0,
    ensures
        admits(bearer_of(header), Some(token)) <==> header == Some("Bearer "@ + token),
{
    let prefix = "Bearer "@;
    if admits(bearer_of(header), Some(token)) {
        assert(header->0 == prefix + header->0.skip(prefix.len() as int));
    }
    if header == Some(prefix + token) {
        assert((prefix + token).skip(prefix.len() as int) == token);
    }
}

/// A request is let in only with a token, and only with the one that is configured.
pub proof fn law_admits_equals_only(provided: Option<Seq<char>>, expected: Option<Seq<char>>)
    ensures
        admits(provided, expected) ==> provided is Some && provided->0.len() > 0 && expected
            == provided,
        provided is Some && provided->0.len() > 0 && expected == provided ==> admits(
            provided,
            expected,
        ),
{
}

/// The token of a bearer header is what follows the word and one space; any other header
/// carries none.
pub proof fn law_bearer_header(header: Seq<char>, token: Seq<char>)
    ensures
        bearer_of(Some("Bearer "@ + token)) == Some(token),
        bearer_of(Some(header)) is Some ==> header == "Bearer "@ + bearer_of(Some(header))->0,
        bearer_of(None) is None,
{
    let prefix = "Bearer "@;
    assert((prefix + token).skip(prefix.len() as int) =~= token);
    assert(prefix.is_prefix_of(prefix + token));
    if prefix.is_prefix_of(header) {
        assert(header =~= prefix + header.skip(prefix.len() as int));
    }
}

} // verus!
