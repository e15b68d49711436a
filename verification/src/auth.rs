//! Extraction of the provider API key from an `Authorization` header value.
//!
//! A well-formed header value is the literal prefix `"Bearer sk-"` followed
//! by the key itself; everything after the prefix is the key, the empty key
//! included. Any other value yields nothing. The caller hands the header
//! value in as text; a missing or non-text header is treated by the caller
//! as an absent key.

use vstd::prelude::*;

verus! {

/// The literal prefix that a usable `Authorization` header value must carry.
pub open spec fn key_prefix() -> Seq<char> {
    "Bearer sk-"@
}

/// Whether a header value begins with the required key prefix.
pub open spec fn starts_with_key_prefix(header: Seq<char>) -> bool {
    header.len() >= key_prefix().len() && header.take(key_prefix().len() as int) == key_prefix()
}

/// What key extraction yields on a header value: the suffix after the
/// required prefix, or nothing when the prefix is absent.
pub open spec fn spec_extract_key(header: Seq<char>) -> Option<Seq<char>> {
    if starts_with_key_prefix(header) {
        Some(header.skip(key_prefix().len() as int))
    } else {
        None
    }
}

/// Pulls the provider API key out of an `Authorization` header value:
/// everything after the literal prefix `"Bearer sk-"`, or nothing when the
/// value does not begin with that prefix. A value equal to exactly the
/// prefix yields the empty key.
pub fn extract_gemini_api_key(authorization_key: &str) -> (r: Option<String>)
    ensures
        r is Some <==> starts_with_key_prefix(authorization_key@),
        r matches Some(k) ==> spec_extract_key(authorization_key@) == Some(k@),
{
    let prefix = "Bearer sk-";
    proof {
        reveal_strlit("Bearer sk-");
    }
    let n = authorization_key.unicode_len();
    if n < 10 {
        return None;
    }
    let mut i: usize = 0;
    while i < 10
        invariant
            i <= 10,
            n == authorization_key@.len(),
            n >= 10,
            prefix@ == key_prefix(),
            key_prefix().len() == 10,
            forall|j: int| 0 <= j < i ==> authorization_key@[j] == key_prefix()[j],
        decreases 10 - i,
    {
        if authorization_key.get_char(i) != prefix.get_char(i) {
            proof {
                assert(authorization_key@.take(10)[i as int] != key_prefix()[i as int]);
            }
            return None;
        }
        i += 1;
    }
    proof {
        assert(authorization_key@.take(10) =~= key_prefix());
    }
    let rest = authorization_key.substring_char(10, n);
    proof {
        assert(rest@ =~= authorization_key@.skip(10));
    }
    Some(rest.to_owned())
}

/// Law: a header value that does not begin with the key prefix yields no
/// key.
pub proof fn lemma_extract_key_requires_prefix(header: Seq<char>)
    requires
        !starts_with_key_prefix(header),
    ensures
        spec_extract_key(header) is None,
{
}

/// Law: for every string, extraction applied to the key prefix followed by
/// that string returns exactly that string, the empty one included.
pub proof fn lemma_extract_key_after_prefix(s: Seq<char>)
    ensures
        spec_extract_key(key_prefix() + s) == Some(s),
{
    let header = key_prefix() + s;
    assert(header.take(key_prefix().len() as int) =~= key_prefix());
    assert(header.skip(key_prefix().len() as int) =~= s);
}

} // verus!
