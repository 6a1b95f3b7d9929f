use vstd::prelude::*;

use crate::shortener::{shorten_post, InMemoryUrlShortener};

verus! {

/// Shortening the same URL twice gives the same key both times, and the
/// second call leaves the store as the first left it.
pub proof fn lemma_shorten_idempotent(
    s0: InMemoryUrlShortener,
    s1: InMemoryUrlShortener,
    s2: InMemoryUrlShortener,
    url: Seq<char>,
    k1: Seq<char>,
    k2: Seq<char>,
)
    requires
        s0.wf(),
        shorten_post(s0, url, s1, k1),
        shorten_post(s1, url, s2, k2),
    ensures
        k1 == k2,
        s2.forward() == s1.forward(),
        s2.reverse() == s1.reverse(),
{
}

/// Looking up the key that shortening returned gives back the URL.
pub proof fn lemma_round_trip(
    s0: InMemoryUrlShortener,
    s1: InMemoryUrlShortener,
    url: Seq<char>,
    key: Seq<char>,
)
    requires
        s0.wf(),
        shorten_post(s0, url, s1, key),
    ensures
        s1.forward().contains_key(key),
        s1.forward()[key] == url,
{
    s0.lemma_inverse();
}

/// A key that no shortening has handed out is not found: a key absent from
/// the reverse map's values is absent from the forward map.
pub proof fn lemma_unknown_key(s: InMemoryUrlShortener, key: Seq<char>)
    requires
        s.wf(),
        forall|u: Seq<char>| #[trigger] s.reverse().contains_key(u) ==> s.reverse()[u] != key,
    ensures
        !s.forward().contains_key(key),
{
    s.lemma_inverse();
    if s.forward().contains_key(key) {
        assert(s.reverse().contains_key(s.forward()[key]));
    }
}

/// Two different URLs shortened one after the other get different keys.
pub proof fn lemma_distinct_urls_distinct_keys(
    s0: InMemoryUrlShortener,
    s1: InMemoryUrlShortener,
    s2: InMemoryUrlShortener,
    u1: Seq<char>,
    u2: Seq<char>,
    k1: Seq<char>,
    k2: Seq<char>,
)
    requires
        s0.wf(),
        u1 != u2,
        shorten_post(s0, u1, s1, k1),
        shorten_post(s1, u2, s2, k2),
    ensures
        k1 != k2,
{
    s0.lemma_inverse();
    s1.lemma_inverse();
    assert(s1.reverse().contains_key(u1));
    assert(s1.reverse()[u1] == k1);
    if s1.reverse().contains_key(u2) {
        assert(s1.forward()[k2] == u2);
        assert(s1.forward()[k1] == u1);
    }
}

} // verus!
