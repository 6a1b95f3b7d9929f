use vstd::prelude::*;

use crate::interface::{shorten_maps, UrlShortener};
use crate::key::{push_str, InMemoryUrlKey, UrlError, KEY_LEN};

verus! {

/// `s` followed by `n` underscores: the candidate key lengthened `n` times.
pub open spec fn padded(s: Seq<char>, n: nat) -> Seq<char> {
    s + Seq::new(n, |i: int| '_')
}

/// `r` is the first of `candidate`, `candidate_`, `candidate__`, ... that is
/// not a key of `forward`.
pub open spec fn first_free(forward: Map<Seq<char>, Seq<char>>, candidate: Seq<char>, r: Seq<char>) -> bool {
    &&& r.len() >= candidate.len()
    &&& r == padded(candidate, (r.len() - candidate.len()) as nat)
    &&& !forward.contains_key(r)
    &&& forall|m: nat|
        m < r.len() - candidate.len() ==> forward.contains_key(#[trigger] padded(candidate, m))
}

/// The store after `shorten_url(url)` returned `key`: well formed, with the
/// maps changed as `shorten_maps` says.
pub open spec fn shorten_post(
    pre: InMemoryUrlShortener,
    url: Seq<char>,
    post: InMemoryUrlShortener,
    key: Seq<char>,
) -> bool {
    &&& post.wf()
    &&& shorten_maps(pre.forward(), pre.reverse(), url, post.forward(), post.reverse(), key)
}

/// The in-memory engine: a list of (key, URL) pairs that stands for the
/// forward map (key to URL) and the reverse map (URL to key).
pub struct InMemoryUrlShortener {
    entries: Vec<(InMemoryUrlKey, String)>,
    keys_to_urls: Ghost<Map<Seq<char>, Seq<char>>>,
    urls_to_keys: Ghost<Map<Seq<char>, Seq<char>>>,
}

impl InMemoryUrlShortener {
    /// The forward map: key to URL.
    pub closed spec fn forward(&self) -> Map<Seq<char>, Seq<char>> {
        self.keys_to_urls@
    }

    /// The reverse map: URL to key.
    pub closed spec fn reverse(&self) -> Map<Seq<char>, Seq<char>> {
        self.urls_to_keys@
    }

    /// Every pair of the list is in both maps, and each map holds only pairs
    /// of the list.
    pub closed spec fn wf(&self) -> bool {
        &&& forall|i: int|
            0 <= i < self.entries@.len() ==> {
                &&& self.keys_to_urls@.contains_key((#[trigger] self.entries@[i]).0@)
                &&& self.keys_to_urls@[self.entries@[i].0@] == self.entries@[i].1@
                &&& self.urls_to_keys@.contains_key(self.entries@[i].1@)
                &&& self.urls_to_keys@[self.entries@[i].1@] == self.entries@[i].0@
            }
        &&& forall|k: Seq<char>|
            #[trigger] self.keys_to_urls@.contains_key(k) ==> exists|i: int|
                0 <= i < self.entries@.len() && (#[trigger] self.entries@[i]).0@ == k
        &&& forall|u: Seq<char>|
            #[trigger] self.urls_to_keys@.contains_key(u) ==> exists|i: int|
                0 <= i < self.entries@.len() && (#[trigger] self.entries@[i]).1@ == u
    }

    /// The forward and reverse maps are mutual inverses.
    pub proof fn lemma_inverse(&self)
        requires
            self.wf(),
        ensures
            forall|k: Seq<char>| #[trigger]
                self.forward().contains_key(k) ==> self.reverse().contains_key(self.forward()[k])
                    && self.reverse()[self.forward()[k]] == k,
            forall|u: Seq<char>| #[trigger]
                self.reverse().contains_key(u) ==> self.forward().contains_key(self.reverse()[u])
                    && self.forward()[self.reverse()[u]] == u,
    {
    }

    /// An empty store.
    pub fn new() -> (r: InMemoryUrlShortener)
        ensures
            r.wf(),
            r.forward() == Map::<Seq<char>, Seq<char>>::empty(),
            r.reverse() == Map::<Seq<char>, Seq<char>>::empty(),
    {
        InMemoryUrlShortener {
            entries: Vec::new(),
            keys_to_urls: Ghost(Map::empty()),
            urls_to_keys: Ghost(Map::empty()),
        }
    }

    fn find_url(&self, url: &String) -> (r: Option<usize>)
        requires
            self.wf(),
        ensures
            r is None <==> !self.reverse().contains_key(url@),
            r matches Some(i) ==> i < self.entries@.len() && self.entries@[i as int].1@ == url@,
    {
        let mut i: usize = 0;
        while i < self.entries.len()
            invariant
                self.wf(),
                i <= self.entries@.len(),
                forall|j: int| 0 <= j < i ==> (#[trigger] self.entries@[j]).1@ != url@,
            decreases self.entries@.len() - i,
        {
            if self.entries[i].1 == *url {
                return Some(i);
            }
            i = i + 1;
        }
        None
    }

    fn find_key(&self, key: &InMemoryUrlKey) -> (r: Option<usize>)
        requires
            self.wf(),
        ensures
            r is None <==> !self.forward().contains_key(key@),
            r matches Some(i) ==> i < self.entries@.len() && self.entries@[i as int].0@ == key@,
    {
        let mut i: usize = 0;
        while i < self.entries.len()
            invariant
                self.wf(),
                i <= self.entries@.len(),
                forall|j: int| 0 <= j < i ==> (#[trigger] self.entries@[j]).0@ != key@,
            decreases self.entries@.len() - i,
        {
            if self.entries[i].0.key == key.key {
                return Some(i);
            }
            i = i + 1;
        }
        None
    }

    /// The length of the longest key in the store.
    fn longest_key(&self) -> (r: usize)
        requires
            self.wf(),
        ensures
            forall|k: Seq<char>| #[trigger] self.forward().contains_key(k) ==> k.len() <= r,
    {
        let mut m: usize = 0;
        let mut i: usize = 0;
        while i < self.entries.len()
            invariant
                self.wf(),
                i <= self.entries@.len(),
                forall|j: int| 0 <= j < i ==> (#[trigger] self.entries@[j]).0@.len() <= m,
            decreases self.entries@.len() - i,
        {
            let n = self.entries[i].0.key.as_str().unicode_len();
            if n > m {
                m = n;
            }
            i = i + 1;
        }
        m
    }
    /// The first of `candidate`, `candidate_`, `candidate__`, ... that is not
    /// yet a key: a random key that collides is lengthened until it is free.
    pub fn fresh_key(&self, candidate: InMemoryUrlKey) -> (r: InMemoryUrlKey)
        requires
            self.wf(),
        ensures
            first_free(self.forward(), candidate@, r@),
    {
        let longest = self.longest_key();
        let mut k = candidate;
        let ghost c = k@;
        proof {
            assert(padded(c, 0) =~= c);
        }
        while self.find_key(&k).is_some()
            invariant
                self.wf(),
                k@.len() >= c.len(),
                k@ == padded(c, (k@.len() - c.len()) as nat),
                forall|k2: Seq<char>| #[trigger] self.forward().contains_key(k2) ==> k2.len() <= longest,
                forall|m: nat|
                    m < k@.len() - c.len() ==> self.forward().contains_key(#[trigger] padded(c, m)),
            decreases longest + 1 - k@.len(),
        {
            let ghost n = (k@.len() - c.len()) as nat;
            proof {
                reveal_strlit("_");
            }
            push_str(&mut k.key, "_");
            proof {
                assert("_"@ =~= seq!['_']);
                assert(k@ =~= padded(c, n + 1));
            }
        }
        k
    }

    /// Records `key` for `url`, both new to the store.
    fn insert_new(&mut self, url: &str, key: &InMemoryUrlKey)
        requires
            old(self).wf(),
            !old(self).reverse().contains_key(url@),
            !old(self).forward().contains_key(key@),
        ensures
            final(self).wf(),
            final(self).forward() == old(self).forward().insert(key@, url@),
            final(self).reverse() == old(self).reverse().insert(url@, key@),
    {
        let ghost pre = *self;
        self.entries.push((key.duplicate(), url.to_owned()));
        self.keys_to_urls = Ghost(self.keys_to_urls@.insert(key@, url@));
        self.urls_to_keys = Ghost(self.urls_to_keys@.insert(url@, key@));
        proof {
            let n = pre.entries@.len() as int;
            assert(self.entries@[n].0@ == key@);
            assert forall|i: int| 0 <= i < n implies #[trigger] self.entries@[i] == pre.entries@[i] by {}
            assert forall|k: Seq<char>| #[trigger] self.keys_to_urls@.contains_key(k) implies exists|i: int|
                0 <= i < self.entries@.len() && (#[trigger] self.entries@[i]).0@ == k by {
                if k != key@ {
                    let i = choose|i: int| 0 <= i < n && (#[trigger] pre.entries@[i]).0@ == k;
                    assert(self.entries@[i] == pre.entries@[i]);
                }
            }
            assert forall|u: Seq<char>| #[trigger] self.urls_to_keys@.contains_key(u) implies exists|i: int|
                0 <= i < self.entries@.len() && (#[trigger] self.entries@[i]).1@ == u by {
                if u != url@ {
                    let i = choose|i: int| 0 <= i < n && (#[trigger] pre.entries@[i]).1@ == u;
                    assert(self.entries@[i] == pre.entries@[i]);
                }
            }
        }
    }

    /// Shortening with `candidate` as the random draw: a registered URL keeps
    /// its key; a new one gets the first free padding of `candidate`.
    pub fn shorten_url_with_key(&mut self, url: &str, candidate: InMemoryUrlKey) -> (key: InMemoryUrlKey)
        requires
            old(self).wf(),
        ensures
            shorten_post(*old(self), url@, *final(self), key@),
            !old(self).reverse().contains_key(url@) ==> first_free(old(self).forward(), candidate@, key@),
    {
        let u = url.to_owned();
        match self.find_url(&u) {
            Some(i) => {
                let key = self.entries[i].0.duplicate();
                key
            },
            None => {
                let key = self.fresh_key(candidate);
                self.insert_new(url, &key);
                key
            },
        }
    }

    /// Returns the key of `url`, registering `url` under a new random key
    /// first when it has none.
    pub fn shorten_url(&mut self, url: &str) -> (key: InMemoryUrlKey)
        requires
            old(self).wf(),
        ensures
            shorten_post(*old(self), url@, *final(self), key@),
            !old(self).reverse().contains_key(url@) ==> key@.len() >= KEY_LEN,
    {
        let u = url.to_owned();
        match self.find_url(&u) {
            Some(i) => self.entries[i].0.duplicate(),
            None => {
                let candidate = InMemoryUrlKey::generate_random();
                self.shorten_url_with_key(url, candidate)
            },
        }
    }

    /// The URL registered under `key`, or `NotFound`.
    pub fn get_url(&self, key: &InMemoryUrlKey) -> (r: Result<&str, UrlError>)
        requires
            self.wf(),
        ensures
            r is Ok <==> self.forward().contains_key(key@),
            r matches Ok(u) ==> u@ == self.forward()[key@],
            r is Err ==> r == Err::<&str, UrlError>(UrlError::NotFound),
    {
        match self.find_key(key) {
            Some(i) => Ok(self.entries[i].1.as_str()),
            None => Err(UrlError::NotFound),
        }
    }
}

impl UrlShortener for InMemoryUrlShortener {
    type Key = InMemoryUrlKey;

    open spec fn keys_to_urls(&self) -> Map<Seq<char>, Seq<char>> {
        self.forward()
    }

    open spec fn urls_to_keys(&self) -> Map<Seq<char>, Seq<char>> {
        self.reverse()
    }

    open spec fn inv(&self) -> bool {
        self.wf()
    }

    fn shorten_url(&mut self, url: &str) -> (key: InMemoryUrlKey) {
        InMemoryUrlShortener::shorten_url(self, url)
    }

    fn get_url(&self, key: &InMemoryUrlKey) -> (r: Result<&str, UrlError>) {
        InMemoryUrlShortener::get_url(self, key)
    }
}

} // verus!
