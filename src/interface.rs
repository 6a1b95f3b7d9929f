use vstd::prelude::*;

use crate::key::UrlError;

verus! {

/// What a registration that returned `key` for `url` did to a forward map
/// (`f0` to `f1`) and a reverse map (`r0` to `r1`): a registered URL keeps its
/// key and both maps stay; a new URL gets a key that was free, and both maps
/// gain the pair.
pub open spec fn shorten_maps(
    f0: Map<Seq<char>, Seq<char>>,
    r0: Map<Seq<char>, Seq<char>>,
    url: Seq<char>,
    f1: Map<Seq<char>, Seq<char>>,
    r1: Map<Seq<char>, Seq<char>>,
    key: Seq<char>,
) -> bool {
    if r0.contains_key(url) {
        &&& key == r0[url]
        &&& f1 == f0
        &&& r1 == r0
    } else {
        &&& !f0.contains_key(key)
        &&& f1 == f0.insert(key, url)
        &&& r1 == r0.insert(url, key)
    }
}

/// A short key type.
pub trait UrlKey: Sized {
    /// The key's token.
    spec fn token(&self) -> Seq<char>;

    /// The key in the segment after the last `/` of `url`; `InvalidInput`
    /// when `url` has no `/`.
    fn from_url(url: &str) -> (r: Result<Self, UrlError>)
        ensures
            r is Err <==> !crate::key::has_slash(url@),
            r is Err ==> r == Err::<Self, UrlError>(UrlError::InvalidInput),
            r matches Ok(k) ==> exists|i: int|
                crate::key::is_last_slash(url@, i) && k.token() == url@.subrange(
                    i + 1,
                    url@.len() as int,
                ),
    ;

    /// The key whose token is `key_id`.
    fn from_id(key_id: &str) -> (r: Self)
        ensures
            r.token() == key_id@,
    ;

    /// The short link `"{host}/{token}"`.
    fn build_url(&self, host: &str) -> (r: String)
        ensures
            r@ == host@ + seq!['/'] + self.token(),
    ;

    /// A new random key.
    fn generate_random() -> (r: Self)
        ensures
            r.token().len() > 0,
    ;
}

/// A store of URLs under short keys.
pub trait UrlShortener: Sized {
    type Key: UrlKey;

    /// The forward map: key token to URL.
    spec fn keys_to_urls(&self) -> Map<Seq<char>, Seq<char>>;

    /// The reverse map: URL to key token.
    spec fn urls_to_keys(&self) -> Map<Seq<char>, Seq<char>>;

    /// The store's invariant.
    spec fn inv(&self) -> bool;

    /// Returns the key of `url`, registering `url` first when it has none.
    fn shorten_url(&mut self, url: &str) -> (key: Self::Key)
        requires
            old(self).inv(),
        ensures
            final(self).inv(),
            shorten_maps(
                old(self).keys_to_urls(),
                old(self).urls_to_keys(),
                url@,
                final(self).keys_to_urls(),
                final(self).urls_to_keys(),
                key.token(),
            ),
    ;

    /// The URL registered under `key`, or `NotFound`.
    fn get_url(&self, key: &Self::Key) -> (r: Result<&str, UrlError>)
        requires
            self.inv(),
        ensures
            r is Ok <==> self.keys_to_urls().contains_key(key.token()),
            r matches Ok(u) ==> u@ == self.keys_to_urls()[key.token()],
            r is Err ==> r == Err::<&str, UrlError>(UrlError::NotFound),
    ;
}

} // verus!
