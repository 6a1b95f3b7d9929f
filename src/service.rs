use vstd::prelude::*;

use crate::interface::{shorten_maps, UrlKey, UrlShortener};
use crate::key::UrlError;
use crate::shortener::InMemoryUrlShortener;

verus! {

/// The facade that callers hold: it owns one engine and forwards to it, so
/// that callers depend on the capability set and not on the engine type.
pub struct UrlService<T> {
    url_shortener: T,
}

impl<T> UrlService<T> {
    /// The engine this service forwards to.
    pub closed spec fn engine(&self) -> T {
        self.url_shortener
    }
}

impl UrlService<InMemoryUrlShortener> {
    /// A service over an empty in-memory engine.
    pub fn new() -> (r: UrlService<InMemoryUrlShortener>)
        ensures
            r.inv(),
            r.keys_to_urls() == Map::<Seq<char>, Seq<char>>::empty(),
            r.urls_to_keys() == Map::<Seq<char>, Seq<char>>::empty(),
    {
        UrlService { url_shortener: InMemoryUrlShortener::new() }
    }
}

impl<T: UrlShortener> UrlService<T> {
    /// Shortens `url` and renders its key as the short link `"{host}/{token}"`.
    pub fn shorten(&mut self, url: &str, host: &str) -> (r: String)
        requires
            old(self).inv(),
        ensures
            final(self).inv(),
            exists|key: Seq<char>|
                shorten_maps(
                    old(self).keys_to_urls(),
                    old(self).urls_to_keys(),
                    url@,
                    final(self).keys_to_urls(),
                    final(self).urls_to_keys(),
                    key,
                ) && r@ == host@ + seq!['/'] + key,
    {
        let key = self.url_shortener.shorten_url(url);
        key.build_url(host)
    }

    /// The URL registered under the path segment `segment`, or `NotFound`.
    pub fn resolve(&self, segment: &str) -> (r: Result<&str, UrlError>)
        requires
            self.inv(),
        ensures
            r is Ok <==> self.keys_to_urls().contains_key(segment@),
            r matches Ok(u) ==> u@ == self.keys_to_urls()[segment@],
            r is Err ==> r == Err::<&str, UrlError>(UrlError::NotFound),
    {
        let key = T::Key::from_id(segment);
        self.url_shortener.get_url(&key)
    }
}

impl<T: UrlShortener> UrlShortener for UrlService<T> {
    type Key = T::Key;

    open spec fn keys_to_urls(&self) -> Map<Seq<char>, Seq<char>> {
        self.engine().keys_to_urls()
    }

    open spec fn urls_to_keys(&self) -> Map<Seq<char>, Seq<char>> {
        self.engine().urls_to_keys()
    }

    open spec fn inv(&self) -> bool {
        self.engine().inv()
    }

    fn shorten_url(&mut self, url: &str) -> (key: T::Key) {
        self.url_shortener.shorten_url(url)
    }

    fn get_url(&self, key: &T::Key) -> (r: Result<&str, UrlError>) {
        self.url_shortener.get_url(key)
    }
}

} // verus!
