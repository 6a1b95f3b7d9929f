use url_shortener::interface::{UrlKey, UrlShortener};
use url_shortener::key::{InMemoryUrlKey, UrlError, KEY_LEN};
use url_shortener::service::UrlService;
use url_shortener::shortener::InMemoryUrlShortener;

fn is_safe(c: char) -> bool {
    c == '_' || c == '-' || c.is_ascii_digit() || c.is_ascii_lowercase() || c.is_ascii_uppercase()
}

#[test]
fn test_url_key_from_url() {
    let url = "https://example.com/abc".to_string();
    let key = InMemoryUrlKey::from_url(&url).unwrap();
    assert_eq!(key.key.as_str(), "abc");
}

#[test]
fn test_in_memory_url_service() {
    let mut service = InMemoryUrlShortener::new();
    let url = "https://example.com/abc";
    let key = service.shorten_url(url);
    assert_eq!(service.get_url(&key).unwrap(), url);
}

#[test]
fn test_in_memory_url_service_same_key() {
    let mut service = InMemoryUrlShortener::new();
    let url = "https://example.com/abc";
    let key = service.shorten_url(url);
    let key2 = service.shorten_url(url);
    assert_eq!(key, key2);
}

#[test]
fn test_in_memory_url_service_url_not_present() {
    let service = InMemoryUrlShortener::new();
    let key = InMemoryUrlKey::generate_random();
    assert!(service.get_url(&key).is_err());
}

#[test]
fn from_url_without_slash_is_invalid_input() {
    assert_eq!(InMemoryUrlKey::from_url("no-slash-here"), Err(UrlError::InvalidInput));
}

#[test]
fn from_url_takes_segment_after_last_slash() {
    let key = InMemoryUrlKey::from_url("https://example.com/a/b/xyz12").unwrap();
    assert_eq!(key.key, "xyz12");
    let empty = InMemoryUrlKey::from_url("https://example.com/").unwrap();
    assert_eq!(empty.key, "");
    let only = InMemoryUrlKey::from_url("/").unwrap();
    assert_eq!(only.key, "");
}

#[test]
fn from_id_keeps_the_segment() {
    assert_eq!(InMemoryUrlKey::from_id("Ab_-9").key, "Ab_-9");
    assert_eq!(InMemoryUrlKey::from_id("").key, "");
}

#[test]
fn build_url_joins_host_and_token() {
    let key = InMemoryUrlKey::from_id("abcde");
    assert_eq!(key.build_url("short.ly"), "short.ly/abcde");
    assert_eq!(key.build_url("localhost:8080"), "localhost:8080/abcde");
}

#[test]
fn generate_random_gives_five_safe_chars() {
    for _ in 0..50 {
        let key = InMemoryUrlKey::generate_random();
        assert_eq!(KEY_LEN, 5);
        assert_eq!(key.key.chars().count(), 5);
        assert!(key.key.chars().all(is_safe));
        assert!(!key.key.contains('/'));
    }
}

#[test]
fn shorten_with_key_uses_candidate_when_free() {
    let mut s = InMemoryUrlShortener::new();
    let k = s.shorten_url_with_key("https://a.example/x", InMemoryUrlKey::from_id("aaaaa"));
    assert_eq!(k.key, "aaaaa");
    assert_eq!(s.get_url(&k), Ok("https://a.example/x"));
}

#[test]
fn shorten_with_key_pads_colliding_candidate() {
    let mut s = InMemoryUrlShortener::new();
    let k1 = s.shorten_url_with_key("https://a.example/1", InMemoryUrlKey::from_id("aaaaa"));
    let k2 = s.shorten_url_with_key("https://a.example/2", InMemoryUrlKey::from_id("aaaaa"));
    let k3 = s.shorten_url_with_key("https://a.example/3", InMemoryUrlKey::from_id("aaaaa"));
    assert_eq!(k1.key, "aaaaa");
    assert_eq!(k2.key, "aaaaa_");
    assert_eq!(k3.key, "aaaaa__");
    assert_eq!(s.get_url(&k1), Ok("https://a.example/1"));
    assert_eq!(s.get_url(&k2), Ok("https://a.example/2"));
    assert_eq!(s.get_url(&k3), Ok("https://a.example/3"));
}

#[test]
fn shorten_with_key_keeps_existing_key() {
    let mut s = InMemoryUrlShortener::new();
    let k1 = s.shorten_url_with_key("https://a.example/1", InMemoryUrlKey::from_id("aaaaa"));
    let k2 = s.shorten_url_with_key("https://a.example/1", InMemoryUrlKey::from_id("bbbbb"));
    assert_eq!(k1, k2);
    assert_eq!(s.get_url(&InMemoryUrlKey::from_id("bbbbb")), Err(UrlError::NotFound));
}

#[test]
fn fresh_key_skips_taken_keys() {
    let mut s = InMemoryUrlShortener::new();
    s.shorten_url_with_key("https://a.example/1", InMemoryUrlKey::from_id("k"));
    s.shorten_url_with_key("https://a.example/2", InMemoryUrlKey::from_id("k_"));
    assert_eq!(s.fresh_key(InMemoryUrlKey::from_id("k")).key, "k__");
    assert_eq!(s.fresh_key(InMemoryUrlKey::from_id("z")).key, "z");
}

#[test]
fn same_url_twice_same_key() {
    let mut s = UrlService::new();
    let a = s.shorten_url("https://example.com/p");
    let b = s.shorten_url("https://example.com/p");
    assert_eq!(a, b);
}

#[test]
fn round_trip_through_service() {
    let mut s = UrlService::new();
    for u in ["https://example.com/1", "https://example.com/2", ""] {
        let k = s.shorten_url(u);
        assert_eq!(s.get_url(&k), Ok(u));
    }
}

#[test]
fn unknown_key_is_not_found() {
    let mut s = UrlService::new();
    s.shorten_url("https://example.com/1");
    assert_eq!(s.get_url(&InMemoryUrlKey::from_id("nope!")), Err(UrlError::NotFound));
}

#[test]
fn distinct_urls_get_distinct_keys() {
    let mut s = InMemoryUrlShortener::new();
    let mut keys: Vec<InMemoryUrlKey> = Vec::new();
    for i in 0..300 {
        let k = s.shorten_url(&format!("https://example.com/{}", i));
        assert!(!keys.contains(&k));
        keys.push(k);
    }
    for (i, k) in keys.iter().enumerate() {
        assert_eq!(s.get_url(k), Ok(format!("https://example.com/{}", i).as_str()));
    }
}

#[test]
fn shorten_then_resolve_long_path() {
    let mut s = UrlService::new();
    let short = s.shorten("https://example.com/very/long/path", "short.ly");
    assert!(short.starts_with("short.ly/"));
    let token = &short["short.ly/".len()..];
    assert_eq!(token.chars().count(), 5);
    assert_eq!(s.resolve(token), Ok("https://example.com/very/long/path"));
}

#[test]
fn resolve_unregistered_token_is_not_found() {
    let s = UrlService::new();
    assert_eq!(s.resolve("zzzzz"), Err(UrlError::NotFound));
}

#[test]
fn trait_methods_match_inherent_ones() {
    let key = <InMemoryUrlKey as UrlKey>::from_url("https://example.com/abc").unwrap();
    assert_eq!(key.key, "abc");
    assert_eq!(<InMemoryUrlKey as UrlKey>::from_url("abc"), Err(UrlError::InvalidInput));
    assert_eq!(<InMemoryUrlKey as UrlKey>::from_id("q1").key, "q1");
    assert_eq!(UrlKey::build_url(&key, "h"), "h/abc");
    assert_eq!(<InMemoryUrlKey as UrlKey>::generate_random().key.chars().count(), 5);
    let mut s = InMemoryUrlShortener::new();
    let k = UrlShortener::shorten_url(&mut s, "https://x.example/");
    assert_eq!(UrlShortener::get_url(&s, &k), Ok("https://x.example/"));
}
