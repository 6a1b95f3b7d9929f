use vstd::prelude::*;

use crate::interface::UrlKey;

verus! {

/// Number of characters in a randomly generated key.
pub const KEY_LEN: usize = 5;

/// Errors reported by the shortener core.
#[derive(Debug, Clone, Copy, PartialEq, Eq, Structural)]
pub enum UrlError {
    /// A URL given for registration has no `/` to take a key segment from.
    InvalidInput,
    /// No URL is registered under the requested key.
    NotFound,
}

/// The characters of the URL-safe alphabet that random keys are drawn from.
pub open spec fn is_safe_char(c: char) -> bool {
    c == '_' || c == '-' || ('0' <= c && c <= '9') || ('a' <= c && c <= 'z') || ('A' <= c
        && c <= 'Z')
}

/// `s` holds a `/` somewhere.
pub open spec fn has_slash(s: Seq<char>) -> bool {
    exists|i: int| 0 <= i < s.len() && s[i] == '/'
}

/// `i` is the position of the last `/` in `s`.
pub open spec fn is_last_slash(s: Seq<char>, i: int) -> bool {
    &&& 0 <= i < s.len()
    &&& s[i] == '/'
    &&& forall|j: int| i < j < s.len() ==> s[j] != '/'
}

/// A short key: the token that follows the host in a short link.
#[derive(Debug, Clone, Eq, Hash)]
pub struct InMemoryUrlKey {
    pub key: String,
}

impl View for InMemoryUrlKey {
    type V = Seq<char>;

    open spec fn view(&self) -> Seq<char> {
        self.key@
    }
}

impl PartialEq for InMemoryUrlKey {
    fn eq(&self, other: &InMemoryUrlKey) -> (r: bool) {
        self.key == other.key
    }
}

impl vstd::std_specs::cmp::PartialEqSpecImpl for InMemoryUrlKey {
    open spec fn obeys_eq_spec() -> bool {
        true
    }

    open spec fn eq_spec(&self, other: &InMemoryUrlKey) -> bool {
        self.key@ == other.key@
    }
}

/// Relies on `nanoid::format` with `nanoid::rngs::default` and
/// `nanoid::alphabet::SAFE`: it pushes characters of that 64-character ASCII
/// alphabet until the string is `KEY_LEN` bytes long, so `KEY_LEN` characters.
#[verifier::external_body]
fn random_token() -> (r: String)
    ensures
        r@.len() == KEY_LEN,
        forall|i: int| 0 <= i < r@.len() ==> is_safe_char(#[trigger] r@[i]),
{
    nanoid::format(nanoid::rngs::default, &nanoid::alphabet::SAFE, KEY_LEN)
}

/// Relies on `String::push_str`: appends the characters of `t` to `s`.
#[verifier::external_body]
pub(crate) fn push_str(s: &mut String, t: &str)
    ensures
        final(s)@ == old(s)@ + t@,
{
    s.push_str(t);
}

impl InMemoryUrlKey {
    /// A copy of this key, with the same token.
    pub fn duplicate(&self) -> (r: InMemoryUrlKey)
        ensures
            r@ == self@,
    {
        InMemoryUrlKey { key: self.key.clone() }
    }

    /// Takes the key from the segment after the last `/` of `url`;
    /// fails with `InvalidInput` when `url` has no `/`.
    pub fn from_url(url: &str) -> (r: Result<InMemoryUrlKey, UrlError>)
        ensures
            r is Err <==> !has_slash(url@),
            r is Err ==> r == Err::<InMemoryUrlKey, UrlError>(UrlError::InvalidInput),
            r matches Ok(k) ==> exists|i: int|
                is_last_slash(url@, i) && k@ == url@.subrange(i + 1, url@.len() as int),
    {
        let n = url.unicode_len();
        let mut i: usize = n;
        while i > 0
            invariant
                i <= n,
                n == url@.len(),
                forall|j: int| i <= j < n ==> url@[j] != '/',
            decreases i,
        {
            if url.get_char(i - 1) == '/' {
                let segment = url.substring_char(i, n);
                let k = InMemoryUrlKey { key: segment.to_owned() };
                assert(is_last_slash(url@, i - 1));
                return Ok(k);
            }
            i = i - 1;
        }
        Err(UrlError::InvalidInput)
    }

    /// A key whose token is exactly `key_id`; any string is accepted.
    pub fn from_id(key_id: &str) -> (r: InMemoryUrlKey)
        ensures
            r@ == key_id@,
    {
        InMemoryUrlKey { key: key_id.to_owned() }
    }

    /// A fresh random key of `KEY_LEN` characters from the URL-safe alphabet.
    pub fn generate_random() -> (r: InMemoryUrlKey)
        ensures
            r@.len() == KEY_LEN,
            forall|i: int| 0 <= i < r@.len() ==> is_safe_char(#[trigger] r@[i]),
    {
        InMemoryUrlKey { key: random_token() }
    }

    /// The short link `"{host}/{token}"`.
    pub fn build_url(&self, host: &str) -> (r: String)
        ensures
            r@ == host@ + seq!['/'] + self@,
    {
        let mut s = host.to_owned();
        proof {
            reveal_strlit("/");
        }
        push_str(&mut s, "/");
        push_str(&mut s, self.key.as_str());
        s
    }
}

impl UrlKey for InMemoryUrlKey {
    open spec fn token(&self) -> Seq<char> {
        self@
    }

    fn from_url(url: &str) -> (r: Result<InMemoryUrlKey, UrlError>) {
        InMemoryUrlKey::from_url(url)
    }

    fn from_id(key_id: &str) -> (r: InMemoryUrlKey) {
        InMemoryUrlKey::from_id(key_id)
    }

    fn build_url(&self, host: &str) -> (r: String) {
        InMemoryUrlKey::build_url(self, host)
    }

    fn generate_random() -> (r: InMemoryUrlKey) {
        InMemoryUrlKey::generate_random()
    }
}

} // verus!
