use vstd::prelude::*;

verus! {

/// A character of the URL-safe base64 alphabet.
pub open spec fn is_base64url_char(c: char) -> bool {
    ('A' <= c && c <= 'Z') || ('a' <= c && c <= 'z') || ('0' <= c && c <= '9') || c == '-' || c
        == '_'
}

/// Text made of URL-safe base64 characters alone.
pub open spec fn is_base64url(s: Seq<char>) -> bool {
    forall|i: int| 0 <= i < s.len() ==> is_base64url_char(#[trigger] s[i])
}

/// A PKCE verifier of acceptable form: 43 to 128 URL-safe characters.
pub open spec fn is_valid_verifier(s: Seq<char>) -> bool {
    43 <= s.len() <= 128 && is_base64url(s)
}

/// The S256 challenge of a PKCE verifier: the URL-safe base64 encoding,
/// without padding, of the SHA-256 digest of the verifier.
pub uninterp spec fn s256_challenge(verifier: Seq<char>) -> Seq<char>;

/// Relies on `oauth2::PkceCodeChallenge::new_random_sha256`, of which only the
/// verifier is kept: 32 random bytes in URL-safe base64 without padding,
/// hence 43 characters.
#[verifier::external_body]
fn random_verifier() -> (r: String)
    ensures
        r@.len() == 43,
        is_base64url(r@),
{
    let (_, verifier) = oauth2::PkceCodeChallenge::new_random_sha256();
    verifier.secret().to_string()
}

/// Relies on `oauth2::PkceCodeChallenge::from_code_verifier_sha256`, which
/// panics on a verifier outside 43 to 128 bytes.
#[verifier::external_body]
fn challenge_of(verifier: &str) -> (r: String)
    requires
        is_valid_verifier(verifier@),
    ensures
        r@ == s256_challenge(verifier@),
{
    let verifier = oauth2::PkceCodeVerifier::new(verifier.to_string());
    oauth2::PkceCodeChallenge::from_code_verifier_sha256(&verifier).as_str().to_string()
}

/// Relies on `oauth2::CsrfToken::new_random`: 16 random bytes in URL-safe
/// base64 without padding, hence 22 characters.
#[verifier::external_body]
fn random_csrf_token() -> (r: String)
    ensures
        r@.len() == 22,
        is_base64url(r@),
{
    oauth2::CsrfToken::new_random().secret().to_string()
}

/// Whether `s` is a PKCE verifier of acceptable form.
pub fn valid_verifier(s: &str) -> (r: bool)
    ensures
        r == is_valid_verifier(s@),
{
    let n = s.unicode_len();
    if n < 43 || n > 128 {
        return false;
    }
    let mut i: usize = 0;
    while i < n
        invariant
            n == s@.len(),
            i <= n,
            forall|j: int| 0 <= j < i ==> is_base64url_char(#[trigger] s@[j]),
        decreases n - i,
    {
        let c = s.get_char(i);
        if !(('A' <= c && c <= 'Z') || ('a' <= c && c <= 'z') || ('0' <= c && c <= '9') || c == '-'
            || c == '_') {
            return false;
        }
        i = i + 1;
    }
    true
}

/// The secrets of one authorization attempt: a PKCE verifier with its
/// challenge, and the CSRF token sent as `state`.
#[derive(Debug)]
pub struct PkceChallenge {
    pub verifier: String,
    pub challenge: String,
    pub csrf_token: String,
}

impl PkceChallenge {
    /// Whether the challenge is the S256 challenge of an acceptable verifier.
    pub open spec fn valid(&self) -> bool {
        is_valid_verifier(self.verifier@) && self.challenge@ == s256_challenge(self.verifier@)
    }

    /// A fresh verifier, its challenge, and an independent CSRF token.
    pub fn generate() -> (r: PkceChallenge)
        ensures
            r.valid(),
            r.verifier@.len() == 43,
            r.csrf_token@.len() == 22,
            is_base64url(r.csrf_token@),
    {
        let verifier = random_verifier();
        let challenge = challenge_of(verifier.as_str());
        let csrf_token = random_csrf_token();
        PkceChallenge { verifier, challenge, csrf_token }
    }

    /// The pair for a given verifier, or `None` if it is not acceptable.
    pub fn from_verifier(verifier: String, csrf_token: String) -> (r: Option<PkceChallenge>)
        ensures
            r is Some <==> is_valid_verifier(verifier@),
            r matches Some(p) ==> p.valid() && p.verifier@ == verifier@ && p.csrf_token@
                == csrf_token@,
    {
        if !valid_verifier(verifier.as_str()) {
            return None;
        }
        let challenge = challenge_of(verifier.as_str());
        Some(PkceChallenge { verifier, challenge, csrf_token })
    }
}

/// The challenge is a function of the verifier: two valid pairs with the
/// same verifier have the same challenge.
pub proof fn lemma_challenge_determined_by_verifier(a: PkceChallenge, b: PkceChallenge)
    requires
        a.valid(),
        b.valid(),
        a.verifier@ == b.verifier@,
    ensures
        a.challenge@ == b.challenge@,
{
}

} // verus!
