//! Account keys and scoped tokens, and the signatures they make.
use vstd::prelude::*;
use vstd::string::*;
use crate::error::Error;
use crate::primitives::{
    base64_decode, base64_decode_of, base64_encode, base64_encode_of, hmac_sha256, hmac_sha256_of,
};
use crate::request::Method;

verus! {

/// The secret that authorizes requests.
///
/// Neither variant shows its secret through `debug_string`.
#[derive(PartialEq, Clone, Eq)]
pub enum AuthorizationToken {
    /// An account-wide key, used for administrative resources.
    Primary(Vec<u8>),
    /// A token scoped to one resource, used as it stands.
    Resource(String),
}

/// `a`, a line feed, then `rest`.
pub open spec fn newline_joined(a: Seq<char>, rest: Seq<char>) -> Seq<char> {
    a + seq!['\n'] + rest
}

/// The text that an account key signs: method, resource path and timestamp,
/// each followed by a line feed.
pub open spec fn canonical_string(method: Method, path: Seq<char>, timestamp: Seq<char>) -> Seq<
    char,
> {
    newline_joined(method.name(), newline_joined(path, newline_joined(timestamp, Seq::empty())))
}

/// `s` holds no line feed.
pub open spec fn no_newline(s: Seq<char>) -> bool {
    forall|i: int| 0 <= i < s.len() ==> s[i] != '\n'
}

/// The message of the error that a malformed account key gives, ending with
/// the text of the decode error `detail`.
pub open spec fn malformed_key_message(detail: Seq<char>) -> Seq<char> {
    "failed to base64 decode the primary credential - ensure that the credential is properly base64 encoded: "@
        + detail
}

impl AuthorizationToken {
    /// The signature of a request: for an account key, the base64 text of the
    /// HMAC-SHA256 tag of the canonical string; for a scoped token, the token.
    pub open spec fn signature_of(&self, method: Method, path: Seq<char>, timestamp: Seq<char>) -> Seq<
        char,
    > {
        match self {
            AuthorizationToken::Primary(key) => base64_encode_of(
                hmac_sha256_of(key@, canonical_string(method, path, timestamp)),
            ),
            AuthorizationToken::Resource(token) => token@,
        }
    }

    /// What diagnostics show of a token: its kind, never its secret.
    pub open spec fn redacted(&self) -> Seq<char> {
        match self {
            AuthorizationToken::Primary(_) => "AuthorizationToken::Master(***hidden***)"@,
            AuthorizationToken::Resource(_) => "AuthorizationToken::Resource(***hidden***)"@,
        }
    }

    /// Makes an account key from its base64 text. The key is not checked
    /// against the service.
    pub fn primary_from_base64(base64_encoded: &str) -> (r: Result<AuthorizationToken, Error>)
        ensures
            match base64_decode_of(base64_encoded@) {
                Ok(key) => r matches Ok(AuthorizationToken::Primary(k)) && k@ == key,
                Err(detail) => r matches Err(Error::CredentialMalformed(m)) && m@
                    == malformed_key_message(detail),
            },
    {
        match base64_decode(base64_encoded) {
            Ok(key) => Ok(AuthorizationToken::Primary(key)),
            Err(detail) => {
                let message = String::from_str(
                    "failed to base64 decode the primary credential - ensure that the credential is properly base64 encoded: ",
                );
                Err(Error::CredentialMalformed(message.concat(detail.as_str())))
            },
        }
    }

    /// Makes a token scoped to one resource.
    pub fn new_resource(resource: String) -> (r: AuthorizationToken)
        ensures
            r == AuthorizationToken::Resource(resource),
    {
        AuthorizationToken::Resource(resource)
    }

    /// The authorization value of a request with this method, resource path
    /// and timestamp.
    pub fn sign(&self, method: Method, path: &str, timestamp: &str) -> (r: Result<String, Error>)
        ensures
            r matches Ok(s) && s@ == self.signature_of(method, path@, timestamp@),
    {
        match self {
            AuthorizationToken::Primary(key) => {
                let text = canonical(method, path, timestamp);
                match hmac_sha256(key.as_slice(), text.as_str()) {
                    Ok(tag) => Ok(base64_encode(tag.as_slice())),
                    Err(_) => Err(Error::Signing(String::from_str("invalid key length"))),
                }
            },
            AuthorizationToken::Resource(token) => Ok(token.clone()),
        }
    }

    /// The token as diagnostics show it, with its secret hidden.
    pub fn debug_string(&self) -> (r: String)
        ensures
            r@ == self.redacted(),
    {
        match self {
            AuthorizationToken::Primary(_) => String::from_str(
                "AuthorizationToken::Master(***hidden***)",
            ),
            AuthorizationToken::Resource(_) => String::from_str(
                "AuthorizationToken::Resource(***hidden***)",
            ),
        }
    }
}

/// Builds the canonical string that an account key signs.
fn canonical(method: Method, path: &str, timestamp: &str) -> (r: String)
    ensures
        r@ == canonical_string(method, path@, timestamp@),
{
    let mut text = String::from_str(method.as_str());
    text.append("\n");
    text.append(path);
    text.append("\n");
    text.append(timestamp);
    text.append("\n");
    proof {
        reveal_strlit("\n");
        assert(text@ =~= canonical_string(method, path@, timestamp@));
    }
    text
}

/// Where `a1` and `a2` hold no line feed, `a1` + LF + `r1` equals `a2` + LF +
/// `r2` only when `a1 == a2` and `r1 == r2`.
proof fn lemma_newline_joined_injective(a1: Seq<char>, r1: Seq<char>, a2: Seq<char>, r2: Seq<char>)
    requires
        no_newline(a1),
        no_newline(a2),
        newline_joined(a1, r1) == newline_joined(a2, r2),
    ensures
        a1 == a2,
        r1 == r2,
{
    let s = newline_joined(a1, r1);
    if a1.len() < a2.len() {
        assert(s[a1.len() as int] == '\n');
        assert(s[a1.len() as int] == a2[a1.len() as int]);
    } else if a2.len() < a1.len() {
        assert(s[a2.len() as int] == '\n');
        assert(s[a2.len() as int] == a1[a2.len() as int]);
    }
    assert(a1 =~= s.subrange(0, a1.len() as int));
    assert(a2 =~= s.subrange(0, a2.len() as int));
    assert(r1 =~= s.subrange(a1.len() as int + 1, s.len() as int));
    assert(r2 =~= s.subrange(a2.len() as int + 1, s.len() as int));
}

/// Distinct requests give distinct canonical strings: where the resource
/// paths and timestamps hold no line feed, equal canonical strings come only
/// from equal methods, paths and timestamps.
pub proof fn lemma_canonical_string_injective(
    m1: Method,
    path1: Seq<char>,
    ts1: Seq<char>,
    m2: Method,
    path2: Seq<char>,
    ts2: Seq<char>,
)
    requires
        no_newline(path1),
        no_newline(ts1),
        no_newline(path2),
        no_newline(ts2),
        canonical_string(m1, path1, ts1) == canonical_string(m2, path2, ts2),
    ensures
        m1 == m2,
        path1 == path2,
        ts1 == ts2,
{
    lemma_method_name_no_newline(m1);
    lemma_method_name_no_newline(m2);
    lemma_newline_joined_injective(
        m1.name(),
        newline_joined(path1, newline_joined(ts1, Seq::empty())),
        m2.name(),
        newline_joined(path2, newline_joined(ts2, Seq::empty())),
    );
    lemma_newline_joined_injective(
        path1,
        newline_joined(ts1, Seq::empty()),
        path2,
        newline_joined(ts2, Seq::empty()),
    );
    lemma_newline_joined_injective(ts1, Seq::empty(), ts2, Seq::empty());
    lemma_method_name_injective(m1, m2);
}

proof fn lemma_method_name_no_newline(m: Method)
    ensures
        no_newline(m.name()),
{
}

proof fn lemma_method_name_injective(m1: Method, m2: Method)
    requires
        m1.name() == m2.name(),
    ensures
        m1 == m2,
{
    assert(m1.name()[0] == m2.name()[0]);
    assert(m1.name().len() == m2.name().len());
    if m1.name().len() == 4 {
        assert(m1.name()[1] == m2.name()[1]);
    }
}

/// Signing is a function of its inputs: two signatures that one token makes
/// over the same method, resource path and timestamp are the same text.
pub proof fn lemma_sign_deterministic(
    token: AuthorizationToken,
    method: Method,
    path: Seq<char>,
    timestamp: Seq<char>,
    first: Seq<char>,
    second: Seq<char>,
)
    requires
        first == token.signature_of(method, path, timestamp),
        second == token.signature_of(method, path, timestamp),
    ensures
        first == second,
{
}

/// Scoped tokens with different text sign every request differently.
pub proof fn lemma_resource_signatures_distinct(
    t1: String,
    t2: String,
    method: Method,
    path: Seq<char>,
    timestamp: Seq<char>,
)
    requires
        t1@ != t2@,
    ensures
        AuthorizationToken::Resource(t1).signature_of(method, path, timestamp)
            != AuthorizationToken::Resource(t2).signature_of(method, path, timestamp),
{
}

/// Diagnostics never depend on the secret: two tokens of the same kind show
/// the same text, whatever key or token they hold.
pub proof fn lemma_redacted_hides_secret(a: AuthorizationToken, b: AuthorizationToken)
    requires
        a is Primary <==> b is Primary,
    ensures
        a.redacted() == b.redacted(),
{
}

} // verus!
