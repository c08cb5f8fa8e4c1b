//! The token codec: claims sealed into PASETO v4.local tokens and opened again.
use rusty_paseto::prelude::{
    CustomClaim, ExpirationClaim, Key, Local, PasetoBuilder, PasetoParser, PasetoSymmetricKey,
    SubjectClaim, V4,
};
use crate::text::starts_with_text;
use vstd::prelude::*;

verus! {

/// What a token asserts: its subject (a user identifier), an optional username,
/// its kind (`"access"` or `"refresh"`) and its expiry as RFC 3339 text.
#[derive(Clone, Debug)]
pub struct TokenClaims {
    pub sub: String,
    pub username: Option<String>,
    pub token_type: String,
    pub exp: String,
}

pub ghost struct ClaimsView {
    pub sub: Seq<char>,
    pub username: Option<Seq<char>>,
    pub token_type: Seq<char>,
    pub exp: Seq<char>,
}

pub open spec fn opt_text(s: Option<String>) -> Option<Seq<char>> {
    match s {
        Some(t) => Some(t@),
        None => None,
    }
}

impl View for TokenClaims {
    type V = ClaimsView;

    open spec fn view(&self) -> ClaimsView {
        ClaimsView {
            sub: self.sub@,
            username: opt_text(self.username),
            token_type: self.token_type@,
            exp: self.exp@,
        }
    }
}

/// Why the codec produced no result.
#[derive(Clone, Copy, Debug, PartialEq, Eq, Structural)]
pub enum CodecError {
    /// The claims could not be sealed (an expiry that is not RFC 3339, for one).
    Unsealable,
    /// The token is forged, tampered with, of another format or version, or
    /// carries a payload without the claims.
    Invalid,
}

/// The string members of the JSON payload that a v4.local token carries under
/// `key`, by member name; `None` where the token does not authenticate and decrypt
/// under the key or its payload is no JSON text. Members that are not strings are
/// left out.
pub uninterp spec fn paseto_v4_payload(token: Seq<char>, key: Seq<u8>) -> Option<
    Map<Seq<char>, Seq<char>>,
>;

pub open spec fn member(p: Map<Seq<char>, Seq<char>>, name: Seq<char>) -> Option<Seq<char>> {
    if p.contains_key(name) {
        Some(p[name])
    } else {
        None
    }
}

/// The payload `p` holds exactly the claims `c` under their member names.
pub open spec fn carries(p: Option<Map<Seq<char>, Seq<char>>>, c: ClaimsView) -> bool {
    &&& p is Some
    &&& member(p->0, "sub"@) == Some(c.sub)
    &&& member(p->0, "username"@) == c.username
    &&& member(p->0, "token_type"@) == Some(c.token_type)
    &&& member(p->0, "exp"@) == Some(c.exp)
}

/// The claims that a payload yields: subject, kind and expiry must be there,
/// the username may be missing.
pub open spec fn claims_in(p: Map<Seq<char>, Seq<char>>) -> Option<ClaimsView> {
    match (member(p, "sub"@), member(p, "token_type"@), member(p, "exp"@)) {
        (Some(sub), Some(token_type), Some(exp)) => Some(
            ClaimsView { sub, username: member(p, "username"@), token_type, exp },
        ),
        _ => None,
    }
}

/// A token that the parser can take without failing on its length: one that is
/// not of the `v4.local.` format at all, or whose body segment has at least 86
/// characters (the 64 bytes of nonce and tag that every sealed token carries).
pub open spec fn openable(t: Seq<char>) -> bool {
    t.len() >= 9 && t.subrange(0, 9) == "v4.local."@ ==> (t.len() >= 95 && forall|i: int|
        9 <= i < 95 ==> #[trigger] t[i] != '.')
}

/// A sealed token as text: the `v4.local.` header, then base64url and dots only,
/// all visible ASCII without spaces.
pub open spec fn token_text(t: Seq<char>) -> bool {
    &&& t.len() >= 9
    &&& t.subrange(0, 9) == "v4.local."@
    &&& forall|i: int| 0 <= i < t.len() ==> '!' <= #[trigger] t[i] && t[i] <= '~'
}

/// The claims that `token` yields under `key`, if it authenticates and has them.
pub open spec fn opened(token: Seq<char>, key: Seq<u8>) -> Option<ClaimsView> {
    if !openable(token) {
        None
    } else {
        match paseto_v4_payload(token, key) {
            Some(p) => claims_in(p),
            None => None,
        }
    }
}

fn is_openable(token: &str) -> (r: bool)
    ensures
        r == openable(token@),
{
    let header = "v4.local.";
    proof {
        reveal_strlit("v4.local.");
    }
    if !starts_with_text(token, header) {
        return true;
    }
    let n = token.unicode_len();
    if n < 95 {
        return false;
    }
    assert(token@.subrange(0, 9) == "v4.local."@);
    let mut i: usize = 9;
    while i < 95
        invariant
            token@.subrange(0, 9) == "v4.local."@,
            n == token@.len(),
            n >= 95,
            9 <= i <= 95,
            forall|j: int| 9 <= j < i ==> #[trigger] token@[j] != '.',
        decreases 95 - i,
    {
        if token.get_char(i) == '.' {
            assert(token@[i as int] == '.');
            return false;
        }
        i += 1;
    }
    true
}

/// The members of an opened payload that the claims are read from.
struct PayloadMembers {
    sub: Option<String>,
    username: Option<String>,
    token_type: Option<String>,
    exp: Option<String>,
}

/// Relies on rusty_paseto's `PasetoBuilder::<V4, Local>::build` with the given
/// claims set: it seals them, with `iat`, `nbf` and a fresh random nonce, into a
/// token whose payload holds each claim as a string member under its name, and
/// whose body (nonce, ciphertext, tag) is over 64 bytes. The token is the header
/// `v4.local.` and the body in unpadded base64url, with no footer.
#[verifier::external_body]
fn seal_v4_local(key: &[u8; 32], claims: &TokenClaims) -> (r: Option<String>)
    ensures
        r matches Some(t) ==> carries(paseto_v4_payload(t@, key@), claims@) && openable(t@)
            && token_text(t@),
{
    let key = PasetoSymmetricKey::<V4, Local>::from(Key::<32>::from(*key));
    let mut builder = PasetoBuilder::<V4, Local>::default();
    builder.set_claim(ExpirationClaim::try_from(claims.exp.as_str()).ok()?);
    builder.set_claim(SubjectClaim::from(claims.sub.as_str()));
    builder.set_claim(CustomClaim::try_from(("token_type", claims.token_type.as_str())).ok()?);
    if let Some(name) = &claims.username {
        builder.set_claim(CustomClaim::try_from(("username", name.as_str())).ok()?);
    }
    builder.build(&key).ok()
}

/// Relies on rusty_paseto's `PasetoParser::<V4, Local>::new().parse` (no claim
/// validators): it authenticates and decrypts the token and parses its JSON payload;
/// the members read here are taken where they are strings. It slices 32 bytes of
/// nonce and 32 of tag out of the body unchecked, so a `v4.local.` token with a
/// shorter body would panic.
#[verifier::external_body]
fn open_v4_local(token: &str, key: &[u8; 32]) -> (r: Option<PayloadMembers>)
    requires
        openable(token@),
    ensures
        r is None <==> paseto_v4_payload(token@, key@) is None,
        r matches Some(m) ==> {
            let p = paseto_v4_payload(token@, key@)->0;
            &&& opt_text(m.sub) == member(p, "sub"@)
            &&& opt_text(m.username) == member(p, "username"@)
            &&& opt_text(m.token_type) == member(p, "token_type"@)
            &&& opt_text(m.exp) == member(p, "exp"@)
        },
{
    let key = PasetoSymmetricKey::<V4, Local>::from(Key::<32>::from(*key));
    let v = PasetoParser::<V4, Local>::new().parse(token, &key).ok()?;
    let text = |name: &str| v.get(name).and_then(|m| m.as_str()).map(String::from);
    Some(PayloadMembers {
        sub: text("sub"),
        username: text("username"),
        token_type: text("token_type"),
        exp: text("exp"),
    })
}

/// Seals `claims` into a token under `key`. Every call draws a fresh nonce.
pub fn issue(claims: &TokenClaims, key: &[u8; 32]) -> (r: Result<String, CodecError>)
    ensures
        r matches Ok(t) ==> carries(paseto_v4_payload(t@, key@), claims@) && openable(t@)
            && token_text(t@),
        r matches Err(e) ==> e == CodecError::Unsealable,
{
    match seal_v4_local(key, claims) {
        Some(t) => Ok(t),
        None => Err(CodecError::Unsealable),
    }
}

/// Opens `token` under `key` and reads its claims. Authenticity is settled before
/// any claim is read: a token that does not authenticate yields `Invalid` only.
pub fn verify(token: &str, key: &[u8; 32]) -> (r: Result<TokenClaims, CodecError>)
    ensures
        match opened(token@, key@) {
            Some(c) => r matches Ok(x) && x@ == c,
            None => r == Err::<TokenClaims, CodecError>(CodecError::Invalid),
        },
{
    if !is_openable(token) {
        return Err(CodecError::Invalid);
    }
    let members = match open_v4_local(token, key) {
        Some(m) => m,
        None => return Err(CodecError::Invalid),
    };
    match (members.sub, members.token_type, members.exp) {
        (Some(sub), Some(token_type), Some(exp)) => Ok(
            TokenClaims { sub, username: members.username, token_type, exp },
        ),
        _ => Err(CodecError::Invalid),
    }
}

/// Whatever claims are sealed into a token come out of it unchanged under the
/// same key.
pub proof fn lemma_issue_then_verify(token: Seq<char>, key: Seq<u8>, claims: ClaimsView)
    requires
        carries(paseto_v4_payload(token, key), claims),
        openable(token),
    ensures
        opened(token, key) == Some(claims),
{
}

} // verus!
