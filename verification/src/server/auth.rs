//! Dashboard authentication: where a session token is found in an HTTP
//! request, and whom a validated token speaks for.

use vstd::prelude::*;
use vstd::string::StringExecFns;
use jsonwebtoken::jwk::JwkSet;
use crate::text::{
    any_prefixed, chars_of, first_prefixed, first_prefixed_at, has_prefix, lemma_first_prefixed, split,
    split_on, string_of, strip_prefix, trim, trimmed,
};

verus! {

/// `s` with its `%`-escapes decoded, or `None` when the decoded bytes are
/// not UTF-8.
pub uninterp spec fn url_decoded(s: Seq<char>) -> Option<Seq<char>>;

/// `urlencoding::decode`, named `url_decoded(s)`.  A text without `%`
/// decodes to itself.
#[verifier::external_body]
fn url_decode(s: &str) -> (r: Option<String>)
    ensures
        match r {
            Some(t) => url_decoded(s@) == Some(t@),
            None => url_decoded(s@) is None,
        },
        !s@.contains('%') ==> r.deep_view() == Some(s@),
{
    match urlencoding::decode(s) {
        Ok(t) => Some(t.into_owned()),
        Err(_) => None,
    }
}

/// The session token a request carries: from an `Authorization: Bearer`
/// header; else from the first `__clerk_db_jwt=` parameter of the query
/// string, URL-decoded (kept as it is when it does not decode); else from
/// the first `__session=` cookie.  `authorization` and `cookie` are the
/// header values when present and readable as text.
pub open spec fn token_spec(authorization: Option<Seq<char>>, query: Option<Seq<char>>, cookie: Option<Seq<char>>) -> Option<
    Seq<char>,
> {
    let bearer = "Bearer "@;
    let jwt = "__clerk_db_jwt="@;
    let session = "__session="@;
    if authorization is Some && has_prefix(authorization->0, bearer) {
        let h = authorization->0;
        Some(h.subrange(bearer.len() as int, h.len() as int))
    } else if query is Some && any_prefixed(split_on(query->0, '&'), jwt) {
        let pieces = split_on(query->0, '&');
        let piece = pieces[first_prefixed(pieces, jwt)];
        let value = piece.subrange(jwt.len() as int, piece.len() as int);
        match url_decoded(value) {
            Some(d) => Some(d),
            None => Some(value),
        }
    } else if cookie is Some && any_prefixed(split_on(cookie->0, ';').map_values(|c: Seq<char>| trimmed(c)), session) {
        let pieces = split_on(cookie->0, ';').map_values(|c: Seq<char>| trimmed(c));
        let piece = pieces[first_prefixed(pieces, session)];
        Some(piece.subrange(session.len() as int, piece.len() as int))
    } else {
        None
    }
}

/// The `Authorization` header is tried first: whenever it is present and
/// starts with `Bearer `, the token is the rest of that header, whatever
/// the query string and the cookies hold.
pub proof fn law_bearer_header_wins(h: Seq<char>, query: Option<Seq<char>>, cookie: Option<Seq<char>>)
    requires
        h.len() >= 7,
        h.subrange(0, 7) == "Bearer "@,
    ensures
        token_spec(Some(h), query, cookie) == Some(h.subrange(7, h.len() as int)),
{
    reveal_strlit("Bearer ");
    assert(has_prefix(h, "Bearer "@));
}

/// The first piece of `pieces` that starts with `prefix`, without the prefix.
fn first_value(pieces: &Vec<Vec<char>>, prefix: &Vec<char>) -> (r: Option<Vec<char>>)
    ensures
        match r {
            Some(v) => {
                let ps = pieces@.map_values(|p: Vec<char>| p@);
                &&& any_prefixed(ps, prefix@)
                &&& v@ == ps[first_prefixed(ps, prefix@)].subrange(
                    prefix@.len() as int,
                    ps[first_prefixed(ps, prefix@)].len() as int,
                )
            },
            None => !any_prefixed(pieces@.map_values(|p: Vec<char>| p@), prefix@),
        },
{
    let ghost ps = pieces@.map_values(|p: Vec<char>| p@);
    let mut i: usize = 0;
    while i < pieces.len()
        invariant
            i <= pieces.len(),
            ps == pieces@.map_values(|p: Vec<char>| p@),
            forall|j: int| 0 <= j < i ==> !has_prefix(#[trigger] ps[j], prefix@),
        decreases pieces.len() - i,
    {
        match strip_prefix(&pieces[i], prefix) {
            Some(v) => {
                proof {
                    assert(first_prefixed_at(ps, prefix@, i as int));
                    lemma_first_prefixed(ps, prefix@, i as int);
                }
                return Some(v);
            },
            None => {},
        }
        i = i + 1;
    }
    None
}

/// The session token of a request (see `token_spec`).
pub fn extract_token(authorization: Option<&str>, query: Option<&str>, cookie: Option<&str>) -> (r: Option<String>)
    ensures
        r.deep_view() == token_spec(
            match authorization {
                Some(a) => Some(a@),
                None => None,
            },
            match query {
                Some(q) => Some(q@),
                None => None,
            },
            match cookie {
                Some(c) => Some(c@),
                None => None,
            },
        ),
{
    let bearer = chars_of("Bearer ");
    let jwt = chars_of("__clerk_db_jwt=");
    let session = chars_of("__session=");
    if let Some(h) = authorization {
        if let Some(rest) = strip_prefix(&chars_of(h), &bearer) {
            return Some(string_of(&rest));
        }
    }
    if let Some(q) = query {
        let pieces = split(&chars_of(q), '&');
        assert(pieces@.map_values(|p: Vec<char>| p@) =~= split_on(q@, '&'));
        if let Some(v) = first_value(&pieces, &jwt) {
            let raw = string_of(&v);
            return match url_decode(raw.as_str()) {
                Some(d) => Some(d),
                None => Some(raw),
            };
        }
    }
    if let Some(c) = cookie {
        let raw_pieces = split(&chars_of(c), ';');
        let mut pieces: Vec<Vec<char>> = Vec::new();
        let mut i: usize = 0;
        while i < raw_pieces.len()
            invariant
                i <= raw_pieces.len(),
                pieces@.len() == i,
                forall|j: int| 0 <= j < i ==> #[trigger] pieces@[j]@ == trimmed(raw_pieces@[j]@),
            decreases raw_pieces.len() - i,
        {
            pieces.push(trim(&raw_pieces[i]));
            i = i + 1;
        }
        assert(pieces@.map_values(|p: Vec<char>| p@) =~= split_on(c@, ';').map_values(|s: Seq<char>| trimmed(s)));
        if let Some(v) = first_value(&pieces, &session) {
            return Some(string_of(&v));
        }
    }
    None
}

/// The claims of a dashboard session token issued by Clerk.
#[derive(Debug)]
pub struct ClerkClaims {
    pub sub: String,
    pub email: Option<String>,
    pub exp: usize,
    pub iat: usize,
    pub iss: String,
    pub azp: Option<String>,
}

/// The dashboard user a request was made by.
#[derive(Debug)]
pub struct AuthUser {
    pub clerk_user_id: String,
    pub email: Option<String>,
}

/// The user a validated token speaks for: its subject and its email.
pub fn user_from_claims(claims: ClerkClaims) -> (u: AuthUser)
    ensures
        u.clerk_user_id == claims.sub,
        u.email == claims.email,
{
    AuthUser { clerk_user_id: claims.sub, email: claims.email }
}

#[verifier::external_type_specification]
#[verifier::external_body]
pub struct ExJwkSet(JwkSet);

#[verifier::external_type_specification]
#[verifier::external_body]
pub struct ExClaimsValue(serde_json::Value);

/// The key ids of the keys of a published key set.
pub uninterp spec fn jwks_kids(s: JwkSet) -> Set<Seq<char>>;

/// The key id that the header of `token` names (`Ok(None)`: it names
/// none), or `Err` where the token has no readable header.
pub uninterp spec fn header_kid(token: Seq<char>) -> Result<Option<Seq<char>>, ()>;

/// A claim of a token as the dashboard reads it.
pub enum ClaimView {
    Absent,
    Null,
    Text(Seq<char>),
    Unsigned(u64),
    Other,
}

/// The claims a validated token carries, by name (a claim that is
/// missing is not in the map).
pub uninterp spec fn claims_of(v: serde_json::Value) -> Map<Seq<char>, ClaimView>;

/// The claim `name` of the claims `m`.
pub open spec fn claim_at(m: Map<Seq<char>, ClaimView>, name: Seq<char>) -> ClaimView {
    if m.contains_key(name) {
        m[name]
    } else {
        ClaimView::Absent
    }
}

/// A claim of a token: missing, `null`, a text, a whole number that fits
/// 64 bits, or anything else.
#[derive(Debug)]
pub enum ClaimValue {
    Absent,
    Null,
    Text(String),
    Unsigned(u64),
    Other,
}

impl View for ClaimValue {
    type V = ClaimView;

    open spec fn view(&self) -> ClaimView {
        match self {
            ClaimValue::Absent => ClaimView::Absent,
            ClaimValue::Null => ClaimView::Null,
            ClaimValue::Text(t) => ClaimView::Text(t@),
            ClaimValue::Unsigned(n) => ClaimView::Unsigned(*n),
            ClaimValue::Other => ClaimView::Other,
        }
    }
}

/// `jsonwebtoken::decode_header`, then the header's `kid`: `Ok` exactly
/// where the header reads, with the key id it names (named
/// `header_kid(token)`); the error's text is the crate's.
#[verifier::external_body]
fn token_header_kid(token: &str) -> (r: Result<Option<String>, String>)
    ensures
        r is Ok <==> header_kid(token@) is Ok,
        r matches Ok(k) ==> (header_kid(token@) matches Ok(h) && h == k.deep_view()),
{
    match jsonwebtoken::decode_header(token) {
        Ok(h) => Ok(h.kid),
        Err(e) => Err(e.to_string()),
    }
}

/// `JwkSet::find`: whether the set holds a key with id `kid`.
#[verifier::external_body]
fn jwks_find(s: &JwkSet, kid: &str) -> (b: bool)
    ensures
        b == jwks_kids(*s).contains(kid@),
{
    s.find(kid).is_some()
}

/// `jsonwebtoken::decode` of `token` with the key `kid` of `s`
/// (`DecodingKey::from_jwk`), for RS256 with the expiry checked against
/// the system clock and the issuer required to be `issuer`.  What comes
/// back depends on the signature and the clock, so only this is stated:
/// the claims of an accepted token whose `iss` is a text name `issuer`.
/// (The crate reads the clock with an `expect`, which fails only on a
/// clock set before 1970.)
#[verifier::external_body]
fn verify_rs256(token: &str, s: &JwkSet, kid: &str, issuer: &str) -> (r: Result<serde_json::Value, String>)
    requires
        jwks_kids(*s).contains(kid@),
    ensures
        r matches Ok(v) ==> (claim_at(claims_of(v), "iss"@) matches ClaimView::Text(t) ==> t == issuer@),
{
    let jwk = match s.find(kid) {
        Some(j) => j,
        None => return Err(String::new()),
    };
    let key = match jsonwebtoken::DecodingKey::from_jwk(jwk) {
        Ok(k) => k,
        Err(e) => return Err(e.to_string()),
    };
    let mut validation = jsonwebtoken::Validation::new(jsonwebtoken::Algorithm::RS256);
    validation.set_issuer(&[issuer]);
    validation.validate_exp = true;
    match jsonwebtoken::decode::<serde_json::Value>(token, &key, &validation) {
        Ok(d) => Ok(d.claims),
        Err(e) => Err(e.to_string()),
    }
}

/// `serde_json::Value::get` of the claim `name`, read by its kind
/// (`Number::as_u64` for numbers).
#[verifier::external_body]
fn claim(v: &serde_json::Value, name: &str) -> (c: ClaimValue)
    ensures
        c@ == claim_at(claims_of(*v), name@),
{
    match v.get(name) {
        None => ClaimValue::Absent,
        Some(serde_json::Value::Null) => ClaimValue::Null,
        Some(serde_json::Value::String(t)) => ClaimValue::Text(t.clone()),
        Some(serde_json::Value::Number(n)) => match n.as_u64() {
            Some(u) => ClaimValue::Unsigned(u),
            None => ClaimValue::Other,
        },
        Some(_) => ClaimValue::Other,
    }
}

/// A required text claim.
pub open spec fn required_text(c: ClaimView) -> Option<Seq<char>> {
    match c {
        ClaimView::Text(t) => Some(t),
        _ => None,
    }
}

/// An optional text claim: missing or `null` is `None`; anything but a
/// text is unreadable (the outer `None`).
pub open spec fn optional_text(c: ClaimView) -> Option<Option<Seq<char>>> {
    match c {
        ClaimView::Absent => Some(None),
        ClaimView::Null => Some(None),
        ClaimView::Text(t) => Some(Some(t)),
        _ => None,
    }
}

/// A required whole-number claim that fits a `usize`.
pub open spec fn required_count(c: ClaimView) -> Option<u64> {
    match c {
        ClaimView::Unsigned(n) => if n <= usize::MAX {
            Some(n)
        } else {
            None
        },
        _ => None,
    }
}

/// Whether claims `m` read as the dashboard's claims: `sub` and `iss`
/// texts, `exp` and `iat` whole numbers, `email` and `azp` texts where
/// given.
pub open spec fn claims_readable(m: Map<Seq<char>, ClaimView>) -> bool {
    &&& required_text(claim_at(m, "sub"@)) is Some
    &&& required_text(claim_at(m, "iss"@)) is Some
    &&& required_count(claim_at(m, "exp"@)) is Some
    &&& required_count(claim_at(m, "iat"@)) is Some
    &&& optional_text(claim_at(m, "email"@)) is Some
    &&& optional_text(claim_at(m, "azp"@)) is Some
}

/// `c` holds the claims `m`.
pub open spec fn claims_match(c: ClerkClaims, m: Map<Seq<char>, ClaimView>) -> bool {
    &&& Some(c.sub@) == required_text(claim_at(m, "sub"@))
    &&& Some(c.iss@) == required_text(claim_at(m, "iss"@))
    &&& Some(c.exp as u64) == required_count(claim_at(m, "exp"@))
    &&& Some(c.iat as u64) == required_count(claim_at(m, "iat"@))
    &&& Some(c.email.deep_view()) == optional_text(claim_at(m, "email"@))
    &&& Some(c.azp.deep_view()) == optional_text(claim_at(m, "azp"@))
}

fn read_text(c: ClaimValue) -> (r: Option<String>)
    ensures
        r.deep_view() == required_text(c@),
{
    match c {
        ClaimValue::Text(t) => Some(t),
        _ => None,
    }
}

fn read_optional(c: ClaimValue) -> (r: Option<Option<String>>)
    ensures
        match r {
            Some(o) => optional_text(c@) == Some(o.deep_view()),
            None => optional_text(c@) is None,
        },
{
    match c {
        ClaimValue::Absent => Some(None),
        ClaimValue::Null => Some(None),
        ClaimValue::Text(t) => Some(Some(t)),
        _ => None,
    }
}

fn read_count(c: ClaimValue) -> (r: Option<usize>)
    ensures
        match r {
            Some(n) => required_count(c@) == Some(n as u64),
            None => required_count(c@) is None,
        },
{
    match c {
        ClaimValue::Unsigned(n) => if n <= usize::MAX as u64 {
            Some(n as usize)
        } else {
            None
        },
        _ => None,
    }
}

/// The dashboard's claims from the claims of a validated token: `Ok`
/// exactly where they read (`claims_readable`), holding them; else
/// "Invalid token claims".
pub fn read_claims(v: &serde_json::Value) -> (r: Result<ClerkClaims, String>)
    ensures
        r is Ok <==> claims_readable(claims_of(*v)),
        r matches Ok(c) ==> claims_match(c, claims_of(*v)),
        r matches Err(e) ==> e@ == "Invalid token claims"@,
{
    let sub = read_text(claim(v, "sub"));
    let iss = read_text(claim(v, "iss"));
    let exp = read_count(claim(v, "exp"));
    let iat = read_count(claim(v, "iat"));
    let email = read_optional(claim(v, "email"));
    let azp = read_optional(claim(v, "azp"));
    match (sub, iss, exp, iat, email, azp) {
        (Some(sub), Some(iss), Some(exp), Some(iat), Some(email), Some(azp)) => {
            Ok(ClerkClaims { sub, email, exp, iat, iss, azp })
        },
        _ => Err("Invalid token claims".to_string()),
    }
}

/// The Clerk instance that issues the dashboard's session tokens.
#[derive(Debug)]
pub struct ClerkAuth {
    pub domain: String,
}

impl ClerkAuth {
    /// The instance at `domain`.
    pub fn new(domain: &str) -> (c: Self)
        ensures
            c.domain@ == domain@,
    {
        ClerkAuth { domain: domain.to_string() }
    }

    /// Where the instance publishes its signing keys.
    pub fn jwks_url(&self) -> (u: String)
        ensures
            u@ == "https://"@ + self.domain@ + "/.well-known/jwks.json"@,
    {
        let mut u = "https://".to_string();
        u.append(self.domain.as_str());
        u.append("/.well-known/jwks.json");
        u
    }

    /// The issuer a token of the instance names.
    pub fn issuer(&self) -> (u: String)
        ensures
            u@ == "https://"@ + self.domain@,
    {
        let mut u = "https://".to_string();
        u.append(self.domain.as_str());
        u
    }

    /// The claims of a dashboard session token, validated against the
    /// instance's published keys `jwks` (`None`: not fetched, "JWKS not
    /// loaded"): the token's header must name a key id ("No kid in token
    /// header" otherwise) that the set holds ("Key not found in JWKS"
    /// otherwise); the token is then checked with that key for RS256, its
    /// expiry and the instance as issuer, and its claims read.  A header
    /// that does not read, a failed check and unreadable claims are
    /// errors too.  Accepted claims name the instance as issuer.
    pub fn validate_token(&self, jwks: Option<&JwkSet>, token: &str) -> (r: Result<ClerkClaims, String>)
        ensures
            jwks is None ==> (r matches Err(e) && e@ == "JWKS not loaded"@),
            jwks matches Some(s) ==> {
                &&& header_kid(token@) is Err ==> r is Err
                &&& header_kid(token@) matches Ok(None) ==> (r matches Err(e)
                    && e@ == "No kid in token header"@)
                &&& (header_kid(token@) matches Ok(Some(k)) && !jwks_kids(*s).contains(k)) ==> (r matches Err(e)
                    && e@ == "Key not found in JWKS"@)
                &&& r is Ok ==> (header_kid(token@) matches Ok(Some(k)) && jwks_kids(*s).contains(k))
            },
            r matches Ok(c) ==> c.iss@ == "https://"@ + self.domain@,
    {
        let s = match jwks {
            Some(s) => s,
            None => return Err("JWKS not loaded".to_string()),
        };
        let kid = match token_header_kid(token) {
            Ok(Some(k)) => k,
            Ok(None) => return Err("No kid in token header".to_string()),
            Err(e) => return Err(e),
        };
        if !jwks_find(s, kid.as_str()) {
            return Err("Key not found in JWKS".to_string());
        }
        let issuer = self.issuer();
        let claims = verify_rs256(token, s, kid.as_str(), issuer.as_str())?;
        read_claims(&claims)
    }
}

} // verus!
