//! Issuance and validation of signed, expiring session tokens.
//!
//! A token is a fixed-width decimal rendering of its claims followed by a
//! keyed integrity tag over them.  The tag is a keyed checksum: it binds the
//! claims to the service secret and detects any alteration of the token
//! text, which is all the validation contract below relies on.  Tokens are
//! integrity-protected only, never encrypted.

use vstd::prelude::*;
use crate::codec::{
    enc_spec, field_spec, spec_parse_u64, lemma_enc_spec_ok, lemma_pow10_20, pow10,
    push_decimal, parse_field, all_digits, dec_val,
};
use crate::errors::TokenError;
use crate::role::{Role, spec_role_code, spec_role_of_code, role_code, role_of_code};

verus! {

/// The two token kinds the service issues.
#[derive(Clone, Copy, Debug, PartialEq, Eq, Structural)]
pub enum TokenType {
    Access,
    Refresh,
}

pub open spec fn spec_kind_code(t: TokenType) -> u64 {
    match t {
        TokenType::Access => 0,
        TokenType::Refresh => 1,
    }
}

#[verifier::when_used_as_spec(spec_kind_code)]
pub fn kind_code(t: TokenType) -> (c: u64)
    ensures
        c == spec_kind_code(t),
{
    match t {
        TokenType::Access => 0,
        TokenType::Refresh => 1,
    }
}

/// Claims carried by a validated token.
#[derive(Clone, Copy, Debug, PartialEq, Eq, Structural)]
pub struct Claims {
    /// Subject: the user identifier.
    pub sub: u64,
    /// Role of the subject at issuance; refresh tokens carry the least
    /// privileged role, since they prove identity only.
    pub role: Role,
    pub token_type: TokenType,
    /// Issuance instant, in seconds.
    pub iat: u64,
    /// Expiry instant, in seconds; the token is invalid at this instant.
    pub exp: u64,
}

/// The numeric fields of a token as they appear on the wire, before any
/// semantic check.
#[derive(Clone, Copy, Debug, PartialEq, Eq, Structural)]
pub struct RawToken {
    pub kind: u64,
    pub role: u64,
    pub sub: u64,
    pub iat: u64,
    pub exp: u64,
    pub tag: u64,
}

/// Multiplier of the integrity tag's mixing step.
pub const TAG_MULTIPLIER: u64 = 0x100000001b3;

/// One mixing step of the integrity tag.
pub open spec fn spec_mix(acc: u64, v: u64) -> u64 {
    (((acc ^ v) * TAG_MULTIPLIER) % 0x10000000000000000) as u64
}

fn mix(acc: u64, v: u64) -> (r: u64)
    ensures
        r == spec_mix(acc, v),
{
    let x: u128 = (acc ^ v) as u128;
    proof {
        assert(x * (TAG_MULTIPLIER as u128) <= u128::MAX) by (nonlinear_arith)
            requires
                x <= u64::MAX,
        ;
    }
    let p: u128 = x * (TAG_MULTIPLIER as u128);
    (p % 0x10000000000000000u128) as u64
}

/// Keyed integrity tag over the claim fields of a token.
pub open spec fn spec_tag(secret: u64, kind: u64, role: u64, sub: u64, iat: u64, exp: u64) -> u64 {
    spec_mix(spec_mix(spec_mix(spec_mix(spec_mix(secret, kind), role), sub), iat), exp)
}

fn compute_tag(secret: u64, kind: u64, role: u64, sub: u64, iat: u64, exp: u64) -> (r: u64)
    ensures
        r == spec_tag(secret, kind, role, sub, iat, exp),
{
    mix(mix(mix(mix(mix(secret, kind), role), sub), iat), exp)
}

/// The complete textual form of a token: kind (1 digit), role (1 digit),
/// subject, issued-at, expiry and tag (20 digits each), 82 characters in
/// all.
pub open spec fn token_chars(secret: u64, kind: u64, role: u64, sub: u64, iat: u64, exp: u64) -> Seq<char> {
    enc_spec(kind as nat, 1) + enc_spec(role as nat, 1) + enc_spec(sub as nat, 20)
        + enc_spec(iat as nat, 20) + enc_spec(exp as nat, 20)
        + enc_spec(spec_tag(secret, kind, role, sub, iat, exp) as nat, 20)
}

/// Structural decoding of a token string: exactly 82 decimal digits whose
/// kind and role fields are in range.
pub open spec fn spec_parse_token(s: Seq<char>) -> Option<RawToken> {
    if s.len() == 82 {
        let k = field_spec(s, 0, 1);
        let r = field_spec(s, 1, 1);
        let sub = field_spec(s, 2, 20);
        let iat = field_spec(s, 22, 20);
        let exp = field_spec(s, 42, 20);
        let tag = field_spec(s, 62, 20);
        if k is Some && r is Some && sub is Some && iat is Some && exp is Some && tag is Some
            && k.unwrap() <= 1 && r.unwrap() <= 3 {
            Some(RawToken {
                kind: k.unwrap(),
                role: r.unwrap(),
                sub: sub.unwrap(),
                iat: iat.unwrap(),
                exp: exp.unwrap(),
                tag: tag.unwrap(),
            })
        } else {
            None
        }
    } else {
        None
    }
}

/// Parses the wire form of a token.
pub fn parse_token(s: &str) -> (r: Option<RawToken>)
    ensures
        r == spec_parse_token(s@),
{
    let n = s.unicode_len();
    if n != 82 {
        return None;
    }
    let k = match parse_field(s, 0, 1) {
        Some(v) => v,
        None => { return None; },
    };
    let rl = match parse_field(s, 1, 1) {
        Some(v) => v,
        None => { return None; },
    };
    let sub = match parse_field(s, 2, 20) {
        Some(v) => v,
        None => { return None; },
    };
    let iat = match parse_field(s, 22, 20) {
        Some(v) => v,
        None => { return None; },
    };
    let exp = match parse_field(s, 42, 20) {
        Some(v) => v,
        None => { return None; },
    };
    let tag = match parse_field(s, 62, 20) {
        Some(v) => v,
        None => { return None; },
    };
    if k > 1 || rl > 3 {
        return None;
    }
    Some(RawToken { kind: k, role: rl, sub, iat, exp, tag })
}

/// Outcome of validating token text against a secret, an expected kind and
/// the current instant.  Checks run in this order: structure, integrity
/// tag, kind, expiry.
pub open spec fn spec_validate(secret: u64, s: Seq<char>, expected: TokenType, now: u64) -> Result<Claims, TokenError> {
    match spec_parse_token(s) {
        None => Err(TokenError::Malformed),
        Some(p) => {
            if p.tag != spec_tag(secret, p.kind, p.role, p.sub, p.iat, p.exp) {
                Err(TokenError::InvalidSignature)
            } else if p.kind != spec_kind_code(expected) {
                Err(TokenError::WrongTokenType)
            } else if now >= p.exp {
                Err(TokenError::Expired)
            } else {
                Ok(Claims {
                    sub: p.sub,
                    role: spec_role_of_code(p.role),
                    token_type: expected,
                    iat: p.iat,
                    exp: p.exp,
                })
            }
        },
    }
}

/// Issues and validates signed session tokens.  The signing secret is
/// injected at construction and held for the service's lifetime.
pub struct TokenService {
    pub secret: u64,
    pub access_ttl_secs: u64,
    pub refresh_ttl_secs: u64,
}

impl TokenService {
    pub fn new(secret: u64, access_ttl_secs: u64, refresh_ttl_secs: u64) -> (s: Self)
        requires
            access_ttl_secs >= 1,
            refresh_ttl_secs >= 1,
        ensures
            s.secret == secret,
            s.access_ttl_secs == access_ttl_secs,
            s.refresh_ttl_secs == refresh_ttl_secs,
    {
        TokenService { secret, access_ttl_secs, refresh_ttl_secs }
    }

    /// Lifetime of a token of the given kind.
    pub open spec fn spec_ttl(self, t: TokenType) -> u64 {
        match t {
            TokenType::Access => self.access_ttl_secs,
            TokenType::Refresh => self.refresh_ttl_secs,
        }
    }

    /// Text of a token of kind `t` for subject `sub` issued at `now`.
    pub open spec fn spec_token(self, t: TokenType, sub: u64, role: Role, now: u64) -> Seq<char> {
        token_chars(
            self.secret,
            spec_kind_code(t),
            spec_role_code(role),
            sub,
            now,
            (now + self.spec_ttl(t)) as u64,
        )
    }

    fn issue(&self, t: TokenType, sub: u64, role: Role, now: u64) -> (tok: String)
        requires
            now + self.spec_ttl(t) <= u64::MAX,
        ensures
            tok@ == self.spec_token(t, sub, role, now),
    {
        let kc = kind_code(t);
        let rc = role_code(role);
        let exp = now + match t {
            TokenType::Access => self.access_ttl_secs,
            TokenType::Refresh => self.refresh_ttl_secs,
        };
        let tag = compute_tag(self.secret, kc, rc, sub, now, exp);
        proof {
            lemma_pow10_20();
            assert(pow10(1) == 10) by {
                reveal_with_fuel(pow10, 2);
            }
        }
        let mut tok = String::new();
        push_decimal(&mut tok, kc, 1);
        push_decimal(&mut tok, rc, 1);
        push_decimal(&mut tok, sub, 20);
        push_decimal(&mut tok, now, 20);
        push_decimal(&mut tok, exp, 20);
        push_decimal(&mut tok, tag, 20);
        proof {
            assert(tok@ =~= self.spec_token(t, sub, role, now));
        }
        tok
    }

    /// Issues a short-lived access token carrying subject and role.
    pub fn issue_access(&self, sub: u64, role: Role, now: u64) -> (tok: String)
        requires
            now + self.access_ttl_secs <= u64::MAX,
        ensures
            tok@ == self.spec_token(TokenType::Access, sub, role, now),
    {
        self.issue(TokenType::Access, sub, role, now)
    }

    /// Issues a long-lived refresh token.  It proves identity only, so it
    /// carries the least privileged role; the refresh flow reloads the
    /// user's current role from the repository.
    pub fn issue_refresh(&self, sub: u64, now: u64) -> (tok: String)
        requires
            now + self.refresh_ttl_secs <= u64::MAX,
        ensures
            tok@ == self.spec_token(TokenType::Refresh, sub, Role::User, now),
    {
        self.issue(TokenType::Refresh, sub, Role::User, now)
    }

    /// Validates token text: verifies the integrity tag, the kind
    /// discriminator and the expiry against `now`, in that order, and
    /// returns the decoded claims.
    pub fn validate(&self, tok: &str, expected: TokenType, now: u64) -> (r: Result<Claims, TokenError>)
        ensures
            r == spec_validate(self.secret, tok@, expected, now),
    {
        let p = match parse_token(tok) {
            Some(p) => p,
            None => { return Err(TokenError::Malformed); },
        };
        let tag = compute_tag(self.secret, p.kind, p.role, p.sub, p.iat, p.exp);
        if p.tag != tag {
            return Err(TokenError::InvalidSignature);
        }
        if p.kind != kind_code(expected) {
            return Err(TokenError::WrongTokenType);
        }
        if now >= p.exp {
            return Err(TokenError::Expired);
        }
        Ok(Claims {
            sub: p.sub,
            role: role_of_code(p.role),
            token_type: expected,
            iat: p.iat,
            exp: p.exp,
        })
    }
}

/// Parsing inverts encoding: the wire form of any in-range claim fields
/// decodes back to exactly those fields.
pub proof fn lemma_token_parse_round_trip(secret: u64, kind: u64, role: u64, sub: u64, iat: u64, exp: u64)
    requires
        kind <= 1,
        role <= 3,
    ensures
        spec_parse_token(token_chars(secret, kind, role, sub, iat, exp)) == Some(RawToken {
            kind,
            role,
            sub,
            iat,
            exp,
            tag: spec_tag(secret, kind, role, sub, iat, exp),
        }),
{
    let tag = spec_tag(secret, kind, role, sub, iat, exp);
    let s = token_chars(secret, kind, role, sub, iat, exp);
    lemma_pow10_20();
    assert(pow10(1) == 10) by {
        reveal_with_fuel(pow10, 2);
    }
    lemma_enc_spec_ok(kind as nat, 1);
    lemma_enc_spec_ok(role as nat, 1);
    lemma_enc_spec_ok(sub as nat, 20);
    lemma_enc_spec_ok(iat as nat, 20);
    lemma_enc_spec_ok(exp as nat, 20);
    lemma_enc_spec_ok(tag as nat, 20);
    assert(s.len() == 82);
    assert(s.subrange(0, 1) =~= enc_spec(kind as nat, 1));
    assert(s.subrange(1, 2) =~= enc_spec(role as nat, 1));
    assert(s.subrange(2, 22) =~= enc_spec(sub as nat, 20));
    assert(s.subrange(22, 42) =~= enc_spec(iat as nat, 20));
    assert(s.subrange(42, 62) =~= enc_spec(exp as nat, 20));
    assert(s.subrange(62, 82) =~= enc_spec(tag as nat, 20));
}

/// An access token issued at `now` validates to claims with the same
/// subject and role at any instant before its expiry, and fails with
/// `Expired` at the expiry instant or after.
pub proof fn lemma_access_round_trip(svc: TokenService, sub: u64, role: Role, now: u64, now2: u64)
    requires
        now + svc.access_ttl_secs <= u64::MAX,
    ensures
        now2 < now + svc.access_ttl_secs ==> spec_validate(
            svc.secret,
            svc.spec_token(TokenType::Access, sub, role, now),
            TokenType::Access,
            now2,
        ) == Ok::<Claims, TokenError>(Claims {
            sub,
            role,
            token_type: TokenType::Access,
            iat: now,
            exp: (now + svc.access_ttl_secs) as u64,
        }),
        now2 >= now + svc.access_ttl_secs ==> spec_validate(
            svc.secret,
            svc.spec_token(TokenType::Access, sub, role, now),
            TokenType::Access,
            now2,
        ) == Err::<Claims, TokenError>(TokenError::Expired),
{
    lemma_token_parse_round_trip(
        svc.secret,
        spec_kind_code(TokenType::Access),
        spec_role_code(role),
        sub,
        now,
        (now + svc.access_ttl_secs) as u64,
    );
    crate::role::lemma_role_code_round_trip(role);
}

/// The refresh analogue: a refresh token validates as a refresh token
/// until its expiry instant and as nothing else, and an access token is
/// rejected where a refresh token is expected.
pub proof fn lemma_refresh_round_trip(svc: TokenService, sub: u64, now: u64, now2: u64)
    requires
        now + svc.refresh_ttl_secs <= u64::MAX,
    ensures
        now2 < now + svc.refresh_ttl_secs ==> spec_validate(
            svc.secret,
            svc.spec_token(TokenType::Refresh, sub, Role::User, now),
            TokenType::Refresh,
            now2,
        ) == Ok::<Claims, TokenError>(Claims {
            sub,
            role: Role::User,
            token_type: TokenType::Refresh,
            iat: now,
            exp: (now + svc.refresh_ttl_secs) as u64,
        }),
        now2 >= now + svc.refresh_ttl_secs ==> spec_validate(
            svc.secret,
            svc.spec_token(TokenType::Refresh, sub, Role::User, now),
            TokenType::Refresh,
            now2,
        ) == Err::<Claims, TokenError>(TokenError::Expired),
        spec_validate(
            svc.secret,
            svc.spec_token(TokenType::Refresh, sub, Role::User, now),
            TokenType::Access,
            now2,
        ) == Err::<Claims, TokenError>(TokenError::WrongTokenType),
{
    lemma_token_parse_round_trip(
        svc.secret,
        spec_kind_code(TokenType::Refresh),
        spec_role_code(Role::User),
        sub,
        now,
        (now + svc.refresh_ttl_secs) as u64,
    );
}

} // verus!
