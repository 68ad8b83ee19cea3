use vstd::prelude::*;
use crate::error::AuthError;
use crate::role::{Identity, Role};
use crate::text::{
    chars_eq, chars_to_string, hex_digits, hex_value, is_hex_seq, parse_hex16, str_to_chars,
    subvec, u64_to_hex, push_all,
};
use crate::text::{lemma_hex_digits_are_hex, lemma_hex_digits_len, lemma_hex_round_trip};

verus! {

// Stateless bearer tokens. A token is one compact string:
//
//   iiiiiiiiiiiiiiii.eeeeeeeeeeeeeeee.r.subject.tttt...t
//
// sixteen hexadecimal digits of `issued_at`, sixteen of `expires_at`, one
// role character, the subject id (arbitrary characters, including dots), and
// last the 64-character keyed tag over everything before it. The tag pins the
// subject down although the subject may itself contain dots: every field but
// the subject sits at a fixed distance from one end of the string. Validity
// is decided by the tag and the expiry alone; there is no server-side state.

/// What signing `payload` under `secret` yields: the keyed tag, a pure
/// function of the two strings.
pub uninterp spec fn mac_tag(secret: Seq<char>, payload: Seq<char>) -> Seq<char>;

/// Relies on hmac's `Hmac<Sha256>` (HMAC, RFC 2104, over SHA-256): the
/// 32-byte tag is a function of key and message alone, rendered here as 64
/// hexadecimal characters. Keys of any length are accepted.
#[verifier::external_body]
fn sign_payload(secret: &str, payload: &str) -> (r: String)
    ensures
        r@ == mac_tag(secret@, payload@),
        r@.len() == 64,
{
    let mut mac = <hmac::Hmac<sha2::Sha256> as hmac::KeyInit>::new_from_slice(secret.as_bytes())
        .expect("HMAC accepts keys of any length");
    hmac::Mac::update(&mut mac, payload.as_bytes());
    let tag = hmac::Mac::finalize(mac).into_bytes();
    let mut out = String::new();
    for b in tag.iter() {
        out.push_str(&format!("{:02x}", b));
    }
    out
}

/// The character a role travels as inside a token.
pub open spec fn role_char(r: Role) -> char {
    match r {
        Role::Admin => 'a',
        Role::User => 'u',
    }
}

/// The role a token character denotes, if any.
pub open spec fn char_role(c: char) -> Option<Role> {
    if c == 'a' {
        Some(Role::Admin)
    } else if c == 'u' {
        Some(Role::User)
    } else {
        None
    }
}

fn role_to_char(r: Role) -> (c: char)
    ensures
        c == role_char(r),
{
    match r {
        Role::Admin => 'a',
        Role::User => 'u',
    }
}

fn char_to_role(c: char) -> (r: Option<Role>)
    ensures
        r == char_role(c),
{
    if c == 'a' {
        Some(Role::Admin)
    } else if c == 'u' {
        Some(Role::User)
    } else {
        None
    }
}

/// The signed part of a token: timestamps, role and subject.
pub open spec fn payload_seq(sub: Seq<char>, role: Role, iat: u64, exp: u64) -> Seq<char> {
    hex_digits(iat, 16) + seq!['.'] + hex_digits(exp, 16) + seq!['.'] + seq![role_char(role)]
        + seq!['.'] + sub
}

/// The full token: the signed payload followed by its tag.
pub open spec fn token_seq(sub: Seq<char>, role: Role, secret: Seq<char>, iat: u64, exp: u64) -> Seq<
    char,
> {
    payload_seq(sub, role, iat, exp) + seq!['.'] + mac_tag(
        secret,
        payload_seq(sub, role, iat, exp),
    )
}

/// The claims a token string carries, before any trust decision.
pub struct TokenFields {
    pub iat: u64,
    pub exp: u64,
    pub role: Role,
    pub sub: Seq<char>,
    pub tag: Seq<char>,
}

/// Splits a token string into its claims; `None` exactly on the strings no
/// issuance can have produced with a 64-character tag.
pub open spec fn parse_fields(t: Seq<char>) -> Option<TokenFields> {
    if t.len() < 101 {
        None
    } else if t[16] != '.' || t[33] != '.' || t[35] != '.' || t[t.len() - 65] != '.' {
        None
    } else if !is_hex_seq(t.subrange(0, 16)) || !is_hex_seq(t.subrange(17, 33)) {
        None
    } else {
        match char_role(t[34]) {
            None => None,
            Some(role) => Some(
                TokenFields {
                    iat: hex_value(t.subrange(0, 16)) as u64,
                    exp: hex_value(t.subrange(17, 33)) as u64,
                    role,
                    sub: t.subrange(36, t.len() - 65),
                    tag: t.subrange(t.len() - 64, t.len() as int),
                },
            ),
        }
    }
}

/// The trust decision on a token string at time `now`: the subject and role
/// it grants, or nothing. A token is granted exactly when it parses, its tag
/// is the keyed tag of its own payload under `secret`, and it has not
/// expired.
pub open spec fn token_claims(t: Seq<char>, secret: Seq<char>, now: u64) -> Option<
    (Seq<char>, Role),
> {
    match parse_fields(t) {
        None => None,
        Some(f) => {
            if f.tag == mac_tag(secret, payload_seq(f.sub, f.role, f.iat, f.exp)) && now < f.exp {
                Some((f.sub, f.role))
            } else {
                None
            }
        },
    }
}

/// Builds the signed payload for the given claims.
fn build_payload(sub: &Vec<char>, role: Role, iat: u64, exp: u64) -> (r: Vec<char>)
    ensures
        r@ == payload_seq(sub@, role, iat, exp),
{
    let mut v = u64_to_hex(iat);
    v.push('.');
    let e = u64_to_hex(exp);
    push_all(&mut v, &e);
    v.push('.');
    v.push(role_to_char(role));
    v.push('.');
    push_all(&mut v, sub);
    proof {
        assert(v@ =~= payload_seq(sub@, role, iat, exp));
    }
    v
}

/// Issues a signed token for `subject_id` with `role`, issued at `now` and
/// expiring `ttl` seconds later. Fully determined by its arguments apart from
/// the tag, which is the keyed tag of the payload.
pub fn issue(subject_id: &str, role: Role, secret: &str, ttl: u64, now: u64) -> (t: String)
    requires
        now + ttl <= u64::MAX,
    ensures
        t@ == token_seq(subject_id@, role, secret@, now, (now + ttl) as u64),
        mac_tag(secret@, payload_seq(subject_id@, role, now, (now + ttl) as u64)).len() == 64,
{
    let exp = now + ttl;
    let sub = str_to_chars(subject_id);
    let payload = build_payload(&sub, role, now, exp);
    let payload_str = chars_to_string(&payload);
    let tag = sign_payload(secret, payload_str.as_str());
    let mut out = payload_str;
    out.append(".");
    out.append(tag.as_str());
    proof {
        reveal_strlit(".");
        assert(out@ =~= token_seq(subject_id@, role, secret@, now, (now + ttl) as u64));
    }
    out
}

/// Validates a token string against `secret` at time `now` and decodes the
/// identity it grants. Bad structure, a wrong tag and expiry are all the same
/// invalid-token failure, deliberately indistinguishable to the caller. No
/// clock-skew leeway: the token is granted only while `now < expires_at`.
pub fn validate(token: &str, secret: &str, now: u64) -> (r: Result<Identity, AuthError>)
    ensures
        match token_claims(token@, secret@, now) {
            Some((sub, role)) => r matches Ok(id) && id.subject_id@ == sub && id.role == role,
            None => r == Err::<Identity, AuthError>(AuthError::Authentication),
        },
{
    let t = str_to_chars(token);
    let n = t.len();
    if n < 101 {
        return Err(AuthError::Authentication);
    }
    let (d0, d1, d2, d3) = (t[16], t[33], t[35], t[n - 65]);
    if d0 != '.' || d1 != '.' || d2 != '.' || d3 != '.' {
        return Err(AuthError::Authentication);
    }
    let iat = match parse_hex16(&t, 0) {
        Some(x) => x,
        None => return Err(AuthError::Authentication),
    };
    let exp = match parse_hex16(&t, 17) {
        Some(x) => x,
        None => return Err(AuthError::Authentication),
    };
    let role_c = t[34];
    let role = match char_to_role(role_c) {
        Some(r) => r,
        None => return Err(AuthError::Authentication),
    };
    let sub = subvec(&t, 36, n - 65);
    let tag = subvec(&t, n - 64, n);
    let payload = build_payload(&sub, role, iat, exp);
    let payload_str = chars_to_string(&payload);
    let expected = sign_payload(secret, payload_str.as_str());
    let expected_chars = str_to_chars(expected.as_str());
    proof {
        assert(parse_fields(token@) matches Some(f)
            && f.iat == iat && f.exp == exp && f.role == role && f.sub == sub@ && f.tag == tag@);
    }
    if !chars_eq(&tag, &expected_chars) {
        return Err(AuthError::Authentication);
    }
    if now >= exp {
        return Err(AuthError::Authentication);
    }
    Ok(Identity { subject_id: chars_to_string(&sub), role })
}

/// An issued token parses back to exactly the claims it was issued with.
pub proof fn lemma_token_round_trip(
    sub: Seq<char>,
    role: Role,
    secret: Seq<char>,
    iat: u64,
    exp: u64,
)
    requires
        mac_tag(secret, payload_seq(sub, role, iat, exp)).len() == 64,
    ensures
        parse_fields(token_seq(sub, role, secret, iat, exp)) matches Some(f) && f.iat == iat
            && f.exp == exp && f.role == role && f.sub == sub && f.tag == mac_tag(
            secret,
            payload_seq(sub, role, iat, exp),
        ),
{
    let p = payload_seq(sub, role, iat, exp);
    let m = mac_tag(secret, p);
    let t = token_seq(sub, role, secret, iat, exp);
    lemma_hex_digits_len(iat, 16);
    lemma_hex_digits_len(exp, 16);
    lemma_hex_digits_are_hex(iat, 16);
    lemma_hex_digits_are_hex(exp, 16);
    assert(p.len() == 36 + sub.len());
    assert(t.len() == 101 + sub.len());
    assert(t.subrange(0, 16) =~= hex_digits(iat, 16));
    assert(t.subrange(17, 33) =~= hex_digits(exp, 16));
    assert(t[16] == '.');
    assert(t[33] == '.');
    assert(t[34] == role_char(role));
    assert(t[35] == '.');
    assert(t[t.len() - 65] == '.');
    assert(t.subrange(36, t.len() - 65) =~= sub);
    assert(t.subrange(t.len() - 64, t.len() as int) =~= m);
    lemma_hex_round_trip(iat);
    lemma_hex_round_trip(exp);
}

/// A token validated with the secret it was issued under, before its expiry,
/// grants exactly the subject and role it was issued for.
pub proof fn lemma_issue_then_validate(
    sub: Seq<char>,
    role: Role,
    secret: Seq<char>,
    iat: u64,
    exp: u64,
    now: u64,
)
    requires
        mac_tag(secret, payload_seq(sub, role, iat, exp)).len() == 64,
        now < exp,
    ensures
        token_claims(token_seq(sub, role, secret, iat, exp), secret, now) == Some((sub, role)),
{
    lemma_token_round_trip(sub, role, secret, iat, exp);
}

/// A token validated at or after its expiry is never granted.
pub proof fn lemma_expired_token_rejected(
    sub: Seq<char>,
    role: Role,
    secret: Seq<char>,
    iat: u64,
    exp: u64,
    now: u64,
)
    requires
        mac_tag(secret, payload_seq(sub, role, iat, exp)).len() == 64,
        now >= exp,
    ensures
        token_claims(token_seq(sub, role, secret, iat, exp), secret, now) is None,
{
    lemma_token_round_trip(sub, role, secret, iat, exp);
}

/// A token checked under a secret whose tag for the payload differs from the
/// issuing secret's tag is never granted, whatever the time. (Two secrets
/// whose tags coincide on the payload — a tag collision — are outside this
/// statement.)
pub proof fn lemma_wrong_secret_rejected(
    sub: Seq<char>,
    role: Role,
    secret: Seq<char>,
    other: Seq<char>,
    iat: u64,
    exp: u64,
    now: u64,
)
    requires
        mac_tag(secret, payload_seq(sub, role, iat, exp)).len() == 64,
        mac_tag(other, payload_seq(sub, role, iat, exp)) != mac_tag(
            secret,
            payload_seq(sub, role, iat, exp),
        ),
    ensures
        token_claims(token_seq(sub, role, secret, iat, exp), other, now) is None,
{
    lemma_token_round_trip(sub, role, secret, iat, exp);
}

} // verus!
