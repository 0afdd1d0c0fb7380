//! Session tokens: HS256 JWTs that the service issues and checks on each analysis request.

use vstd::prelude::*;

use crate::reply::{bare_error_response, error_view, Body, BodyView, Reply, ReplyView, STATUS_OK};
use crate::reply::STATUS_INTERNAL_SERVER_ERROR;
use crate::text::{int_decimal, int_decimal_text, concat, contains, drop_chars, has_prefix, occurs_in, same_text, starts_with};

verus! {

/// The error type of the `jsonwebtoken` crate.
#[verifier::external_type_specification]
#[verifier::external_body]
pub struct ExJwtError(jsonwebtoken::errors::Error);

/// Lifetime of a session token, in seconds.
pub const JWT_EXPIRY_SECS: i64 = 3600;

/// Upper bound on the Unix timestamps that `chrono` can represent.
pub const MAX_CLOCK_SECS: i64 = 10_000_000_000_000;

/// Claims of a session token: issued-at and expiry, in seconds since the Unix epoch.
#[derive(Debug, Clone, PartialEq, Eq)]
pub struct Claims {
    pub iat: i64,
    pub exp: i64,
}

/// Which checks the decoder applies besides the signature.
#[derive(Debug, Clone, PartialEq, Eq)]
pub struct JwtRules {
    pub validate_exp: bool,
    pub validate_nbf: bool,
    pub validate_aud: bool,
    pub required_claims: Vec<String>,
}

/// The view of a claim's value: the integer, or the text of the error of reading it as one.
pub open spec fn claim_value_view(v: Result<i64, String>) -> Result<i64, Seq<char>> {
    match v {
        Ok(n) => Ok(n),
        Err(e) => Err(e@),
    }
}

/// The claims of a decoded token, each name with its value as an `i64` or the error text.
pub open spec fn claims_view(c: Seq<(String, Result<i64, String>)>) -> Seq<(Seq<char>, Result<i64, Seq<char>>)> {
    c.map_values(|p: (String, Result<i64, String>)| (p.0@, claim_value_view(p.1)))
}

/// The view of a decoder outcome: the claims, or the text of the error.
pub open spec fn decode_view(r: Result<Vec<(String, Result<i64, String>)>, String>) -> Result<
    Seq<(Seq<char>, Result<i64, Seq<char>>)>,
    Seq<char>,
> {
    match r {
        Ok(c) => Ok(claims_view(c@)),
        Err(t) => Err(t@),
    }
}

/// The claims hold a member called `name`.
pub open spec fn has_claim(c: Seq<(Seq<char>, Result<i64, Seq<char>>)>, name: Seq<char>) -> bool {
    exists|i: int| 0 <= i < c.len() && #[trigger] c[i].0 == name
}

/// A successful decoding with claims `c`.
pub open spec fn decoded(c: Seq<(Seq<char>, Result<i64, Seq<char>>)>) -> Result<Seq<(Seq<char>, Result<i64, Seq<char>>)>, Seq<char>> {
    Ok(c)
}

/// A failed decoding with error text `t`.
pub open spec fn decode_failed(t: Seq<char>) -> Result<Seq<(Seq<char>, Result<i64, Seq<char>>)>, Seq<char>> {
    Err(t)
}

/// The claims of the tokens that the service issues, in the decoder's key order.
pub open spec fn issued_claims(iat: i64, exp: i64) -> Seq<(Seq<char>, Result<i64, Seq<char>>)> {
    seq![("exp"@, Ok(exp)), ("iat"@, Ok(iat))]
}

/// The claims object of a session token as the service writes it: `{"iat":...,"exp":...}`,
/// the two integers in decimal, as serde writes the fields of the claims in their order.
pub open spec fn claims_json(iat: i64, exp: i64) -> Seq<char> {
    "{\"iat\":"@ + int_decimal(iat as int) + ",\"exp\":"@ + int_decimal(exp as int) + "}"@
}

/// The token that `jsonwebtoken::encode` makes with the default HS256 header, the key
/// `secret`, and the claims object whose JSON text is `claims`.
pub uninterp spec fn jwt_hs256_token(secret: Seq<u8>, claims: Seq<char>) -> Seq<char>;

/// What `jsonwebtoken::decode` makes of `token` under the key `secret` with HS256 when it
/// checks only the signature and the form of the token: each member of the claims object, in
/// key order, with its value read as an `i64` by `serde_json::from_value` (the number, or the
/// text of serde's error for any other value); or the text (`Display`) of the decoder's error.
pub uninterp spec fn jwt_hs256_decode(token: Seq<char>, secret: Seq<u8>) -> Result<
    Seq<(Seq<char>, Result<i64, Seq<char>>)>,
    Seq<char>,
>;

/// Current Unix time in seconds, from `chrono::Utc::now().timestamp()`. The contract claims
/// only the range of the clock that `Utc::now` can return: it starts at the epoch (it panics
/// before it) and chrono's dates end in the year 262142. The value depends on the clock.
#[verifier::external_body]
fn current_unix_time() -> (t: i64)
    ensures
        0 <= t < MAX_CLOCK_SECS,
{
    chrono::Utc::now().timestamp()
}

/// `jsonwebtoken::encode` with the default header (HS256), `EncodingKey::from_secret(secret)`
/// and the claims object whose JSON text is `claims` (a `serde_json` `RawValue`, which serde
/// writes out as it is). The contract claims what the sources show: for the JSON text of two
/// integer claims it cannot fail (the text is valid JSON, the key family matches HS256, the
/// header serialises, HMAC signing returns `Ok`); the token is named; it decodes under the same
/// secret to its two claims; and under any key its decoding either gives those claims or fails
/// with `InvalidSignature` (header and payload are well formed, so only the HMAC comparison can
/// fail).
#[verifier::external_body]
fn jwt_encode(secret: &[u8], claims: &str) -> (res: Result<String, jsonwebtoken::errors::Error>)
    ensures
        (exists|iat: i64, exp: i64| #[trigger] claims_json(iat, exp) == claims@) ==> res is Ok,
        res matches Ok(t) ==> t@ == jwt_hs256_token(secret@, claims@),
        res matches Ok(t) ==> forall|iat: i64, exp: i64|
            #[trigger] claims_json(iat, exp) == claims@ ==> jwt_hs256_decode(t@, secret@)
                == decoded(issued_claims(iat, exp)),
        res matches Ok(t) ==> forall|iat: i64, exp: i64, key: Seq<u8>|
            #![trigger claims_json(iat, exp), jwt_hs256_decode(t@, key)]
            claims_json(iat, exp) == claims@ ==> (jwt_hs256_decode(t@, key) == decoded(
                issued_claims(iat, exp),
            ) || jwt_hs256_decode(t@, key) == decode_failed("InvalidSignature"@)),
{
    let key = jsonwebtoken::EncodingKey::from_secret(secret);
    let raw = serde_json::value::RawValue::from_string(claims.to_string())?;
    jsonwebtoken::encode(&jsonwebtoken::Header::default(), &raw, &key)
}

/// `jsonwebtoken::decode` of a claims object under `DecodingKey::from_secret(secret)` and
/// `Validation::default()` (HS256, 60 s leeway) changed by `rules`; each claim is handed out
/// with its value read by `serde_json::from_value::<i64>`, and each error as its text.
/// The contract claims what the source shows. The decoder first checks the signature, parses
/// the claims object and parses the claims it validates; those steps do not read the clock and
/// their outcome is the named one, whatever `rules` say. Only then does `validate` apply the
/// rules: with no claim required and not-before off, it can fail only on an expired `exp`
/// (which reads the clock) or, with the audience check on, on an `aud` claim (none is
/// expected). The expiry check reads the system clock; like `Utc::now` it panics if the clock
/// reads before the Unix epoch, which no argument decides.
#[verifier::external_body]
fn jwt_decode(token: &str, secret: &[u8], rules: &JwtRules) -> (res: Result<
    Vec<(String, Result<i64, String>)>,
    String,
>)
    ensures
        jwt_hs256_decode(token@, secret@) matches Err(t) ==> decode_view(res) == decode_failed(t),
        res matches Ok(c) ==> jwt_hs256_decode(token@, secret@) == decoded(claims_view(c@)),
        (!rules.validate_nbf && rules.required_claims@.len() == 0) ==> (jwt_hs256_decode(
            token@,
            secret@,
        ) matches Ok(c) && res matches Err(t) ==> (rules.validate_exp && t@ == "ExpiredSignature"@)
            || (rules.validate_aud && has_claim(c, "aud"@) && t@ == "InvalidAudience"@)),
{
    let mut validation = jsonwebtoken::Validation::default();
    validation.set_required_spec_claims(rules.required_claims.as_slice());
    validation.validate_exp = rules.validate_exp;
    validation.validate_nbf = rules.validate_nbf;
    validation.validate_aud = rules.validate_aud;
    let key = jsonwebtoken::DecodingKey::from_secret(secret);
    jsonwebtoken::decode::<serde_json::Map<String, serde_json::Value>>(token, &key, &validation)
        .map(|data| {
            data.claims.into_iter().map(|(k, v)| (k, serde_json::from_value(v).map_err(|e| e.to_string()))).collect()
        })
        .map_err(|e| e.to_string())
}

/// The text of a `jsonwebtoken` error (its `Display`). Nothing is claimed of the text: the
/// error value is opaque here.
#[verifier::external_body]
fn jwt_error_text(e: &jsonwebtoken::errors::Error) -> String {
    e.to_string()
}

/// Claims of a token issued at `now`: it expires `JWT_EXPIRY_SECS` later.
pub fn session_claims(now: i64) -> (c: Claims)
    requires
        now <= i64::MAX - JWT_EXPIRY_SECS,
    ensures
        c.iat == now,
        c.exp == now + JWT_EXPIRY_SECS,
        c.exp - c.iat == 3600,
{
    Claims { iat: now, exp: now + JWT_EXPIRY_SECS }
}

/// The token issued at time `now` under `secret`.
pub open spec fn issued_token(secret: Seq<u8>, now: i64) -> Seq<char> {
    jwt_hs256_token(secret, claims_json(now, (now + JWT_EXPIRY_SECS) as i64))
}

/// The JSON text of the claims of a session token.
pub fn claims_json_text(claims: &Claims) -> (s: String)
    ensures
        s@ == claims_json(claims.iat, claims.exp),
{
    let iat = int_decimal_text(claims.iat);
    let exp = int_decimal_text(claims.exp);
    let s = concat("{\"iat\":", iat.as_str());
    let s = concat(s.as_str(), ",\"exp\":");
    let s = concat(s.as_str(), exp.as_str());
    concat(s.as_str(), "}")
}

/// The views of a `Result<String, String>`.
pub open spec fn result_view(r: Result<String, String>) -> Result<Seq<char>, Seq<char>> {
    match r {
        Ok(s) => Ok(s@),
        Err(s) => Err(s@),
    }
}

/// Issues a session token for the time `now`. It always succeeds; the token decodes under
/// `secret` to the integer claims `iat == now` and `exp == now + 3600`, and under any other
/// key it either decodes the same way or is refused with `InvalidSignature`.
pub fn create_jwt_at(secret: &[u8], now: i64) -> (res: Result<String, String>)
    requires
        now <= i64::MAX - JWT_EXPIRY_SECS,
    ensures
        res is Ok,
        res matches Ok(t) ==> t@ == issued_token(secret@, now),
        res matches Ok(t) ==> jwt_hs256_decode(t@, secret@) == decoded(issued_claims(now, (now + JWT_EXPIRY_SECS) as i64)),
        res matches Ok(t) ==> session_claims_present(
            issued_claims(now, (now + JWT_EXPIRY_SECS) as i64),
        ),
        res matches Ok(t) ==> forall|key: Seq<u8>|
            #[trigger] jwt_hs256_decode(t@, key) == decoded(issued_claims(now, (now + JWT_EXPIRY_SECS) as i64)) || jwt_hs256_decode(t@, key)
                == decode_failed("InvalidSignature"@),
{
    let claims = session_claims(now);
    let text = claims_json_text(&claims);
    proof {
        assert(claims_json(claims.iat, claims.exp) == text@);
    }
    match jwt_encode(secret, text.as_str()) {
        Ok(token) => {
            proof {
                lemma_issued_claims_present(claims.iat, claims.exp);
            }
            Ok(token)
        },
        Err(e) => {
            let text = jwt_error_text(&e);
            Err(concat("Failed to create token: ", &text))
        },
    }
}

/// Issues a session token for the current time: an HS256 JWT whose `exp` is one hour after
/// its `iat`. It always succeeds.
pub fn create_jwt(secret: &[u8]) -> (res: Result<String, String>)
    ensures
        res is Ok,
        exists|now: i64|
            0 <= now < MAX_CLOCK_SECS && result_view(res) == Ok::<Seq<char>, Seq<char>>(
                #[trigger] issued_token(secret@, now),
            ),
{
    let now = current_unix_time();
    create_jwt_at(secret, now)
}

/// `name` is one of the two claims of a session token, `iat` or `exp`.
pub open spec fn is_session_field(name: Seq<char>) -> bool {
    name == "iat"@ || name == "exp"@
}

/// Entry `i` of the claims is `iat` or `exp` with a value that is not an `i64`.
pub open spec fn bad_field_at(c: Seq<(Seq<char>, Result<i64, Seq<char>>)>, i: int) -> bool {
    0 <= i < c.len() && is_session_field(c[i].0) && c[i].1 is Err
}

/// Entry `i` is the first entry of the claims that `bad_field_at` holds of.
pub open spec fn first_bad_field_at(c: Seq<(Seq<char>, Result<i64, Seq<char>>)>, i: int) -> bool {
    bad_field_at(c, i) && forall|j: int| 0 <= j < i ==> !#[trigger] bad_field_at(c, j)
}

/// The error of reading the first bad `iat` or `exp` claim as an `i64`, if there is one.
pub open spec fn field_error(c: Seq<(Seq<char>, Result<i64, Seq<char>>)>) -> Option<Seq<char>> {
    if exists|i: int| #[trigger] first_bad_field_at(c, i) {
        Some(c[choose|i: int| #[trigger] first_bad_field_at(c, i)].1->Err_0)
    } else {
        None
    }
}

/// serde's text for a struct field that the input lacks.
pub open spec fn missing_field_text(name: Seq<char>) -> Seq<char> {
    "missing field `"@ + name + "`"@
}

/// The claims hold the two fields of a session token, `iat` and `exp`, both `i64`.
pub open spec fn session_claims_present(c: Seq<(Seq<char>, Result<i64, Seq<char>>)>) -> bool {
    field_error(c) is None && has_claim(c, "iat"@) && has_claim(c, "exp"@)
}

/// There is at most one first bad entry.
proof fn lemma_first_bad_unique(c: Seq<(Seq<char>, Result<i64, Seq<char>>)>, i: int, k: int)
    requires
        first_bad_field_at(c, i),
        first_bad_field_at(c, k),
    ensures
        i == k,
{
    if i < k {
        assert(!bad_field_at(c, i));
    } else if k < i {
        assert(!bad_field_at(c, k));
    }
}

/// The claims of an issued token hold `iat` and `exp` as integers, and no `aud` claim.
proof fn lemma_issued_claims_present(iat: i64, exp: i64)
    ensures
        session_claims_present(issued_claims(iat, exp)),
        !has_claim(issued_claims(iat, exp), "aud"@),
{
    let c = issued_claims(iat, exp);
    assert(c[0].0 == "exp"@ && c[0].1 is Ok);
    assert(c[1].0 == "iat"@ && c[1].1 is Ok);
    assert forall|i: int| !#[trigger] first_bad_field_at(c, i) by {
        if 0 <= i < c.len() {
            assert(i == 0 || i == 1);
        }
    }
    reveal_strlit("aud");
    reveal_strlit("exp");
    reveal_strlit("iat");
    assert(c[0].0 != "aud"@ && c[1].0 != "aud"@) by {
        assert(c[0].0[0] != "aud"@[0]);
        assert(c[1].0[0] != "aud"@[0]);
    }
}

/// Whether the decoded claims hold a claim called `name`.
fn find_claim(claims: &Vec<(String, Result<i64, String>)>, name: &str) -> (r: bool)
    ensures
        r == has_claim(claims_view(claims@), name@),
{
    let n = claims.len();
    let ghost cv = claims_view(claims@);
    for i in 0..n
        invariant
            n == claims@.len(),
            cv == claims_view(claims@),
            cv.len() == n,
            forall|j: int| 0 <= j < i ==> !(#[trigger] cv[j].0 == name@),
    {
        if same_text(claims[i].0.as_str(), name) {
            assert(cv[i as int].0 == name@);
            return true;
        }
    }
    false
}

/// The index of the first `iat` or `exp` claim whose value is not an `i64`, if any.
fn first_bad_field(claims: &Vec<(String, Result<i64, String>)>) -> (r: Option<usize>)
    ensures
        match r {
            Some(i) => first_bad_field_at(claims_view(claims@), i as int),
            None => forall|i: int| !#[trigger] bad_field_at(claims_view(claims@), i),
        },
{
    let n = claims.len();
    let ghost cv = claims_view(claims@);
    for i in 0..n
        invariant
            n == claims@.len(),
            cv == claims_view(claims@),
            cv.len() == n,
            forall|j: int| 0 <= j < i ==> !#[trigger] bad_field_at(cv, j),
    {
        let entry = &claims[i];
        if entry.1.is_err() && (same_text(entry.0.as_str(), "iat") || same_text(entry.0.as_str(), "exp")) {
            assert(bad_field_at(cv, i as int));
            return Some(i);
        }
        assert(!bad_field_at(cv, i as int));
    }
    None
}

/// serde's text for the missing struct field `name`.
fn missing_field_message(name: &str) -> (s: String)
    ensures
        s@ == missing_field_text(name@),
{
    let s = concat("missing field `", name);
    concat(s.as_str(), "`")
}

/// Decoder settings for the check of the signature and form alone.
pub fn form_rules() -> (r: JwtRules)
    ensures
        !r.validate_exp && !r.validate_nbf && !r.validate_aud && r.required_claims@.len() == 0,
{
    JwtRules {
        validate_exp: false,
        validate_nbf: false,
        validate_aud: false,
        required_claims: Vec::new(),
    }
}

/// Decoder settings for a session token: expiry checked, not-before not checked, no claim
/// required, the default audience check kept.
pub fn session_rules() -> (r: JwtRules)
    ensures
        r.validate_exp && !r.validate_nbf && r.validate_aud && r.required_claims@.len() == 0,
{
    JwtRules {
        validate_exp: true,
        validate_nbf: false,
        validate_aud: true,
        required_claims: Vec::new(),
    }
}

/// The message of a failed token check, from the text of the decoder's error.
pub open spec fn failure_message(text: Seq<char>) -> Seq<char> {
    if occurs_in(text, "ExpiredSignature"@) {
        "token expired"@
    } else {
        "invalid token: "@ + text
    }
}

/// Maps the text of a decoder error to the check's message.
pub fn jwt_failure_message(text: &str) -> (m: String)
    ensures
        m@ == failure_message(text@),
{
    if contains(text, "ExpiredSignature") {
        "token expired".to_owned()
    } else {
        concat("invalid token: ", text)
    }
}

/// The message of an expired token.
pub open spec fn expired_message() -> Seq<char> {
    "token expired"@
}

/// The message of a token that carries an audience claim, which no session token has.
pub open spec fn audience_message() -> Seq<char> {
    "invalid token: InvalidAudience"@
}

/// The check of a decoder outcome's form, as reading the claims into integer fields `iat` and
/// `exp` does: the decoder's error fails it; so does an `iat` or `exp` that is not an `i64`
/// (with serde's error for the first such claim), and then a missing `iat`, then a missing
/// `exp` (with serde's text for a missing field). Other claims are ignored.
pub open spec fn form_check_view(d: Result<Seq<(Seq<char>, Result<i64, Seq<char>>)>, Seq<char>>) -> Result<
    (),
    Seq<char>,
> {
    match d {
        Err(t) => Err(failure_message(t)),
        Ok(c) => match field_error(c) {
            Some(e) => Err(failure_message("JSON error: "@ + e)),
            None => if !has_claim(c, "iat"@) {
                Err(failure_message("JSON error: "@ + missing_field_text("iat"@)))
            } else if !has_claim(c, "exp"@) {
                Err(failure_message("JSON error: "@ + missing_field_text("exp"@)))
            } else {
                Ok(())
            },
        },
    }
}

/// The check of what the expiry-checking decode gave.
pub open spec fn expiry_check_view(d: Result<Seq<(Seq<char>, Result<i64, Seq<char>>)>, Seq<char>>) -> Result<
    (),
    Seq<char>,
> {
    match d {
        Err(t) => Err(failure_message(t)),
        Ok(_) => Ok(()),
    }
}

/// Checks the outcome of decoding a token's signature and form.
pub fn check_form(decoded: &Result<Vec<(String, Result<i64, String>)>, String>) -> (r: Result<(), String>)
    ensures
        unit_result_view(r) == form_check_view(decode_view(*decoded)),
{
    match decoded {
        Err(text) => Err(jwt_failure_message(text.as_str())),
        Ok(claims) => {
            let ghost cv = claims_view(claims@);
            match first_bad_field(claims) {
                Some(i) => {
                    proof {
                        assert forall|k: int| #[trigger] first_bad_field_at(cv, k) implies k == i by {
                            lemma_first_bad_unique(cv, k, i as int);
                        }
                    }
                    match &claims[i].1 {
                        Err(e) => {
                            let text = concat("JSON error: ", e.as_str());
                            Err(jwt_failure_message(text.as_str()))
                        },
                        Ok(_) => Ok(()),
                    }
                },
                None => {
                    if !find_claim(claims, "iat") {
                        let text = concat("JSON error: ", missing_field_message("iat").as_str());
                        Err(jwt_failure_message(text.as_str()))
                    } else if !find_claim(claims, "exp") {
                        let text = concat("JSON error: ", missing_field_message("exp").as_str());
                        Err(jwt_failure_message(text.as_str()))
                    } else {
                        Ok(())
                    }
                },
            }
        },
    }
}

/// Checks the outcome of the expiry-checking decode.
pub fn check_expiry(decoded: &Result<Vec<(String, Result<i64, String>)>, String>) -> (r: Result<(), String>)
    ensures
        unit_result_view(r) == expiry_check_view(decode_view(*decoded)),
{
    match decoded {
        Err(text) => Err(jwt_failure_message(text.as_str())),
        Ok(_) => Ok(()),
    }
}

/// What a check of `token` under `secret` answers. A bad signature or form fails with the
/// decoder's message, and claims without integer `iat` and `exp` fail with serde's text for them.
/// Otherwise the expiry check reads the clock: the token is accepted, or refused as expired,
/// or, only if it carries an `aud` claim, refused for its audience.
pub open spec fn token_check(token: Seq<char>, secret: Seq<u8>, res: Result<(), Seq<char>>) -> bool {
    let d = jwt_hs256_decode(token, secret);
    match d {
        Err(_) => res == form_check_view(d),
        Ok(c) => if !session_claims_present(c) {
            res == form_check_view(d)
        } else {
            ||| res is Ok
            ||| res == Err::<(), Seq<char>>(expired_message())
            ||| has_claim(c, "aud"@) && res == Err::<(), Seq<char>>(audience_message())
        },
    }
}

/// The view of a `Result<(), String>`.
pub open spec fn unit_result_view(r: Result<(), String>) -> Result<(), Seq<char>> {
    match r {
        Ok(()) => Ok(()),
        Err(s) => Err(s@),
    }
}

/// The decoder's texts for an expired token and for an unexpected audience become the
/// check's messages for them.
proof fn lemma_validation_messages()
    ensures
        failure_message("ExpiredSignature"@) == expired_message(),
        failure_message("InvalidAudience"@) == audience_message(),
{
    reveal_strlit("ExpiredSignature");
    reveal_strlit("InvalidAudience");
    reveal_strlit("invalid token: ");
    reveal_strlit("invalid token: InvalidAudience");
    assert("ExpiredSignature"@.subrange(0int, 0int + "ExpiredSignature"@.len()) =~= "ExpiredSignature"@);
    assert(!occurs_in("InvalidAudience"@, "ExpiredSignature"@));
    assert("invalid token: "@ + "InvalidAudience"@ =~= "invalid token: InvalidAudience"@);
}

/// Checks a session token: its HS256 signature under `secret`, its `iat` and `exp` claims,
/// and that it has not expired.
pub fn verify_jwt(token: &str, secret: &[u8]) -> (res: Result<(), String>)
    ensures
        token_check(token@, secret@, unit_result_view(res)),
{
    let form = form_rules();
    let decoded = jwt_decode(token, secret, &form);
    let checked = check_form(&decoded);
    if checked.is_err() {
        return checked;
    }
    let rules = session_rules();
    let timed = jwt_decode(token, secret, &rules);
    proof {
        lemma_validation_messages();
    }
    check_expiry(&timed)
}

/// A token whose signature does not verify under `secret` is refused as an invalid token,
/// never as an expired one.
pub proof fn lemma_bad_signature_is_invalid(token: Seq<char>, secret: Seq<u8>, res: Result<(), Seq<char>>)
    requires
        jwt_hs256_decode(token, secret) == decode_failed(
            "InvalidSignature"@,
        ),
        token_check(token, secret, res),
    ensures
        res == Err::<(), Seq<char>>("invalid token: InvalidSignature"@),
{
    reveal_strlit("InvalidSignature");
    reveal_strlit("ExpiredSignature");
    reveal_strlit("invalid token: ");
    reveal_strlit("invalid token: InvalidSignature");
    assert(!occurs_in("InvalidSignature"@, "ExpiredSignature"@)) by {
        let h = "InvalidSignature"@;
        let n = "ExpiredSignature"@;
        assert forall|i: int| 0 <= i && i + n.len() <= h.len() implies #[trigger] h.subrange(
            i,
            i + n.len(),
        ) != n by {
            assert(h.subrange(i, i + n.len())[0] == h[0]);
        }
    }
    assert("invalid token: "@ + "InvalidSignature"@ =~= "invalid token: InvalidSignature"@);
}

/// A token the service issued is, under any key, either decoded to its own claims, or
/// refused as an invalid token with `InvalidSignature`: a wrong key never makes it look
/// expired or malformed.
pub proof fn lemma_issued_token_under_other_key(
    token: Seq<char>,
    key: Seq<u8>,
    now: i64,
    res: Result<(), Seq<char>>,
)
    requires
        now <= i64::MAX - JWT_EXPIRY_SECS,
        jwt_hs256_decode(token, key) == decoded(
            issued_claims(now, (now + JWT_EXPIRY_SECS) as i64),
        ) || jwt_hs256_decode(token, key) == decode_failed(
            "InvalidSignature"@,
        ),
        token_check(token, key, res),
    ensures
        res is Ok || res == Err::<(), Seq<char>>(expired_message()) || res == Err::<
            (),
            Seq<char>,
        >("invalid token: InvalidSignature"@),
{
    if jwt_hs256_decode(token, key) == decode_failed(
        "InvalidSignature"@,
    ) {
        lemma_bad_signature_is_invalid(token, key, res);
    } else {
        lemma_issued_claims_present(now, (now + JWT_EXPIRY_SECS) as i64);
    }
}

/// The reply to a request without an `Authorization: Bearer ...` header.
pub open spec fn missing_token_view() -> ReplyView {
    error_view(
        401,
        "AuthenticationError"@,
        "MISSING_TOKEN"@,
        "Authorization header with Bearer token is required"@,
        false,
    )
}

/// The reply to a request whose token check failed with message `m`.
pub open spec fn session_failure_view(m: Seq<char>) -> ReplyView {
    error_view(
        401,
        "AuthenticationError"@,
        "INVALID_TOKEN"@,
        if occurs_in(m, "expired"@) {
            "Session expired, please refresh the page"@
        } else {
            "Invalid session token"@
        },
        false,
    )
}

/// The view of an optional reply.
pub open spec fn option_reply_view(r: Option<Reply>) -> Option<ReplyView> {
    match r {
        Some(x) => Some(x@),
        None => None,
    }
}

/// What the session check may answer for the header value `header`: a request without a
/// `Bearer ` header is refused outright; otherwise the token after `Bearer ` is checked, and
/// a failed check is refused with a message that tells an expired session apart.
pub open spec fn session_gate(header: Seq<char>, secret: Seq<u8>, r: Option<ReplyView>) -> bool {
    if header.len() == 0 || !has_prefix(header, "Bearer "@) {
        r == Some(missing_token_view())
    } else {
        exists|v: Result<(), Seq<char>>|
            token_check(header.skip(7), secret, v) && r == match v {
                Ok(()) => None::<ReplyView>,
                Err(m) => Some(session_failure_view(m)),
            }
    }
}

/// The 401 reply for a failed token check with message `err`.
pub fn session_failure_reply(err: &str) -> (r: Reply)
    ensures
        r@ == session_failure_view(err@),
{
    let message = if contains(err, "expired") {
        "Session expired, please refresh the page"
    } else {
        "Invalid session token"
    };
    bare_error_response(401, "AuthenticationError", "INVALID_TOKEN", message)
}

/// Checks the `Authorization` header value of a request; `None` lets the request through,
/// `Some` is the 401 reply to send instead.
pub fn require_session(auth_header: &str, secret: &[u8]) -> (r: Option<Reply>)
    ensures
        session_gate(auth_header@, secret@, option_reply_view(r)),
{
    if auth_header.is_empty() || !starts_with(auth_header, "Bearer ") {
        return Some(
            bare_error_response(
                401,
                "AuthenticationError",
                "MISSING_TOKEN",
                "Authorization header with Bearer token is required",
            ),
        );
    }
    proof {
        reveal_strlit("Bearer ");
    }
    let token = drop_chars(auth_header, 7);
    match verify_jwt(token.as_str(), secret) {
        Err(e) => {
            let r = session_failure_reply(e.as_str());
            assert(token_check(auth_header@.skip(7), secret@, unit_result_view(Err(e))));
            Some(r)
        },
        Ok(()) => {
            assert(token_check(auth_header@.skip(7), secret@, unit_result_view(Ok(()))));
            None
        },
    }
}

/// The reply of the session endpoint for a token issued at `now`.
pub open spec fn session_reply_view(secret: Seq<u8>, now: i64) -> ReplyView {
    ReplyView { status: 200, body: BodyView::Token { token: issued_token(secret, now) } }
}

/// Session endpoint: a new token, `200 {"token": ...}` (issuing cannot fail).
pub fn handle_session(secret: &[u8]) -> (r: Reply)
    ensures
        exists|now: i64| 0 <= now < MAX_CLOCK_SECS && r@ == session_reply_view(secret@, now),
{
    let now = current_unix_time();
    let issued = create_jwt_at(secret, now);
    let r = match issued {
        Ok(token) => Reply { status: STATUS_OK, body: Body::Token { token } },
        Err(_) => crate::reply::error_response(
            STATUS_INTERNAL_SERVER_ERROR,
            "processing_error",
            "TOKEN_ERROR",
            "Failed to create session token",
        ),
    };
    assert(r@ == session_reply_view(secret@, now));
    r
}

/// The reply that tells the user to refresh an expired session.
pub open spec fn session_expired_view() -> ReplyView {
    error_view(
        401,
        "AuthenticationError"@,
        "INVALID_TOKEN"@,
        "Session expired, please refresh the page"@,
        false,
    )
}

/// A validly signed Bearer token with integer `iat` and `exp` and no `aud` claim either lets
/// the request through or is answered that the session expired; it is never answered as an
/// invalid token.
pub proof fn lemma_signed_token_session_outcome(
    header: Seq<char>,
    secret: Seq<u8>,
    r: Option<ReplyView>,
)
    requires
        has_prefix(header, "Bearer "@),
        jwt_hs256_decode(header.skip(7), secret) is Ok,
        session_claims_present(jwt_hs256_decode(header.skip(7), secret)->Ok_0),
        !has_claim(jwt_hs256_decode(header.skip(7), secret)->Ok_0, "aud"@),
        session_gate(header, secret, r),
    ensures
        r is None || r == Some(session_expired_view()),
{
    reveal_strlit("Bearer ");
    reveal_strlit("token expired");
    reveal_strlit("expired");
    let m = expired_message();
    assert(m.subrange(6int, 6int + "expired"@.len()) =~= "expired"@);
    assert(occurs_in(m, "expired"@));
}

/// An expired token is answered with the "session expired" reply: the decoder's
/// `ExpiredSignature` text becomes the check's "token expired", and the session check
/// tells that message apart from every other failure.
pub proof fn lemma_expired_token_reply(text: Seq<char>)
    requires
        occurs_in(text, "ExpiredSignature"@),
    ensures
        session_failure_view(failure_message(text)) == error_view(
            401,
            "AuthenticationError"@,
            "INVALID_TOKEN"@,
            "Session expired, please refresh the page"@,
            false,
        ),
{
    reveal_strlit("token expired");
    reveal_strlit("expired");
    let m = failure_message(text);
    assert(m == "token expired"@);
    assert(m.subrange(6int, 6int + "expired"@.len()) =~= "expired"@);
}

} // verus!
