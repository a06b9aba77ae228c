//! Token issuer and validator: HS256-signed claims that expire.

use crate::clock::unix_now;
use jsonwebtoken::errors::ErrorKind;
use jsonwebtoken::{decode, encode, Algorithm, DecodingKey, EncodingKey, Header, Validation};
use serde_json::Value;
use vstd::prelude::*;

verus! {

/// Seconds for which a token is valid unless configured otherwise: 24 hours.
pub const DEFAULT_VALIDITY_SECS: u64 = 86_400;

/// Seconds of clock skew tolerated past the expiry unless configured otherwise.
pub const DEFAULT_LEEWAY_SECS: u64 = 60;

/// Why a token could not be issued or was not accepted.
#[derive(Debug, Clone, Copy, PartialEq, Eq, Structural)]
pub enum TokenError {
    /// No signing secret is configured, or the validity window is empty.
    Config,
    /// The instant of issue or of expiry cannot be written as a claim, or the
    /// signer refused.
    Issuance,
    /// The signature does not match the token under the configured secret.
    InvalidSignature,
    /// The expiry, extended by the leeway, has passed.
    Expired,
    /// The token does not have the expected structure.
    Malformed,
}

/// How the decoder refused a token.
#[derive(Debug, Clone, Copy, PartialEq, Eq, Structural)]
pub enum DecodeFault {
    /// The signature was recomputed and differs.
    SignatureMismatch,
    /// Any other refusal: the parts, their encoding, the header or the claims.
    Rejected,
}

/// The assertions carried by a token: who, issued when, valid until when.
/// Instants are seconds since the Unix epoch.
#[derive(Debug)]
pub struct Claims {
    pub sub: String,
    pub iat: usize,
    pub exp: usize,
}

/// The mathematical content of `Claims`.
pub struct ClaimsView {
    pub sub: Seq<char>,
    pub iat: int,
    pub exp: int,
}

impl View for Claims {
    type V = ClaimsView;

    open spec fn view(&self) -> ClaimsView {
        ClaimsView { sub: self.sub@, iat: self.iat as int, exp: self.exp as int }
    }
}

/// The three claims as found in a token whose signature was checked; a claim
/// that is absent or of another JSON type is `None`.
#[derive(Debug)]
pub struct RawClaims {
    pub sub: Option<String>,
    pub iat: Option<u64>,
    pub exp: Option<u64>,
}

/// The mathematical content of `RawClaims`.
pub struct RawClaimsView {
    pub sub: Option<Seq<char>>,
    pub iat: Option<u64>,
    pub exp: Option<u64>,
}

impl View for RawClaims {
    type V = RawClaimsView;

    open spec fn view(&self) -> RawClaimsView {
        RawClaimsView {
            sub: match self.sub {
                Some(s) => Some(s@),
                None => None,
            },
            iat: self.iat,
            exp: self.exp,
        }
    }
}

/// The compact HS256 token over the claims `sub`, `iat`, `exp` under `secret`;
/// `None` where the encoder refuses.
pub uninterp spec fn hs256_token(sub: Seq<char>, iat: u64, exp: u64, secret: Seq<char>) -> Option<
    Seq<char>,
>;

/// What decoding `token` under `secret` yields when the signature, the header
/// and the presence of an expiry are checked but the clock is not consulted.
pub uninterp spec fn hs256_opened(token: Seq<char>, secret: Seq<char>) -> Result<
    RawClaimsView,
    DecodeFault,
>;

/// Whether the decoder's answer `opened` is an acceptance with the claims `raw`.
pub open spec fn opens_to(opened: Result<RawClaimsView, DecodeFault>, raw: RawClaimsView) -> bool {
    opened == Ok::<RawClaimsView, DecodeFault>(raw)
}

/// The raw claims that a token issued for `sub`, `iat`, `exp` carries.
pub open spec fn carried(sub: Seq<char>, iat: u64, exp: u64) -> RawClaimsView {
    RawClaimsView { sub: Some(sub), iat: Some(iat), exp: Some(exp) }
}

/// Calls `jsonwebtoken::encode` with an HS256 header, the three claims as a
/// JSON object and `EncodingKey::from_secret` on the bytes of `secret`. The
/// contract claims that the token is a function of the arguments alone, and
/// that decoding it under the same secret gives the three claims back: the
/// decoder recomputes the same MAC over the same two parts and reads the same
/// JSON.
#[verifier::external_body]
fn sign_hs256(sub: &str, iat: u64, exp: u64, secret: &str) -> (r: Option<String>)
    ensures
        match r {
            Some(token) => hs256_token(sub@, iat, exp, secret@) == Some(token@),
            None => hs256_token(sub@, iat, exp, secret@) is None,
        },
        r matches Some(token) ==> opens_to(hs256_opened(token@, secret@), carried(sub@, iat, exp)),
{
    let mut claims = serde_json::Map::new();
    claims.insert("sub".to_owned(), Value::from(sub));
    claims.insert("iat".to_owned(), Value::from(iat));
    claims.insert("exp".to_owned(), Value::from(exp));
    let key = EncodingKey::from_secret(secret.as_bytes());
    encode(&Header::new(Algorithm::HS256), &claims, &key).ok()
}

/// Calls `jsonwebtoken::decode` under `DecodingKey::from_secret` on the bytes
/// of `secret`, with `Validation::new(Algorithm::HS256)` whose expiry check is
/// switched off, so that no clock is read. From an accepted token it picks the
/// string `sub` and the non-negative integers `iat` and `exp`; of a refusal it
/// keeps whether the kind was `InvalidSignature`.
#[verifier::external_body]
fn open_hs256(token: &str, secret: &str) -> (r: Result<RawClaims, DecodeFault>)
    ensures
        hs256_opened(token@, secret@) == opened_view(r),
{
    let mut validation = Validation::new(Algorithm::HS256);
    validation.validate_exp = false;
    match decode::<Value>(token, &DecodingKey::from_secret(secret.as_bytes()), &validation) {
        Ok(data) => Ok(RawClaims {
            sub: data.claims.get("sub").and_then(Value::as_str).map(str::to_owned),
            iat: data.claims.get("iat").and_then(Value::as_u64),
            exp: data.claims.get("exp").and_then(Value::as_u64),
        }),
        Err(e) => Err(match e.kind() {
            ErrorKind::InvalidSignature => DecodeFault::SignatureMismatch,
            _ => DecodeFault::Rejected,
        }),
    }
}

/// Whether a token that expires at `exp` counts as expired at `now` when
/// `leeway` seconds of clock skew are tolerated.
pub open spec fn expired(exp: int, now: int, leeway: nat) -> bool {
    now > exp + leeway
}

/// The claims of a token issued at `now` that is to be valid for `validity`
/// seconds; `None` where either instant cannot be written down.
pub open spec fn issued_claims(sub: Seq<char>, now: int, validity: nat) -> Option<ClaimsView> {
    if 0 <= now && now + validity <= usize::MAX {
        Some(ClaimsView { sub, iat: now, exp: now + validity })
    } else {
        None
    }
}

/// What issuance yields once the signer has answered.
pub open spec fn signing_outcome(signed: Option<Seq<char>>) -> Result<Seq<char>, TokenError> {
    match signed {
        Some(token) => Ok(token),
        None => Err(TokenError::Issuance),
    }
}

/// What issuing a token for `sub` at `now` yields.
pub open spec fn issuance_outcome(sub: Seq<char>, now: int, validity: nat, secret: Seq<char>) -> Result<
    Seq<char>,
    TokenError,
> {
    match issued_claims(sub, now, validity) {
        Some(c) => signing_outcome(hs256_token(c.sub, c.iat as u64, c.exp as u64, secret)),
        None => Err(TokenError::Issuance),
    }
}

/// What the decoder's answer amounts to before the clock is consulted: the
/// claims where all three are present and fit, else the class of the refusal.
pub open spec fn structural_outcome(opened: Result<RawClaimsView, DecodeFault>) -> Result<
    ClaimsView,
    TokenError,
> {
    match opened {
        Err(DecodeFault::SignatureMismatch) => Err(TokenError::InvalidSignature),
        Err(DecodeFault::Rejected) => Err(TokenError::Malformed),
        Ok(raw) => match (raw.sub, raw.iat, raw.exp) {
            (Some(sub), Some(iat), Some(exp)) => if iat <= usize::MAX && exp <= usize::MAX {
                Ok(ClaimsView { sub, iat: iat as int, exp: exp as int })
            } else {
                Err(TokenError::Malformed)
            },
            _ => Err(TokenError::Malformed),
        },
    }
}

/// What validation at `now` yields for the decoder's answer `opened`: a
/// refusal keeps its class, claims past their expiry and the leeway are
/// expired, any other claims are returned.
pub open spec fn validation_outcome(
    opened: Result<RawClaimsView, DecodeFault>,
    now: int,
    leeway: nat,
) -> Result<ClaimsView, TokenError> {
    match structural_outcome(opened) {
        Ok(c) => lifetime_outcome(c, now, leeway),
        Err(e) => Err(e),
    }
}

/// What validation at `now` yields for claims that the decoder accepted.
pub open spec fn lifetime_outcome(claims: ClaimsView, now: int, leeway: nat) -> Result<
    ClaimsView,
    TokenError,
> {
    if expired(claims.exp, now, leeway) {
        Err(TokenError::Expired)
    } else {
        Ok(claims)
    }
}

/// The claims with the given subject and instants.
pub open spec fn claims_of(sub: Seq<char>, iat: int, exp: int) -> ClaimsView {
    ClaimsView { sub, iat, exp }
}

/// The decoder's answer as a mathematical value.
pub open spec fn opened_view(opened: Result<RawClaims, DecodeFault>) -> Result<
    RawClaimsView,
    DecodeFault,
> {
    match opened {
        Ok(raw) => Ok(raw@),
        Err(fault) => Err(fault),
    }
}

/// A validation result as a mathematical value.
pub open spec fn claims_view(r: Result<Claims, TokenError>) -> Result<ClaimsView, TokenError> {
    match r {
        Ok(c) => Ok(c@),
        Err(e) => Err(e),
    }
}

/// An issuance result as a mathematical value.
pub open spec fn token_text(r: Result<String, TokenError>) -> Result<Seq<char>, TokenError> {
    match r {
        Ok(token) => Ok(token@),
        Err(e) => Err(e),
    }
}

impl Claims {
    /// The claims of a token issued for `sub` at `now`, valid for `validity`
    /// seconds. `None` where `now` lies before the epoch or the expiry does not
    /// fit the claim's type.
    pub fn issued(sub: String, now: i64, validity: u64) -> (r: Option<Claims>)
        ensures
            match r {
                Some(c) => issued_claims(sub@, now as int, validity as nat) == Some(c@),
                None => issued_claims(sub@, now as int, validity as nat) is None,
            },
    {
        if now < 0 {
            return None;
        }
        let start: u64 = now as u64;
        match start.checked_add(validity) {
            Some(end) => {
                if end <= usize::MAX as u64 {
                    Some(Claims { sub, iat: start as usize, exp: end as usize })
                } else {
                    None
                }
            },
            None => None,
        }
    }

    /// Whether these claims count as expired at `now` under `leeway`.
    pub fn is_expired_at(&self, now: i64, leeway: u64) -> (r: bool)
        ensures
            r == expired(self.exp as int, now as int, leeway as nat),
    {
        if now < 0 {
            false
        } else {
            let t: u64 = now as u64;
            let exp: u64 = self.exp as u64;
            t > exp && t - exp > leeway
        }
    }
}

/// The signing secret and the two windows, fixed when the process starts.
pub struct TokenConfig {
    secret: String,
    validity_secs: u64,
    leeway_secs: u64,
}

impl TokenConfig {
    #[verifier::type_invariant]
    spec fn well_formed(&self) -> bool {
        self.validity_secs > 0
    }

    /// The signing secret.
    pub closed spec fn secret(&self) -> Seq<char> {
        self.secret@
    }

    /// Seconds for which an issued token is valid.
    pub closed spec fn validity(&self) -> nat {
        self.validity_secs as nat
    }

    /// Seconds of clock skew tolerated past the expiry.
    pub closed spec fn leeway(&self) -> nat {
        self.leeway_secs as nat
    }

    /// A configuration with the default windows. Fails exactly where no secret
    /// is configured.
    pub fn new(secret: Option<String>) -> (r: Result<TokenConfig, TokenError>)
        ensures
            match secret {
                Some(s) => r matches Ok(c) && c.secret() == s@ && c.validity()
                    == DEFAULT_VALIDITY_SECS && c.leeway() == DEFAULT_LEEWAY_SECS,
                None => r matches Err(e) && e == TokenError::Config,
            },
    {
        match secret {
            Some(s) => Ok(
                TokenConfig {
                    secret: s,
                    validity_secs: DEFAULT_VALIDITY_SECS,
                    leeway_secs: DEFAULT_LEEWAY_SECS,
                },
            ),
            None => Err(TokenError::Config),
        }
    }

    /// The same secret with other windows. Fails exactly where the validity
    /// window is empty: an issued token expires after it was issued.
    pub fn with_windows(self, validity_secs: u64, leeway_secs: u64) -> (r: Result<
        TokenConfig,
        TokenError,
    >)
        ensures
            validity_secs > 0 ==> (r matches Ok(c) && c.secret() == self.secret() && c.validity()
                == validity_secs && c.leeway() == leeway_secs),
            validity_secs == 0 ==> (r matches Err(e) && e == TokenError::Config),
    {
        if validity_secs == 0 {
            Err(TokenError::Config)
        } else {
            Ok(TokenConfig { secret: self.secret, validity_secs, leeway_secs })
        }
    }

    /// Seconds for which an issued token is valid.
    pub fn validity_secs(&self) -> (r: u64)
        ensures
            r == self.validity(),
            r > 0,
    {
        proof {
            use_type_invariant(self);
        }
        self.validity_secs
    }

    /// Seconds of clock skew tolerated past the expiry.
    pub fn leeway_secs(&self) -> (r: u64)
        ensures
            r == self.leeway(),
    {
        self.leeway_secs
    }
}

/// Turns the signer's answer into the result of issuance.
pub fn signing_result(signed: Option<String>) -> (r: Result<String, TokenError>)
    ensures
        match signed {
            Some(token) => r matches Ok(out) && out == token,
            None => r matches Err(e) && e == TokenError::Issuance,
        },
{
    match signed {
        Some(token) => Ok(token),
        None => Err(TokenError::Issuance),
    }
}

/// Decides on the decoder's answer at the instant `now`: a signature mismatch
/// and any other refusal keep their class; claims of which one is missing or
/// does not fit are malformed; claims past expiry and leeway are expired; all
/// others are returned as they are.
pub fn validate_opened(opened: Result<RawClaims, DecodeFault>, now: i64, leeway: u64) -> (r: Result<
    Claims,
    TokenError,
>)
    ensures
        claims_view(r) == validation_outcome(opened_view(opened), now as int, leeway as nat),
{
    match opened {
        Err(DecodeFault::SignatureMismatch) => Err(TokenError::InvalidSignature),
        Err(DecodeFault::Rejected) => Err(TokenError::Malformed),
        Ok(raw) => match (raw.sub, raw.iat, raw.exp) {
            (Some(sub), Some(iat), Some(exp)) => {
                if iat <= usize::MAX as u64 && exp <= usize::MAX as u64 {
                    let claims = Claims { sub, iat: iat as usize, exp: exp as usize };
                    if claims.is_expired_at(now, leeway) {
                        Err(TokenError::Expired)
                    } else {
                        Ok(claims)
                    }
                } else {
                    Err(TokenError::Malformed)
                }
            },
            _ => Err(TokenError::Malformed),
        },
    }
}

/// Issues a token for `username` as if the clock read `now`: the claims are
/// `sub = username`, `iat = now`, `exp = now + validity`, signed under the
/// configured secret. The token it returns validates under the same
/// configuration to exactly these claims at every instant up to the expiry
/// plus the leeway, and is expired at every later one.
pub fn issue_at(username: String, now: i64, config: &TokenConfig) -> (r: Result<String, TokenError>)
    ensures
        token_text(r) == issuance_outcome(
            username@,
            now as int,
            config.validity(),
            config.secret(),
        ),
        r is Ok ==> (issued_claims(username@, now as int, config.validity()) matches Some(c)
            && c.exp > c.iat),
        r matches Ok(token) ==> (forall|later: int| #[trigger]
            validation_outcome(hs256_opened(token@, config.secret()), later, config.leeway())
                == lifetime_outcome(
                claims_of(username@, now as int, now + config.validity()),
                later,
                config.leeway(),
            )),
{
    proof {
        use_type_invariant(config);
    }
    match Claims::issued(username, now, config.validity_secs) {
        Some(claims) => signing_result(
            sign_hs256(
                claims.sub.as_str(),
                claims.iat as u64,
                claims.exp as u64,
                config.secret.as_str(),
            ),
        ),
        None => Err(TokenError::Issuance),
    }
}

/// Issues a token for `username` at the present instant.
pub fn encode_jwt(username: String, config: &TokenConfig) -> (r: Result<String, TokenError>)
    ensures
        exists|now: int| token_text(r) == #[trigger] issuance_outcome(
            username@,
            now,
            config.validity(),
            config.secret(),
        ),
        r matches Ok(token) ==> (structural_outcome(hs256_opened(token@, config.secret()))
            matches Ok(c) && c.sub == username@ && c.exp == c.iat + config.validity() && c.exp
            > c.iat),
{
    let now: i64 = unix_now();
    let r = issue_at(username, now, config);
    proof {
        assert(token_text(r) == issuance_outcome(
            username@,
            now as int,
            config.validity(),
            config.secret(),
        ));
        if r is Ok {
            // The token is live at the instant of its issue, so its claims are those issued.
            let opened = hs256_opened(r->Ok_0@, config.secret());
            assert(validation_outcome(opened, now as int, config.leeway()) is Ok);
        }
    }
    r
}

/// Validates `token` as if the clock read `now`.
pub fn decode_jwt_at(token: &str, now: i64, config: &TokenConfig) -> (r: Result<Claims, TokenError>)
    ensures
        claims_view(r) == validation_outcome(
            hs256_opened(token@, config.secret()),
            now as int,
            config.leeway(),
        ),
{
    validate_opened(open_hs256(token, config.secret.as_str()), now, config.leeway_secs)
}

/// Validates `token` at the present instant. Whatever the clock reads, a
/// refusal by the decoder keeps its class and accepted claims are those the
/// token carries; only the choice between them and `Expired` is the clock's.
pub fn decode_jwt(token: &str, config: &TokenConfig) -> (r: Result<Claims, TokenError>)
    ensures
        exists|now: int| claims_view(r) == #[trigger] validation_outcome(
            hs256_opened(token@, config.secret()),
            now,
            config.leeway(),
        ),
        claims_view(r) == structural_outcome(hs256_opened(token@, config.secret())) || (r matches Err(
            e,
        ) && e == TokenError::Expired && structural_outcome(
            hs256_opened(token@, config.secret()),
        ) is Ok),
{
    let now: i64 = unix_now();
    decode_jwt_at(token, now, config)
}

/// Accepted claims are valid up to and including the instant `exp + leeway`,
/// and expired from the next second on.
pub proof fn lemma_expiry_threshold(opened: Result<RawClaimsView, DecodeFault>, now: int, leeway: nat)
    requires
        structural_outcome(opened) is Ok,
    ensures
        now <= structural_outcome(opened)->Ok_0.exp + leeway ==> validation_outcome(
            opened,
            now,
            leeway,
        ) == structural_outcome(opened),
        now > structural_outcome(opened)->Ok_0.exp + leeway ==> (validation_outcome(
            opened,
            now,
            leeway,
        ) matches Err(e) && e == TokenError::Expired),
{
}

/// Under the default windows, claims issued for 24 hours are still accepted
/// 59 seconds past their expiry and expired 61 seconds past it.
pub proof fn lemma_default_leeway_boundary(opened: Result<RawClaimsView, DecodeFault>)
    requires
        structural_outcome(opened) is Ok,
        structural_outcome(opened)->Ok_0.exp == structural_outcome(opened)->Ok_0.iat
            + DEFAULT_VALIDITY_SECS,
    ensures
        validation_outcome(
            opened,
            structural_outcome(opened)->Ok_0.iat + 86_400 + 59,
            DEFAULT_LEEWAY_SECS as nat,
        ) == structural_outcome(opened),
        validation_outcome(
            opened,
            structural_outcome(opened)->Ok_0.iat + 86_400 + 61,
            DEFAULT_LEEWAY_SECS as nat,
        ) matches Err(e) && e == TokenError::Expired,
{
}

/// A token never becomes valid again: what is expired at one instant is
/// expired at every later one.
pub proof fn lemma_expiry_is_final(
    opened: Result<RawClaimsView, DecodeFault>,
    earlier: int,
    later: int,
    leeway: nat,
)
    requires
        earlier <= later,
        validation_outcome(opened, earlier, leeway) matches Err(e) && e == TokenError::Expired,
    ensures
        validation_outcome(opened, later, leeway) matches Err(e) && e == TokenError::Expired,
{
}

/// A refusal by the decoder keeps its class whatever the clock reads: a
/// signature mismatch is reported as an invalid signature and nothing else
/// is, and no refusal is ever reported as an expiry.
pub proof fn lemma_refusal_is_timeless(
    opened: Result<RawClaimsView, DecodeFault>,
    now: int,
    leeway: nat,
)
    ensures
        structural_outcome(opened) is Err ==> validation_outcome(opened, now, leeway)
            == structural_outcome(opened),
        (validation_outcome(opened, now, leeway) matches Err(e) && e
            == TokenError::InvalidSignature) <==> (opened matches Err(fault) && fault
            == DecodeFault::SignatureMismatch),
        (validation_outcome(opened, now, leeway) matches Err(e) && e == TokenError::Expired)
            ==> opened is Ok,
        validation_outcome(opened, now, leeway) matches Err(e) ==> e != TokenError::Config && e
            != TokenError::Issuance,
{
}

} // verus!
