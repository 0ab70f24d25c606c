//! Authentication: checking a password against its stored hash, and turning
//! the claims of a token into what the handlers work with.

use vstd::prelude::*;
use vstd::string::*;
use scrypt::password_hash::PasswordVerifier;
use crate::config::AuthConfig;
use crate::error_app::{AppError, AppErrorView, AppMsgError, AppMsgErrorView};
use crate::ident::{format_uuid, parse_uuid, uuid_parse, uuid_text};
use crate::text::{remove_all, same_text, without};
use crate::user::User;

verus! {

/// What `password_hash::PasswordHash::new` objects to in `hash`, in the words
/// of its error; `None` where it reads `hash` as a PHC string.
pub uninterp spec fn phc_parse_error(hash: Seq<char>) -> Option<Seq<char>>;

/// Whether the `verify_password` of `scrypt::Scrypt` accepts `password` for
/// the PHC string `hash`.
pub uninterp spec fn scrypt_accepts(password: Seq<char>, hash: Seq<char>) -> bool;

/// Reads a stored hash with `password_hash::PasswordHash::new` and hands on
/// the words of its error, if it has one. The contract names the outcome.
#[verifier::external_body]
pub(crate) fn password_hash_error(hash: &str) -> (r: Option<String>)
    ensures
        match r {
            Some(e) => phc_parse_error(hash@) == Some(e@),
            None => phc_parse_error(hash@) is None,
        },
{
    match scrypt::password_hash::PasswordHash::new(hash) {
        Ok(_) => None,
        Err(e) => Some(e.to_string()),
    }
}

/// Checks a password against a stored hash with the `verify_password` of
/// `scrypt::Scrypt`. The hash must be one that `PasswordHash::new` reads.
/// The contract names the answer.
#[verifier::external_body]
pub(crate) fn scrypt_verify(password: &str, hash: &str) -> (accepted: bool)
    requires
        phc_parse_error(hash@) is None,
    ensures
        accepted == scrypt_accepts(password@, hash@),
{
    match scrypt::password_hash::PasswordHash::new(hash) {
        Ok(parsed) => scrypt::Scrypt.verify_password(password.as_bytes(), &parsed).is_ok(),
        Err(_) => false,
    }
}

/// A request to log in.
#[derive(Debug)]
pub struct LoginRequest {
    pub email: String,
    pub password: String,
}

/// The claims of a token as they come out of decoding. `inf` holds pairs of
/// a name and a value, each name once.
#[derive(Debug)]
pub struct MyClaim {
    pub aud: Option<String>,
    pub exp: i32,
    pub iat: Option<i32>,
    pub iss: Option<String>,
    pub nbf: Option<i32>,
    pub sub: Option<String>,
    pub inf: Option<Vec<(String, String)>>,
}

/// Who a token was issued to.
#[derive(Debug)]
pub struct TokenInfo {
    pub uuid: u128,
    pub email: String,
    pub username: String,
}

/// A token as the handlers see it.
#[derive(Debug)]
pub struct Token {
    pub exp: i32,
    pub iat: i32,
    pub iss: String,
    pub nbf: i32,
    pub sub: String,
    pub inf: TokenInfo,
}

/// The value that stands under `name` in a list of pairs: that of the first
/// pair with that name, or the empty text where there is none.
pub open spec fn value_of(pairs: Seq<(String, String)>, name: Seq<char>) -> Seq<char>
    decreases pairs.len(),
{
    if pairs.len() == 0 {
        Seq::<char>::empty()
    } else if pairs[0].0@ == name {
        pairs[0].1@
    } else {
        value_of(pairs.drop_first(), name)
    }
}

/// The value that stands under `name` in the `inf` claim, or the empty text.
pub open spec fn inf_value(claim: MyClaim, name: Seq<char>) -> Seq<char> {
    match claim.inf {
        Some(pairs) => value_of(pairs@, name),
        None => Seq::<char>::empty(),
    }
}

/// The value that stands under `name` in a list of pairs, or the empty text.
pub fn claim_value(pairs: &Vec<(String, String)>, name: &str) -> (value: String)
    ensures
        value@ == value_of(pairs@, name@),
{
    let mut i: usize = 0;
    proof {
        assert(pairs@.skip(0) =~= pairs@);
    }
    while i < pairs.len()
        invariant
            i <= pairs.len(),
            value_of(pairs@, name@) == value_of(pairs@.skip(i as int), name@),
        decreases pairs.len() - i,
    {
        proof {
            let rest = pairs@.skip(i as int);
            assert(rest[0] == pairs@[i as int]);
            assert(rest.drop_first() =~= pairs@.skip(i + 1));
        }
        if same_text(pairs[i].0.as_str(), name) {
            return pairs[i].1.clone();
        }
        i = i + 1;
    }
    proof {
        assert(pairs@.skip(i as int).len() == 0);
    }
    String::new()
}

fn inf_text(claim: &MyClaim, name: &str) -> (value: String)
    ensures
        value@ == inf_value(*claim, name@),
{
    match &claim.inf {
        Some(pairs) => claim_value(pairs, name),
        None => String::new(),
    }
}

fn text_or_empty(text: &Option<String>) -> (r: String)
    ensures
        r@ == (match *text {
            Some(t) => t@,
            None => Seq::<char>::empty(),
        }),
{
    match text {
        Some(t) => t.clone(),
        None => String::new(),
    }
}

fn number_or_zero(n: Option<i32>) -> (r: i32)
    ensures
        r == (match n {
            Some(v) => v,
            None => 0i32,
        }),
{
    match n {
        Some(v) => v,
        None => 0,
    }
}

impl Token {
    /// Whether this is the token that `claim` stands for, issued to `uuid`:
    /// a claim that is left out counts as zero or as the empty text.
    pub open spec fn is_token_of(&self, claim: MyClaim, uuid: u128) -> bool {
        &&& self.exp == claim.exp
        &&& self.iat == (match claim.iat {
            Some(v) => v,
            None => 0i32,
        })
        &&& self.iss@ == (match claim.iss {
            Some(t) => t@,
            None => Seq::<char>::empty(),
        })
        &&& self.nbf == (match claim.nbf {
            Some(v) => v,
            None => 0i32,
        })
        &&& self.sub@ == (match claim.sub {
            Some(t) => t@,
            None => Seq::<char>::empty(),
        })
        &&& self.inf.uuid == uuid
        &&& self.inf.email@ == inf_value(claim, "email"@)
        &&& self.inf.username@ == inf_value(claim, "username"@)
    }

    /// The token that `my_claim` stands for, issued to `uuid`.
    pub fn with_uuid(my_claim: &MyClaim, uuid: u128) -> (t: Token)
        ensures
            t.is_token_of(*my_claim, uuid),
    {
        Token {
            exp: my_claim.exp,
            iat: number_or_zero(my_claim.iat),
            iss: text_or_empty(&my_claim.iss),
            nbf: number_or_zero(my_claim.nbf),
            sub: text_or_empty(&my_claim.sub),
            inf: TokenInfo {
                uuid,
                email: inf_text(my_claim, "email"),
                username: inf_text(my_claim, "username"),
            },
        }
    }

    /// The token that `my_claim` stands for. The claim must name, under
    /// `uuid` in `inf`, the identifier of the user it was issued to.
    pub fn build(my_claim: MyClaim) -> (t: Token)
        requires
            uuid_parse(inf_value(my_claim, "uuid"@)) is Some,
        ensures
            t.is_token_of(my_claim, uuid_parse(inf_value(my_claim, "uuid"@))->0),
    {
        let uuid = parse_uuid(inf_text(&my_claim, "uuid").as_str());
        Token::with_uuid(&my_claim, uuid.unwrap())
    }

    /// The token that `my_claim` stands for, or `None` where the claim does
    /// not name the identifier of a user.
    pub fn try_build(my_claim: MyClaim) -> (r: Option<Token>)
        ensures
            match r {
                Some(t) => uuid_parse(inf_value(my_claim, "uuid"@)) is Some && t.is_token_of(
                    my_claim,
                    uuid_parse(inf_value(my_claim, "uuid"@))->0,
                ),
                None => uuid_parse(inf_value(my_claim, "uuid"@)) is None,
            },
    {
        let uuid = parse_uuid(inf_text(&my_claim, "uuid").as_str());
        if uuid.is_some() {
            Some(Token::build(my_claim))
        } else {
            None
        }
    }
}

/// The error of a caller who is not let in, with words for the log.
pub open spec fn unauthorized(log_msg_error: Seq<char>) -> AppErrorView {
    AppErrorView::Unauthorized(AppMsgErrorView { api_msg_error: "Unauthorized"@, log_msg_error })
}

fn unauthorized_error(log_msg_error: String) -> (e: AppError)
    ensures
        e@ == unauthorized(log_msg_error@),
{
    AppError::Unauthorized(AppMsgError { api_msg_error: "Unauthorized".to_owned(), log_msg_error })
}

/// What checking a password gives, from what reading the stored hash gave
/// and from whether the password fits it.
pub open spec fn password_verdict(
    password: Seq<char>,
    password_hash: Seq<char>,
    hash_error: Option<Seq<char>>,
    accepted: bool,
) -> Option<AppErrorView> {
    match hash_error {
        Some(e) => Some(
            unauthorized(e + ", password: "@ + password + ", password_hash: "@ + password_hash),
        ),
        None => if accepted {
            None
        } else {
            Some(
                unauthorized(
                    "Invalid password, password: "@ + password + ", password_hash: "@
                        + password_hash,
                ),
            )
        },
    }
}

/// The outcome of a password check, from what reading the stored hash gave
/// and from whether the password fits it.
pub fn password_checked(password: &str, password_hash: &str, hash_error: Option<String>, accepted: bool) -> (r:
    Result<(), AppError>)
    ensures
        match r {
            Ok(()) => password_verdict(
                password@,
                password_hash@,
                match hash_error {
                    Some(e) => Some(e@),
                    None => None,
                },
                accepted,
            ) is None,
            Err(e) => password_verdict(
                password@,
                password_hash@,
                match hash_error {
                    Some(e) => Some(e@),
                    None => None,
                },
                accepted,
            ) == Some(e@),
        },
{
    match hash_error {
        Some(e) => Err(
            unauthorized_error(
                e.concat(", password: ").concat(password).concat(", password_hash: ").concat(
                    password_hash,
                ),
            ),
        ),
        None => {
            if accepted {
                Ok(())
            } else {
                Err(
                    unauthorized_error(
                        "Invalid password, password: ".to_owned().concat(password).concat(
                            ", password_hash: ",
                        ).concat(password_hash),
                    ),
                )
            }
        },
    }
}

/// Checks a password against its stored hash. Succeeds exactly when the
/// hash reads as a PHC string and the password fits it.
pub fn verify_password(password: &str, password_hash: &str) -> (r: Result<(), AppError>)
    ensures
        r is Ok <==> phc_parse_error(password_hash@) is None && scrypt_accepts(
            password@,
            password_hash@,
        ),
        match r {
            Ok(()) => password_verdict(
                password@,
                password_hash@,
                phc_parse_error(password_hash@),
                scrypt_accepts(password@, password_hash@),
            ) is None,
            Err(e) => Some(e@) == password_verdict(
                password@,
                password_hash@,
                phc_parse_error(password_hash@),
                scrypt_accepts(password@, password_hash@),
            ),
        },
{
    let hash_error = password_hash_error(password_hash);
    let accepted = if hash_error.is_none() {
        scrypt_verify(password, password_hash)
    } else {
        false
    };
    password_checked(password, password_hash, hash_error, accepted)
}

/// The token of a request, from what decoding it gave: the claims, or the
/// words of the decoder's error.
///
/// A token that does not decode, or whose claims do not name the identifier
/// of a user, lets nobody in.
pub fn token_info(decoded: Result<MyClaim, String>, algorithm: &str, token: &str) -> (r: Result<
    Token,
    AppError,
>)
    ensures
        match decoded {
            Err(detail) => r matches Err(e) && e@ == unauthorized(
                detail@ + ", algorithm: "@ + algorithm@ + ", token: "@ + token@,
            ),
            Ok(claim) => match uuid_parse(inf_value(claim, "uuid"@)) {
                Some(uuid) => r matches Ok(t) && t.is_token_of(claim, uuid),
                None => r matches Err(e) && e@ == unauthorized(
                    "Token without a user, algorithm: "@ + algorithm@ + ", token: "@ + token@,
                ),
            },
        },
{
    match decoded {
        Err(detail) => Err(
            unauthorized_error(
                detail.concat(", algorithm: ").concat(algorithm).concat(", token: ").concat(token),
            ),
        ),
        Ok(claim) => match Token::try_build(claim) {
            Some(t) => Ok(t),
            None => Err(
                unauthorized_error(
                    "Token without a user, algorithm: ".to_owned().concat(algorithm).concat(
                        ", token: ",
                    ).concat(token),
                ),
            ),
        },
    }
}

/// The token in an `Authorization` header: the header without the word
/// `Bearer ` in it. A request without the header lets nobody in.
pub fn auth_middleware(authorization: Option<&str>) -> (r: Result<String, AppError>)
    ensures
        match authorization {
            Some(value) => r matches Ok(token) && token@ == without(value@, "Bearer "@),
            None => r matches Err(e) && e@ == unauthorized("Authorization is empty"@),
        },
{
    match authorization {
        Some(value) => Ok(remove_all(value, "Bearer ")),
        None => Err(unauthorized_error("Authorization is empty".to_owned())),
    }
}

/// The claims of a token that is issued at login. Times are seconds since
/// the Unix epoch.
#[derive(Debug)]
pub struct LoginClaims {
    pub aud: Option<String>,
    pub exp: u64,
    pub iat: u64,
    pub iss: String,
    pub nbf: u64,
    pub sub: String,
    pub inf: Vec<(String, String)>,
}

impl LoginClaims {
    /// Whether these are the claims of a token issued to `user` at `now`
    /// under `config`: valid from now on for the configured lifetime, and
    /// naming the user by identifier, e-mail address and name.
    pub open spec fn is_login_of(&self, user: &User, now: u64, config: &AuthConfig) -> bool {
        &&& self.aud is None
        &&& self.exp == now + config.exp_claims_additional_sec()
        &&& self.iat == now
        &&& self.nbf == now
        &&& self.iss@ == config.iss_claims()
        &&& self.sub@ == uuid_text(user.uuid)
        &&& self.inf@.len() == 3
        &&& self.inf@[0].0@ == "uuid"@
        &&& self.inf@[0].1@ == uuid_text(user.uuid)
        &&& self.inf@[1].0@ == "email"@
        &&& self.inf@[1].1@ == user.email@
        &&& self.inf@[2].0@ == "username"@
        &&& self.inf@[2].1@ == user.username@
    }
}

/// The claims of the token that `user` gets when logging in at `now`,
/// once the password has been checked. There are none where the time of
/// expiry would lie beyond what a number of seconds can hold.
pub fn auth_login(user: &User, now: u64, config: &AuthConfig) -> (r: Result<LoginClaims, AppError>)
    ensures
        match r {
            Ok(c) => now + config.exp_claims_additional_sec() <= u64::MAX && c.is_login_of(
                user,
                now,
                config,
            ),
            Err(e) => now + config.exp_claims_additional_sec() > u64::MAX && e@
                == AppErrorView::InternalServerError("Token expiry out of range"@),
        },
{
    let lifetime: u64 = config.get_exp_claims_additional_sec() as u64;
    if now > u64::MAX - lifetime {
        return Err(AppError::InternalServerError("Token expiry out of range".to_owned()));
    }
    let mut inf: Vec<(String, String)> = Vec::new();
    inf.push(("uuid".to_owned(), format_uuid(user.uuid)));
    inf.push(("email".to_owned(), user.email.clone()));
    inf.push(("username".to_owned(), user.username.clone()));
    Ok(
        LoginClaims {
            aud: None,
            exp: now + lifetime,
            iat: now,
            iss: config.get_iss_claims(),
            nbf: now,
            sub: format_uuid(user.uuid),
            inf,
        },
    )
}

} // verus!
