//! The request handlers: tokens for users, login, sign-up and "who am I".

use vstd::prelude::*;
use crate::jwt::{
    json_quote, json_string, encode_hs256, decode_hs256, hs256_token, hs256_claims, is_token_text,
    is_hs256_token_text, is_token_shape, lemma_hs256_token_text,
};
use crate::text::{decimal, int_decimal, parse_i32_spec, parse_i32, write_decimal, i32_to_string};
use crate::models::user::{
    JWTSettings, LoginResponse, SignupPayload, WhoAmIResponse, UserRow, DbError, StatusCode,
};

verus! {

/// The expiry time (seconds since the epoch) that every token issued here
/// carries, whatever the configured expiration.
pub const TOKEN_EXPIRY: u64 = 10000000000;

/// What a token says of its holder.
pub struct Claims {
    pub user_id: String,
    pub username: String,
    pub exp: u64,
}

/// Why a token could not be made or was not accepted.
#[derive(PartialEq, Eq, Structural, Clone, Copy, Debug)]
pub enum TokenError {
    /// The token could not be signed.
    Encode,
    /// The token is malformed, forged, expired or carries unusable claims.
    Rejected,
}

/// The JSON text of claims with these fields, in the order
/// `user_id`, `username`, `exp`.
pub open spec fn claims_json(user_id: Seq<char>, username: Seq<char>, exp: nat) -> Seq<char> {
    "{\"user_id\":"@ + json_quote(user_id) + ",\"username\":"@ + json_quote(username)
        + ",\"exp\":"@ + decimal(exp) + "}"@
}

/// The claims text names each field by its own value, in the order the
/// serializer writes them: `{"user_id":` then the user id as a JSON string,
/// `,"username":` then the name as a JSON string (the name exactly as given,
/// only quoted and escaped), `,"exp":` then the expiry in decimal, and `}`.
pub proof fn law_claims_json_fields(user_id: Seq<char>, username: Seq<char>, exp: nat)
    ensures
        ({
            let w = claims_json(user_id, username, exp);
            let a = "{\"user_id\":"@.len() as int;
            let qu = json_quote(user_id).len() as int;
            let b = ",\"username\":"@.len() as int;
            let qn = json_quote(username).len() as int;
            let c = ",\"exp\":"@.len() as int;
            let k = decimal(exp).len() as int;
            &&& w.len() == a + qu + b + qn + c + k + 1
            &&& w.subrange(0, a) == "{\"user_id\":"@
            &&& w.subrange(a, a + qu) == json_quote(user_id)
            &&& w.subrange(a + qu, a + qu + b) == ",\"username\":"@
            &&& w.subrange(a + qu + b, a + qu + b + qn) == json_quote(username)
            &&& w.subrange(a + qu + b + qn, a + qu + b + qn + c) == ",\"exp\":"@
            &&& w.subrange(a + qu + b + qn + c, a + qu + b + qn + c + k) == decimal(exp)
            &&& w[a + qu + b + qn + c + k] == '}'
        }),
{
    reveal_strlit("}");
    let w = claims_json(user_id, username, exp);
    let a = "{\"user_id\":"@.len() as int;
    let qu = json_quote(user_id).len() as int;
    let b = ",\"username\":"@.len() as int;
    let qn = json_quote(username).len() as int;
    let c = ",\"exp\":"@.len() as int;
    let k = decimal(exp).len() as int;
    assert(w.subrange(0, a) =~= "{\"user_id\":"@);
    assert(w.subrange(a, a + qu) =~= json_quote(user_id));
    assert(w.subrange(a + qu, a + qu + b) =~= ",\"username\":"@);
    assert(w.subrange(a + qu + b, a + qu + b + qn) =~= json_quote(username));
    assert(w.subrange(a + qu + b + qn, a + qu + b + qn + c) =~= ",\"exp\":"@);
    assert(w.subrange(a + qu + b + qn + c, a + qu + b + qn + c + k) =~= decimal(exp));
}

/// The JSON text of `claims`.
pub fn claims_to_json(claims: &Claims) -> (s: String)
    ensures
        s@ == claims_json(claims.user_id@, claims.username@, claims.exp as nat),
{
    let mut s = String::new();
    s.append("{\"user_id\":");
    let q = json_string(claims.user_id.as_str());
    match q {
        Some(t) => s.append(t.as_str()),
        None => {},
    }
    s.append(",\"username\":");
    let q = json_string(claims.username.as_str());
    match q {
        Some(t) => s.append(t.as_str()),
        None => {},
    }
    s.append(",\"exp\":");
    write_decimal(&mut s, claims.exp);
    s.append("}");
    s
}

/// The token issued to `user_id` and `username` under `key`, as the
/// encoding outcome names it.
pub open spec fn issued_token(user_id: Seq<char>, username: Seq<char>, key: Seq<char>) -> Option<
    Seq<char>,
> {
    hs256_token(claims_json(user_id, username, TOKEN_EXPIRY as nat), key)
}

/// Signs a token for the user: claims with `user_id`, `username` and the
/// fixed expiry `TOKEN_EXPIRY`, HS256 with `jwt_key`. The expiration
/// argument is not used. The token always comes out, and checked under the
/// same key it gives back exactly these claims.
pub fn create_token(user_id: &str, username: &str, jwt_key: &str, _exp: i32) -> (r: Result<
    String,
    TokenError,
>)
    ensures
        r matches Ok(t) && issued_token(user_id@, username@, jwt_key@) == Some(t@) && hs256_claims(
            t@,
            jwt_key@,
        ) == Some(claims_json(user_id@, username@, TOKEN_EXPIRY as nat)) && is_token_text(t@)
            && is_hs256_token_text(t@) && t@.len() >= 47,
{
    let claims = Claims {
        user_id: user_id.to_owned(),
        username: username.to_owned(),
        exp: TOKEN_EXPIRY,
    };
    let json = claims_to_json(&claims);
    assert(crate::jwt::is_issued_claims(json@));
    match encode_hs256(json.as_str(), jwt_key) {
        Some(t) => {
            proof {
                lemma_hs256_token_text(t@);
            }
            Ok(t)
        },
        None => Err(TokenError::Encode),
    }
}

/// Checks `token` as an HS256 token under `jwt_key` and gives its claims as
/// JSON text. A text that is not three runs of URL-safe base64 joined by two
/// dots is always refused, and so is a token whose claims `hs256_claims`
/// rejects; an accepted token hands out the claims it names. Reading that
/// text into `Claims` (and refusing claims without a string `user_id` and
/// `username` and an integer `exp`) is serde's work, done by the caller.
pub fn validate_token(token: &str, jwt_key: &str) -> (r: Result<String, TokenError>)
    ensures
        !is_token_shape(token@) ==> r == Err::<String, TokenError>(TokenError::Rejected),
        hs256_claims(token@, jwt_key@) is None ==> r == Err::<String, TokenError>(
            TokenError::Rejected,
        ),
        r matches Ok(c) ==> hs256_claims(token@, jwt_key@) == Some(c@),
        r matches Err(e) ==> e == TokenError::Rejected,
{
    match decode_hs256(token, jwt_key) {
        Some(c) => Ok(c),
        None => Err(TokenError::Rejected),
    }
}

/// Whether `r` grants the user `row` a token under the settings `jwt`: the
/// token issued for the user's id in decimal and its name, which checked
/// under the same secret carries exactly those claims.
pub open spec fn grants(r: Result<LoginResponse, StatusCode>, row: UserRow, jwt: JWTSettings) -> bool {
    r matches Ok(resp) && issued_token(int_decimal(row.id as int), row.username@, jwt.secret@)
        == Some(resp.token@) && hs256_claims(resp.token@, jwt.secret@) == Some(
        claims_json(int_decimal(row.id as int), row.username@, TOKEN_EXPIRY as nat),
    ) && is_token_text(resp.token@) && resp.token@.len() >= 47
}

/// The reply that hands out a token for `row`.
fn reply_with_token(row: &UserRow, jwt: &JWTSettings) -> (r: Result<LoginResponse, StatusCode>)
    ensures
        grants(r, *row, *jwt),
{
    let id = i32_to_string(row.id);
    match create_token(id.as_str(), row.username.as_str(), jwt.secret.as_str(), jwt.expiration) {
        Ok(token) => Ok(LoginResponse { token }),
        Err(_) => Err(StatusCode::InternalServerError),
    }
}

/// Answers a login from the lookup of the user with the given name and
/// password: a failed lookup is a 500, no such user a 401, and a found user
/// gets a token.
pub fn login(found: Result<Option<UserRow>, DbError>, jwt: &JWTSettings) -> (r: Result<
    LoginResponse,
    StatusCode,
>)
    ensures
        match found {
            Err(_) => r == Err::<LoginResponse, StatusCode>(StatusCode::InternalServerError),
            Ok(None) => r == Err::<LoginResponse, StatusCode>(StatusCode::Unauthorized),
            Ok(Some(row)) => grants(r, row, *jwt),
        },
{
    match found {
        Err(_) => Err(StatusCode::InternalServerError),
        Ok(None) => Err(StatusCode::Unauthorized),
        Ok(Some(row)) => reply_with_token(&row, jwt),
    }
}

/// Answers "who am I" from the caller's claims: the id is the user id read
/// as an `i32` (a 500 when it is not one) and the name is the claimed name.
pub fn who_am_i(claims: &Claims) -> (r: Result<WhoAmIResponse, StatusCode>)
    ensures
        match parse_i32_spec(claims.user_id@) {
            Some(id) => r matches Ok(w) && w.id == id && w.username@ == claims.username@,
            None => r == Err::<WhoAmIResponse, StatusCode>(StatusCode::InternalServerError),
        },
{
    match parse_i32(claims.user_id.as_str()) {
        Some(id) => Ok(WhoAmIResponse { id, username: claims.username.clone() }),
        None => Err(StatusCode::InternalServerError),
    }
}

/// Where a sign-up stands.
#[derive(PartialEq, Eq, Structural, Clone, Copy, Debug)]
pub enum SignUpPhase {
    /// Waiting for the lookup of the requested name.
    CheckingName,
    /// Waiting for the new user to be written.
    Inserting,
    /// Waiting for the new user to be read back.
    Fetching,
    /// The reply has been given.
    Done,
}

/// How many more replies a sign-up in this phase can take at most.
pub open spec fn replies_left(p: SignUpPhase) -> nat {
    match p {
        SignUpPhase::CheckingName => 3,
        SignUpPhase::Inserting => 2,
        SignUpPhase::Fetching => 1,
        SignUpPhase::Done => 0,
    }
}

/// A sign-up in progress: the requested name and password, and its phase.
pub struct SignUp {
    pub phase: SignUpPhase,
    pub username: String,
    pub password: String,
}

/// What the caller of a sign-up is to do next.
pub enum SignUpAction {
    /// Look up the user with this name.
    FindUser { username: String },
    /// Write a new user with this name and password.
    InsertUser { username: String, password: String },
    /// Read back the id and name of the user with this name.
    FetchUser { username: String },
    /// Reply to the request; the sign-up is over.
    Respond(Result<LoginResponse, StatusCode>),
}

/// Starts a sign-up: the first thing to do is to look up the requested name.
pub fn sign_up(payload: SignupPayload) -> (r: (SignUp, SignUpAction))
    ensures
        r.0.phase == SignUpPhase::CheckingName,
        r.0.username == payload.username,
        r.0.password == payload.password,
        r.1 == (SignUpAction::FindUser { username: payload.username }),
{
    let action = SignUpAction::FindUser { username: payload.username.clone() };
    (SignUp { phase: SignUpPhase::CheckingName, username: payload.username, password: payload.password }, action)
}

impl SignUp {
    /// Takes the reply of the database to the last action and gives the next
    /// action. A lookup that finds the name already taken ends in a 400 and
    /// nothing is written; a free name is written, then read back, and the
    /// user gets a token; any failed call ends in a 500. A write's reply is
    /// `Ok` of anything when it succeeded; a read back that finds no row is a
    /// failed call.
    pub fn step(&mut self, reply: Result<Option<UserRow>, DbError>, jwt: &JWTSettings) -> (a:
        SignUpAction)
        requires
            old(self).phase != SignUpPhase::Done,
        ensures
            final(self).username == old(self).username,
            final(self).password == old(self).password,
            replies_left(final(self).phase) < replies_left(old(self).phase),
            a is Respond <==> final(self).phase == SignUpPhase::Done,
            match old(self).phase {
                SignUpPhase::CheckingName => match reply {
                    Err(_) => final(self).phase == SignUpPhase::Done && a == SignUpAction::Respond(
                        Err(StatusCode::InternalServerError),
                    ),
                    Ok(Some(_)) => final(self).phase == SignUpPhase::Done && a
                        == SignUpAction::Respond(Err(StatusCode::BadRequest)),
                    Ok(None) => final(self).phase == SignUpPhase::Inserting && a == (
                    SignUpAction::InsertUser {
                        username: old(self).username,
                        password: old(self).password,
                    }),
                },
                SignUpPhase::Inserting => match reply {
                    Err(_) => final(self).phase == SignUpPhase::Done && a == SignUpAction::Respond(
                        Err(StatusCode::InternalServerError),
                    ),
                    Ok(_) => final(self).phase == SignUpPhase::Fetching && a == (
                    SignUpAction::FetchUser { username: old(self).username }),
                },
                _ => final(self).phase == SignUpPhase::Done && match reply {
                    Ok(Some(row)) => a matches SignUpAction::Respond(res) && grants(res, row, *jwt),
                    _ => a == SignUpAction::Respond(Err(StatusCode::InternalServerError)),
                },
            },
    {
        match self.phase {
            SignUpPhase::CheckingName => match reply {
                Err(_) => {
                    self.phase = SignUpPhase::Done;
                    SignUpAction::Respond(Err(StatusCode::InternalServerError))
                },
                Ok(Some(_)) => {
                    self.phase = SignUpPhase::Done;
                    SignUpAction::Respond(Err(StatusCode::BadRequest))
                },
                Ok(None) => {
                    self.phase = SignUpPhase::Inserting;
                    SignUpAction::InsertUser {
                        username: self.username.clone(),
                        password: self.password.clone(),
                    }
                },
            },
            SignUpPhase::Inserting => match reply {
                Err(_) => {
                    self.phase = SignUpPhase::Done;
                    SignUpAction::Respond(Err(StatusCode::InternalServerError))
                },
                Ok(_) => {
                    self.phase = SignUpPhase::Fetching;
                    SignUpAction::FetchUser { username: self.username.clone() }
                },
            },
            _ => {
                self.phase = SignUpPhase::Done;
                match reply {
                    Ok(Some(row)) => SignUpAction::Respond(reply_with_token(&row, jwt)),
                    _ => SignUpAction::Respond(Err(StatusCode::InternalServerError)),
                }
            },
        }
    }
}

/// A login after a sign-up names the signed-up user. The sign-up's write
/// carries the requested name (`InsertUser` with the sign-up's name and
/// password); when the login's lookup then hands back a row with that name,
/// as the database does for the row the sign-up wrote, the login grants a
/// token whose checked claims carry exactly that name, the row's id in
/// decimal and the fixed expiry, and the id reads back as the row's id.
/// (That the database hands back the written row is the database's part.)
pub proof fn law_login_after_sign_up(
    s: SignUp,
    insert: SignUpAction,
    row: UserRow,
    r: Result<LoginResponse, StatusCode>,
    jwt: JWTSettings,
)
    requires
        insert == (SignUpAction::InsertUser { username: s.username, password: s.password }),
        row.username@ == s.username@,
        grants(r, row, jwt),
    ensures
        insert matches SignUpAction::InsertUser { username, password } && username@ == row.username@,
        r matches Ok(resp) && hs256_claims(resp.token@, jwt.secret@) == Some(
            claims_json(int_decimal(row.id as int), s.username@, TOKEN_EXPIRY as nat),
        ) && resp.token@.len() >= 47,
        parse_i32_spec(int_decimal(row.id as int)) == Some(row.id),
{
    crate::text::lemma_parse_i32_of_decimal(row.id);
}

/// The token granted to a user row, checked under the same secret, carries
/// the row's name exactly (quoted) in its `username` field and the row's id
/// in decimal (quoted) in its `user_id` field.
pub proof fn law_granted_claims_name_the_row(
    r: Result<LoginResponse, StatusCode>,
    row: UserRow,
    jwt: JWTSettings,
)
    requires
        grants(r, row, jwt),
    ensures
        ({
            let a = "{\"user_id\":"@.len() as int;
            let qu = json_quote(int_decimal(row.id as int)).len() as int;
            let b = ",\"username\":"@.len() as int;
            let qn = json_quote(row.username@).len() as int;
            r matches Ok(resp) && hs256_claims(resp.token@, jwt.secret@) matches Some(cl) && cl.subrange(
                a,
                a + qu,
            ) == json_quote(int_decimal(row.id as int)) && cl.subrange(a + qu + b, a + qu + b + qn)
                == json_quote(row.username@)
        }),
{
    law_claims_json_fields(int_decimal(row.id as int), row.username@, TOKEN_EXPIRY as nat);
}

/// The user id that `login` and the sign-up write into a token, the decimal
/// text of the user's id, is read back by `who_am_i` as that same id.
pub proof fn law_token_user_id_round_trip(id: i32)
    ensures
        parse_i32_spec(int_decimal(id as int)) == Some(id),
{
    crate::text::lemma_parse_i32_of_decimal(id);
}

} // verus!
