//! A login against an in-memory set of users, signing with a fixed key.

use vstd::prelude::*;
use crate::jwt::{json_quote, json_string, encode_hs256, hs256_token, is_hs256_token_text};
use crate::models::user::StatusCode;
use crate::routes::TokenError;

verus! {

/// The key that tokens issued here are signed with.
pub const JWT_KEY: &'static str = "asdf";

/// The body of a login request.
pub struct LoginPayload {
    pub username: String,
    pub password: String,
}

/// The reply to a successful login: a signed token.
pub struct LoginResponse {
    pub token: String,
}

/// A known user.
pub struct User {
    pub id: String,
    pub username: String,
    pub password: String,
}

/// Users by key, each key held at most once (a map from keys to users).
/// The entries are a `Vec` with distinct keys rather than a `HashMap`:
/// vstd specifies `HashMap` well only for keys whose hashing and equality it
/// knows, and with `String` keys its contracts do not pin down the lookups
/// this set needs; here the map view and every operation on it are proved.
pub struct UsersSet {
    entries: Vec<(String, User)>,
}

/// Whether no key occurs twice among `entries`.
pub open spec fn keys_distinct(entries: Seq<(String, User)>) -> bool {
    forall|i: int, j: int|
        0 <= i < j < entries.len() ==> (#[trigger] entries[i]).0@ != (#[trigger] entries[j]).0@
}

/// The map from keys to users that `entries` hold (a later entry wins).
pub open spec fn entries_map(entries: Seq<(String, User)>) -> Map<Seq<char>, User>
    decreases entries.len(),
{
    if entries.len() == 0 {
        Map::empty()
    } else {
        entries_map(entries.drop_last()).insert(entries.last().0@, entries.last().1)
    }
}

/// Every entry's key is in the map; with distinct keys it maps to the
/// entry's user.
proof fn lemma_entries_map_at(e: Seq<(String, User)>, i: int)
    requires
        keys_distinct(e),
        0 <= i < e.len(),
    ensures
        entries_map(e).contains_key(e[i].0@),
        entries_map(e)[e[i].0@] == e[i].1,
    decreases e.len(),
{
    if i < e.len() - 1 {
        let d = e.drop_last();
        assert(d[i] == e[i]);
        assert(keys_distinct(d)) by {
            assert forall|a: int, b: int| 0 <= a < b < d.len() implies (#[trigger] d[a]).0@
                != (#[trigger] d[b]).0@ by {
                assert(d[a] == e[a] && d[b] == e[b]);
            }
        }
        lemma_entries_map_at(d, i);
        assert(e[i].0@ != e[e.len() - 1].0@);
    }
}

/// A key that no entry holds is not in the map.
proof fn lemma_entries_map_absent(e: Seq<(String, User)>, k: Seq<char>)
    requires
        forall|j: int| 0 <= j < e.len() ==> (#[trigger] e[j]).0@ != k,
    ensures
        !entries_map(e).contains_key(k),
    decreases e.len(),
{
    if e.len() > 0 {
        let d = e.drop_last();
        assert forall|j: int| 0 <= j < d.len() implies (#[trigger] d[j]).0@ != k by {
            assert(d[j] == e[j]);
        }
        lemma_entries_map_absent(d, k);
        assert(e[e.len() - 1].0@ != k);
    }
}

/// Replacing the user of the entry at `i` by `u` (same key) replaces the
/// user of that key in the map.
proof fn lemma_entries_map_update(e: Seq<(String, User)>, i: int, x: (String, User))
    requires
        keys_distinct(e),
        0 <= i < e.len(),
        x.0@ == e[i].0@,
    ensures
        entries_map(e.update(i, x)) == entries_map(e).insert(x.0@, x.1),
    decreases e.len(),
{
    let f = e.update(i, x);
    let d = e.drop_last();
    if i == e.len() - 1 {
        assert(f.drop_last() == d);
        assert(entries_map(f) =~= entries_map(e).insert(x.0@, x.1));
    } else {
        assert(f.drop_last() == d.update(i, x));
        assert(keys_distinct(d)) by {
            assert forall|a: int, b: int| 0 <= a < b < d.len() implies (#[trigger] d[a]).0@
                != (#[trigger] d[b]).0@ by {
                assert(d[a] == e[a] && d[b] == e[b]);
            }
        }
        lemma_entries_map_update(d, i, x);
        assert(e[i].0@ != e[e.len() - 1].0@);
        assert(f.last() == e.last());
        assert(entries_map(f) =~= entries_map(e).insert(x.0@, x.1));
    }
}

impl UsersSet {
    /// No key is held twice.
    #[verifier::type_invariant]
    closed spec fn wf(self) -> bool {
        keys_distinct(self.entries@)
    }

    /// The users, by key.
    pub closed spec fn users(self) -> Map<Seq<char>, User> {
        entries_map(self.entries@)
    }

    /// An empty set of users.
    pub fn new() -> (r: UsersSet)
        ensures
            r.users() == Map::<Seq<char>, User>::empty(),
    {
        UsersSet { entries: Vec::new() }
    }

    /// Holds `user` under `key`, in place of any user held under it before.
    pub fn insert(&mut self, key: String, user: User)
        ensures
            final(self).users() == old(self).users().insert(key@, user),
    {
        proof {
            use_type_invariant(&*self);
        }
        let mut entries: Vec<(String, User)> = Vec::new();
        std::mem::swap(&mut entries, &mut self.entries);
        let ghost e = entries@;
        let n = entries.len();
        let mut i: usize = 0;
        while i < n
            invariant
                i <= n,
                n == entries@.len(),
                entries@ == e,
                e == old(self).entries@,
                keys_distinct(e),
                forall|j: int| 0 <= j < i ==> (#[trigger] e[j]).0@ != key@,
            decreases n - i,
        {
            if entries[i].0 == key {
                let x = (key, user);
                proof {
                    lemma_entries_map_update(e, i as int, x);
                    assert(keys_distinct(e.update(i as int, x))) by {
                        let f = e.update(i as int, x);
                        assert forall|a: int, b: int| 0 <= a < b < f.len() implies (
                        #[trigger] f[a]).0@ != (#[trigger] f[b]).0@ by {
                            assert(f[a].0@ == e[a].0@ && f[b].0@ == e[b].0@);
                        }
                    }
                }
                entries.set(i, x);
                self.entries = entries;
                return;
            }
            i = i + 1;
        }
        proof {
            assert forall|a: int, b: int| 0 <= a < b < e.push((key, user)).len() implies (
            #[trigger] e.push((key, user))[a]).0@ != (#[trigger] e.push((key, user))[b]).0@ by {
                if b == e.len() {
                    assert(e.push((key, user))[a] == e[a]);
                } else {
                    assert(e.push((key, user))[a] == e[a] && e.push((key, user))[b] == e[b]);
                }
            }
            assert(e.push((key, user)).drop_last() == e);
        }
        entries.push((key, user));
        self.entries = entries;
    }

    /// The user held under `key`.
    pub fn get(&self, key: &str) -> (r: Option<&User>)
        ensures
            self.users().contains_key(key@) ==> (r matches Some(v) && *v == self.users()[key@]),
            !self.users().contains_key(key@) ==> r is None,
    {
        proof {
            use_type_invariant(self);
        }
        let wanted: String = key.to_owned();
        let n = self.entries.len();
        let mut i: usize = 0;
        while i < n
            invariant
                i <= n,
                n == self.entries@.len(),
                wanted@ == key@,
                keys_distinct(self.entries@),
                forall|j: int| 0 <= j < i ==> (#[trigger] self.entries@[j]).0@ != key@,
            decreases n - i,
        {
            let entry = &self.entries[i];
            if entry.0 == wanted {
                proof {
                    lemma_entries_map_at(self.entries@, i as int);
                }
                return Some(&entry.1);
            }
            i = i + 1;
        }
        proof {
            lemma_entries_map_absent(self.entries@, key@);
        }
        None
    }
}

/// The JSON text of claims with a user id and a name only.
pub open spec fn claims_json(user_id: Seq<char>, username: Seq<char>) -> Seq<char> {
    "{\"user_id\":"@ + json_quote(user_id) + ",\"username\":"@ + json_quote(username) + "}"@
}

/// The plain claims text names each field by its own value: `{"user_id":`
/// then the user id as a JSON string, `,"username":` then the name as a JSON
/// string, and `}`.
pub proof fn law_claims_json_fields(user_id: Seq<char>, username: Seq<char>)
    ensures
        ({
            let w = claims_json(user_id, username);
            let a = "{\"user_id\":"@.len() as int;
            let qu = json_quote(user_id).len() as int;
            let b = ",\"username\":"@.len() as int;
            let qn = json_quote(username).len() as int;
            &&& w.len() == a + qu + b + qn + 1
            &&& w.subrange(0, a) == "{\"user_id\":"@
            &&& w.subrange(a, a + qu) == json_quote(user_id)
            &&& w.subrange(a + qu, a + qu + b) == ",\"username\":"@
            &&& w.subrange(a + qu + b, a + qu + b + qn) == json_quote(username)
            &&& w[a + qu + b + qn] == '}'
        }),
{
    reveal_strlit("}");
    let w = claims_json(user_id, username);
    let a = "{\"user_id\":"@.len() as int;
    let qu = json_quote(user_id).len() as int;
    let b = ",\"username\":"@.len() as int;
    let qn = json_quote(username).len() as int;
    assert(w.subrange(0, a) =~= "{\"user_id\":"@);
    assert(w.subrange(a, a + qu) =~= json_quote(user_id));
    assert(w.subrange(a + qu, a + qu + b) =~= ",\"username\":"@);
    assert(w.subrange(a + qu + b, a + qu + b + qn) =~= json_quote(username));
}

/// Signs a token with claims of `user_id` and `username` only (no expiry),
/// HS256 with `jwt_key`. The token always comes out.
pub fn create_token(user_id: &str, username: &str, jwt_key: &str) -> (r: Result<String, TokenError>)
    ensures
        r matches Ok(t) && hs256_token(claims_json(user_id@, username@), jwt_key@) == Some(t@)
            && is_hs256_token_text(t@),
{
    let mut s = String::new();
    s.append("{\"user_id\":");
    match json_string(user_id) {
        Some(t) => s.append(t.as_str()),
        None => {},
    }
    s.append(",\"username\":");
    match json_string(username) {
        Some(t) => s.append(t.as_str()),
        None => {},
    }
    s.append("}");
    assert(claims_json(user_id@, username@) == s@);
    assert(crate::jwt::is_plain_claims(s@));
    match encode_hs256(s.as_str(), jwt_key) {
        Some(t) => Ok(t),
        None => Err(TokenError::Encode),
    }
}

/// Logs in against the user held under the key `"1"`: no such user, or a
/// password that differs, is a 401; otherwise the user gets a token signed
/// with `JWT_KEY`.
pub fn login_handle(users_set: &UsersSet, login_payload: &LoginPayload) -> (r: Result<
    LoginResponse,
    StatusCode,
>)
    ensures
        !users_set.users().contains_key("1"@) ==> r == Err::<LoginResponse, StatusCode>(
            StatusCode::Unauthorized,
        ),
        users_set.users().contains_key("1"@) ==> {
            let u = users_set.users()["1"@];
            if u.password@ != login_payload.password@ {
                r == Err::<LoginResponse, StatusCode>(StatusCode::Unauthorized)
            } else {
                r matches Ok(resp) && hs256_token(claims_json(u.id@, u.username@), JWT_KEY@) == Some(
                    resp.token@,
                ) && is_hs256_token_text(resp.token@)
            }
        },
{
    match users_set.get("1") {
        Some(user) => {
            if !(user.password == login_payload.password) {
                return Err(StatusCode::Unauthorized);
            }
            match create_token(user.id.as_str(), user.username.as_str(), JWT_KEY) {
                Ok(token) => Ok(LoginResponse { token }),
                Err(_) => Err(StatusCode::InternalServerError),
            }
        },
        None => Err(StatusCode::Unauthorized),
    }
}

} // verus!
