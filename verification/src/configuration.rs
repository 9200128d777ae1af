//! The service's settings and the Postgres connection strings built from them.

use vstd::prelude::*;
use crate::text::{decimal, write_decimal};

verus! {

/// All settings of the service: the database, the port it listens on and
/// the token settings.
pub struct Settings {
    pub database: DatabaseSettings,
    pub application_port: u16,
    pub jwt: JwtSettings,
}

/// Where and as whom to reach the Postgres database.
pub struct DatabaseSettings {
    pub username: String,
    pub password: String,
    pub db_name: String,
    pub host: String,
    pub port: u16,
}

/// The secret that signs tokens, and the lifetime setting of tokens.
pub struct JwtSettings {
    pub secret: String,
    pub expiration: i32,
}

/// `postgres://{username}:{password}@{host}:{port}`: the server, without a
/// database.
pub open spec fn server_url(d: DatabaseSettings) -> Seq<char> {
    "postgres://"@ + d.username@ + ":"@ + d.password@ + "@"@ + d.host@ + ":"@ + decimal(
        d.port as nat,
    )
}

/// `postgres://{username}:{password}@{host}:{port}/{db_name}`.
pub open spec fn database_url(d: DatabaseSettings) -> Seq<char> {
    "postgres://"@ + d.username@ + ":"@ + d.password@ + "@"@ + d.host@ + ":"@ + decimal(
        d.port as nat,
    ) + "/"@ + d.db_name@
}

impl DatabaseSettings {
    /// The URL of the database itself.
    pub fn connection_string(&self) -> (s: String)
        ensures
            s@ == database_url(*self),
    {
        let mut s = self.connection_string_without_db_name();
        s.append("/");
        s.append(self.db_name.as_str());
        s
    }

    /// The URL of the database server, without a database (to create one).
    pub fn connection_string_without_db_name(&self) -> (s: String)
        ensures
            s@ == server_url(*self),
    {
        let mut s = String::new();
        s.append("postgres://");
        s.append(self.username.as_str());
        s.append(":");
        s.append(self.password.as_str());
        s.append("@");
        s.append(self.host.as_str());
        s.append(":");
        write_decimal(&mut s, self.port as u64);
        s
    }
}

/// The database URL is the server URL followed by `/` and the database name.
pub proof fn lemma_database_url_extends_server_url(d: DatabaseSettings)
    ensures
        database_url(d) == server_url(d) + "/"@ + d.db_name@,
{
}

/// The server URL carries every setting verbatim and in order: after the
/// scheme `postgres://` come the user name, `:`, the password, `@`, the
/// host, `:` and the port in decimal, each field exactly as given.
pub proof fn law_server_url_fields(d: DatabaseSettings)
    ensures
        ({
            let w = server_url(d);
            let a = "postgres://"@.len() as int;
            let u = d.username@.len() as int;
            let p = d.password@.len() as int;
            let h = d.host@.len() as int;
            &&& w.subrange(0, a) == "postgres://"@
            &&& w.subrange(a, a + u) == d.username@
            &&& w[a + u] == ':'
            &&& w.subrange(a + u + 1, a + u + 1 + p) == d.password@
            &&& w[a + u + 1 + p] == '@'
            &&& w.subrange(a + u + 2 + p, a + u + 2 + p + h) == d.host@
            &&& w[a + u + 2 + p + h] == ':'
            &&& w.subrange(a + u + 3 + p + h, w.len() as int) == decimal(d.port as nat)
        }),
{
    reveal_strlit(":");
    reveal_strlit("@");
    let w = server_url(d);
    let a = "postgres://"@.len() as int;
    let u = d.username@.len() as int;
    let p = d.password@.len() as int;
    let h = d.host@.len() as int;
    assert(w.subrange(0, a) =~= "postgres://"@);
    assert(w.subrange(a, a + u) =~= d.username@);
    assert(w.subrange(a + u + 1, a + u + 1 + p) =~= d.password@);
    assert(w.subrange(a + u + 2 + p, a + u + 2 + p + h) =~= d.host@);
    assert(w.subrange(a + u + 3 + p + h, w.len() as int) =~= decimal(d.port as nat));
}

/// The database URL carries every setting verbatim and in order: the
/// scheme, the user name, `:`, the password, `@`, the host, `:`, the port in
/// decimal, `/` and the database name, each field exactly as given.
pub proof fn law_database_url_fields(d: DatabaseSettings)
    ensures
        ({
            let w = database_url(d);
            let a = "postgres://"@.len() as int;
            let u = d.username@.len() as int;
            let p = d.password@.len() as int;
            let h = d.host@.len() as int;
            let k = decimal(d.port as nat).len() as int;
            &&& w.subrange(0, a) == "postgres://"@
            &&& w.subrange(a, a + u) == d.username@
            &&& w[a + u] == ':'
            &&& w.subrange(a + u + 1, a + u + 1 + p) == d.password@
            &&& w[a + u + 1 + p] == '@'
            &&& w.subrange(a + u + 2 + p, a + u + 2 + p + h) == d.host@
            &&& w[a + u + 2 + p + h] == ':'
            &&& w.subrange(a + u + 3 + p + h, a + u + 3 + p + h + k) == decimal(d.port as nat)
            &&& w[a + u + 3 + p + h + k] == '/'
            &&& w.subrange(a + u + 4 + p + h + k, w.len() as int) == d.db_name@
        }),
{
    reveal_strlit(":");
    reveal_strlit("@");
    reveal_strlit("/");
    let w = database_url(d);
    let a = "postgres://"@.len() as int;
    let u = d.username@.len() as int;
    let p = d.password@.len() as int;
    let h = d.host@.len() as int;
    let k = decimal(d.port as nat).len() as int;
    assert(w.subrange(0, a) =~= "postgres://"@);
    assert(w.subrange(a, a + u) =~= d.username@);
    assert(w.subrange(a + u + 1, a + u + 1 + p) =~= d.password@);
    assert(w.subrange(a + u + 2 + p, a + u + 2 + p + h) =~= d.host@);
    assert(w.subrange(a + u + 3 + p + h, a + u + 3 + p + h + k) =~= decimal(d.port as nat));
    assert(w.subrange(a + u + 4 + p + h + k, w.len() as int) =~= d.db_name@);
}

} // verus!
