//! Service settings: where to listen and which database to use.
use vstd::prelude::*;

verus! {

#[derive(Debug)]
pub struct Config {
    pub server: ServerConfig,
    pub database: DatabaseConfig,
}

#[derive(Debug)]
pub struct ServerConfig {
    pub host: String,
    pub port: u16,
    pub cors_allow_origin: String,
}

#[derive(Debug)]
pub struct DatabaseConfig {
    pub url: String,
    pub namespace: String,
    pub name: String,
    pub username: String,
    pub password: String,
}

/// The raw settings as found, each possibly missing.
#[derive(Debug)]
pub struct Settings {
    pub host: Option<String>,
    pub port: Option<String>,
    pub cors_allow_origin: Option<String>,
    pub database_url: Option<String>,
    pub database_namespace: Option<String>,
    pub database_name: Option<String>,
    pub database_username: Option<String>,
    pub database_password: Option<String>,
}

/// What `str::parse::<u16>` makes of a text.
pub uninterp spec fn u16_parse(s: Seq<char>) -> Option<u16>;

/// Relies on `str::parse::<u16>`: the number a text spells, or the parse
/// error's message.
#[verifier::external_body]
fn parse_u16(s: &str) -> (r: Result<u16, String>)
    ensures
        r is Ok <==> u16_parse(s@) is Some,
        r matches Ok(n) ==> u16_parse(s@) == Some(n),
{
    match s.parse::<u16>() {
        Ok(n) => Ok(n),
        Err(e) => Err(e.to_string()),
    }
}

/// A setting's value, or the default when it is missing.
pub open spec fn setting_or(v: Option<String>, default: Seq<char>) -> Seq<char> {
    match v {
        Some(s) => s@,
        None => default,
    }
}

fn value_or(v: Option<String>, default: &str) -> (r: String)
    ensures
        r@ == setting_or(v, default@),
{
    match v {
        Some(s) => s,
        None => String::from_str(default),
    }
}

/// The message for a missing database address.
pub open spec fn missing_database_url() -> Seq<char> {
    "DATABASE_URL environment variable is required"@
}

impl Config {
    /// Settings with their defaults filled in: host 0.0.0.0, port 8080,
    /// local CORS origin, namespace royalpizza, database development, and
    /// root credentials. The port must parse as a number and the database
    /// address must be given.
    pub fn from_settings(settings: Settings) -> (r: Result<Config, String>)
        ensures
            ({
                let port_ok = match settings.port {
                    Some(p) => u16_parse(p@) is Some,
                    None => true,
                };
                &&& !port_ok ==> (r matches Err(m) && m@.len() >= "Invalid PORT value: "@.len()
                    && m@.subrange(0, "Invalid PORT value: "@.len() as int)
                    == "Invalid PORT value: "@)
                &&& port_ok && settings.database_url is None ==> (r matches Err(m) && m@
                    == missing_database_url())
                &&& port_ok && settings.database_url is Some ==> (r matches Ok(c) && {
                    &&& c.server.host@ == setting_or(settings.host, "0.0.0.0"@)
                    &&& c.server.port == match settings.port {
                        Some(p) => u16_parse(p@)->0,
                        None => 8080,
                    }
                    &&& c.server.cors_allow_origin@ == setting_or(
                        settings.cors_allow_origin,
                        "http://localhost:3000"@,
                    )
                    &&& c.database.url == settings.database_url->0
                    &&& c.database.namespace@ == setting_or(
                        settings.database_namespace,
                        "royalpizza"@,
                    )
                    &&& c.database.name@ == setting_or(settings.database_name, "development"@)
                    &&& c.database.username@ == setting_or(settings.database_username, "root"@)
                    &&& c.database.password@ == setting_or(settings.database_password, "root"@)
                })
            }),
    {
        let port = match &settings.port {
            Some(p) => match parse_u16(p.as_str()) {
                Ok(n) => n,
                Err(e) => {
                    let mut m = String::from_str("Invalid PORT value: ");
                    m.append(e.as_str());
                    proof {
                        assert(m@.subrange(0, "Invalid PORT value: "@.len() as int)
                            =~= "Invalid PORT value: "@);
                    }
                    return Err(m);
                },
            },
            None => 8080,
        };
        let url = match settings.database_url {
            Some(u) => u,
            None => {
                return Err(String::from_str("DATABASE_URL environment variable is required"));
            },
        };
        Ok(
            Config {
                server: ServerConfig {
                    host: value_or(settings.host, "0.0.0.0"),
                    port,
                    cors_allow_origin: value_or(
                        settings.cors_allow_origin,
                        "http://localhost:3000",
                    ),
                },
                database: DatabaseConfig {
                    url,
                    namespace: value_or(settings.database_namespace, "royalpizza"),
                    name: value_or(settings.database_name, "development"),
                    username: value_or(settings.database_username, "root"),
                    password: value_or(settings.database_password, "root"),
                },
            },
        )
    }
}

} // verus!
