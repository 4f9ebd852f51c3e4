//! Service settings, assembled from named values with their defaults.
use vstd::prelude::*;
use vstd::string::StringExecFns;
use crate::numeric::{fault_text, parse_unsigned, unsigned_parse, IntFault};
use crate::text::str_eq;

verus! {

/// A setting that is missing or cannot be read.
pub enum ConfigError {
    /// The named variable is required and absent.
    MissingVar(String),
    /// The named variable cannot be read; the second field says why.
    InvalidValue(String, String),
}

/// How to reach one database.
pub struct DbSettings {
    pub user: String,
    pub password: String,
    pub host: String,
    pub port: u16,
    pub database_name: String,
    pub schema: String,
    pub max_connections: u32,
    pub disable_ssl: bool,
}

/// The service's settings: the metadata database, the spatial database (same server,
/// its own schema and pool bound), and the scratch directory for uploads.
pub struct Config {
    pub app_db: DbSettings,
    pub spatial_db: DbSettings,
    pub temp_data_path: String,
}

/// The raw values of the settings, each absent when not set.
pub struct ConfigVars {
    pub database_user: Option<String>,
    pub database_password: Option<String>,
    pub database_host: Option<String>,
    pub database_name: Option<String>,
    pub database_port: Option<String>,
    pub database_disable_ssl: Option<String>,
    pub database_max_connections: Option<String>,
    pub postgis_max_connections: Option<String>,
    pub database_schema: Option<String>,
    pub layer_schema: Option<String>,
    pub temp_data_path: Option<String>,
}

/// The lowercase form of a text, as `str::to_lowercase` gives it.
pub uninterp spec fn lower_of(s: Seq<char>) -> Seq<char>;

/// Relies on `str::to_lowercase`: the result depends on the characters alone.
#[verifier::external_body]
fn lowercase(s: &str) -> (r: String)
    ensures
        r@ == lower_of(s@),
{
    s.to_lowercase()
}

/// A value, or `d` when it is absent.
pub open spec fn or_default(o: Option<String>, d: Seq<char>) -> Seq<char> {
    match o {
        Some(s) => s@,
        None => d,
    }
}

/// The first required variable that is absent, in the order user, password, host, name.
pub open spec fn first_missing(v: ConfigVars) -> Option<Seq<char>> {
    if v.database_user is None {
        Some("DATABASE_USER"@)
    } else if v.database_password is None {
        Some("DATABASE_PASSWORD"@)
    } else if v.database_host is None {
        Some("DATABASE_HOST"@)
    } else if v.database_name is None {
        Some("DATABASE_NAME"@)
    } else {
        None
    }
}

pub open spec fn port_text(v: ConfigVars) -> Seq<char> {
    or_default(v.database_port, "5432"@)
}

pub open spec fn app_connections_text(v: ConfigVars) -> Seq<char> {
    or_default(v.database_max_connections, "20"@)
}

pub open spec fn spatial_connections_text(v: ConfigVars) -> Seq<char> {
    or_default(v.postgis_max_connections, "10"@)
}

/// The first numeric setting that does not read as a number of its type, with the
/// message of the parse failure.
pub open spec fn first_invalid(v: ConfigVars) -> Option<(Seq<char>, Seq<char>)> {
    match unsigned_parse(port_text(v), 0xffff) {
        Err(f) => Some(("DATABASE_PORT"@, fault_text(f))),
        Ok(_) => match unsigned_parse(app_connections_text(v), 0xffff_ffff) {
            Err(f) => Some(("PG_MAX_CONNECTIONS"@, fault_text(f))),
            Ok(_) => match unsigned_parse(spatial_connections_text(v), 0xffff_ffff) {
                Err(f) => Some(("POSTGIS_MAX_CONNECTIONS"@, fault_text(f))),
                Ok(_) => None,
            },
        },
    }
}

/// The settings that the values `v` describe.
pub open spec fn describes(c: Config, v: ConfigVars) -> bool {
    &&& c.app_db.user@ == or_default(v.database_user, Seq::empty())
    &&& c.app_db.password@ == or_default(v.database_password, Seq::empty())
    &&& c.app_db.host@ == or_default(v.database_host, Seq::empty())
    &&& c.app_db.database_name@ == or_default(v.database_name, Seq::empty())
    &&& unsigned_parse(port_text(v), 0xffff) == Ok::<u64, IntFault>(c.app_db.port as u64)
    &&& c.app_db.disable_ssl == (lower_of(or_default(v.database_disable_ssl, "false"@)) == "true"@)
    &&& unsigned_parse(app_connections_text(v), 0xffff_ffff) == Ok::<u64, IntFault>(
        c.app_db.max_connections as u64,
    )
    &&& c.app_db.schema@ == or_default(v.database_schema, "public"@)
    &&& c.spatial_db.user@ == c.app_db.user@
    &&& c.spatial_db.password@ == c.app_db.password@
    &&& c.spatial_db.host@ == c.app_db.host@
    &&& c.spatial_db.database_name@ == c.app_db.database_name@
    &&& c.spatial_db.port == c.app_db.port
    &&& c.spatial_db.disable_ssl == c.app_db.disable_ssl
    &&& unsigned_parse(spatial_connections_text(v), 0xffff_ffff) == Ok::<u64, IntFault>(
        c.spatial_db.max_connections as u64,
    )
    &&& c.spatial_db.schema@ == or_default(v.layer_schema, "gridwalk_layer_data"@)
    &&& c.temp_data_path@ == or_default(v.temp_data_path, "/tmp"@)
}

fn value_or(o: Option<String>, d: &str) -> (r: String)
    ensures
        r@ == or_default(o, d@),
{
    match o {
        Some(s) => s,
        None => String::from_str(d),
    }
}

impl Config {
    /// Assembles the settings from their raw values: the database user, password, host
    /// and name are required; the rest have defaults (port 5432, 20 and 10 connections,
    /// schemas `public` and `gridwalk_layer_data`, scratch directory `/tmp`, SSL on unless
    /// the flag reads `true` in any case).
    pub fn from_vars(v: ConfigVars) -> (r: Result<Config, ConfigError>)
        ensures
            r is Err <==> first_missing(v) is Some || first_invalid(v) is Some,
            r matches Err(ConfigError::MissingVar(n)) ==> first_missing(v) == Some(n@),
            r matches Err(ConfigError::InvalidValue(n, val)) ==> first_missing(v) is None
                && first_invalid(v) == Some((n@, val@)),
            r matches Ok(c) ==> describes(c, v),
    {
        proof {
            reveal_strlit("DATABASE_USER");
            reveal_strlit("DATABASE_PASSWORD");
            reveal_strlit("DATABASE_HOST");
            reveal_strlit("DATABASE_NAME");
        }
        let ConfigVars {
            database_user,
            database_password,
            database_host,
            database_name,
            database_port,
            database_disable_ssl,
            database_max_connections,
            postgis_max_connections,
            database_schema,
            layer_schema,
            temp_data_path,
        } = v;
        let user = match database_user {
            Some(s) => s,
            None => {
                return Err(ConfigError::MissingVar(String::from_str("DATABASE_USER")));
            },
        };
        let password = match database_password {
            Some(s) => s,
            None => {
                return Err(ConfigError::MissingVar(String::from_str("DATABASE_PASSWORD")));
            },
        };
        let host = match database_host {
            Some(s) => s,
            None => {
                return Err(ConfigError::MissingVar(String::from_str("DATABASE_HOST")));
            },
        };
        let name = match database_name {
            Some(s) => s,
            None => {
                return Err(ConfigError::MissingVar(String::from_str("DATABASE_NAME")));
            },
        };
        let port_value = value_or(database_port, "5432");
        let port = match parse_unsigned(port_value.as_str(), 0xffff) {
            Ok(p) => {
                assert(p <= 0xffff);
                p as u16
            },
            Err(f) => {
                return Err(
                    ConfigError::InvalidValue(
                        String::from_str("DATABASE_PORT"),
                        String::from_str(f.message()),
                    ),
                );
            },
        };
        let app_conn_value = value_or(database_max_connections, "20");
        let app_connections = match parse_unsigned(app_conn_value.as_str(), 0xffff_ffff) {
            Ok(n) => {
                assert(n <= 0xffff_ffff);
                n as u32
            },
            Err(f) => {
                return Err(
                    ConfigError::InvalidValue(
                        String::from_str("PG_MAX_CONNECTIONS"),
                        String::from_str(f.message()),
                    ),
                );
            },
        };
        let spatial_conn_value = value_or(postgis_max_connections, "10");
        let spatial_connections = match parse_unsigned(spatial_conn_value.as_str(), 0xffff_ffff) {
            Ok(n) => {
                assert(n <= 0xffff_ffff);
                n as u32
            },
            Err(f) => {
                return Err(
                    ConfigError::InvalidValue(
                        String::from_str("POSTGIS_MAX_CONNECTIONS"),
                        String::from_str(f.message()),
                    ),
                );
            },
        };
        let ssl_flag = value_or(database_disable_ssl, "false");
        let lowered = lowercase(ssl_flag.as_str());
        proof {
            reveal_strlit("true");
        }
        let disable_ssl = str_eq(lowered.as_str(), "true");
        proof {
            reveal_strlit("false");
            reveal_strlit("5432");
            reveal_strlit("20");
            reveal_strlit("10");
            reveal_strlit("public");
            reveal_strlit("gridwalk_layer_data");
            reveal_strlit("/tmp");
        }
        let spatial_db = DbSettings {
            user: user.as_str().to_owned(),
            password: password.as_str().to_owned(),
            host: host.as_str().to_owned(),
            port,
            database_name: name.as_str().to_owned(),
            schema: value_or(layer_schema, "gridwalk_layer_data"),
            max_connections: spatial_connections,
            disable_ssl,
        };
        let app_db = DbSettings {
            user,
            password,
            host,
            port,
            database_name: name,
            schema: value_or(database_schema, "public"),
            max_connections: app_connections,
            disable_ssl,
        };
        Ok(Config { app_db, spatial_db, temp_data_path: value_or(temp_data_path, "/tmp") })
    }
}

} // verus!
