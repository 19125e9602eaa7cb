//! The server configuration and the parsing of its JSON text.
//!
//! Reading the configuration file is the caller's job; this module turns
//! the file's text into a [`Config`].  The JSON parsing itself is done by
//! serde_json behind trusted items: its document values are opaque here,
//! so the contract of [`load_config`] pins down only what can be stated
//! over them — whether the text parses at all.  The navigation from the
//! parsed document to the typed fields, with a shape error for anything
//! missing or mistyped, is verified glue around those items.

use vstd::prelude::*;

verus! {

/// The logging configuration for the server.
#[derive(Clone, Debug)]
pub struct LogConfig {
    /// The minimum log level that will be logged.
    pub minimum_log_level: String,
}

/// The http configuration for the server.
#[derive(Clone, Debug)]
pub struct HttpConfig {
    /// The host the http server will listen for connections on.
    pub host: String,
    /// The port the http server will listen for connections on.
    pub port: u16,
    /// The path of the certificate the http server will use.
    pub certificate_path: String,
    /// The path of the certificate key the http server will use.
    pub certificate_key_path: String,
    /// The http methods that clients are permitted to use.
    pub methods: Vec<String>,
    /// The origins that are permitted to send http requests.
    pub origins: Vec<String>,
}

/// The database configuration for the server.
#[derive(Clone, Debug)]
pub struct DatabaseConfig {
    /// The connection string that will be used to reach storage.
    pub connection_string: String,
    /// The minimum amount of connections that must be maintained.
    pub minimum_connections: u32,
    /// The maximum amount of connections that are allowed.
    pub maximum_connections: u32,
}

/// The jwt configuration for the server.
#[derive(Clone, Debug)]
pub struct JwtConfig {
    /// The path of the private key that will be used to create tokens.
    pub private_key_path: String,
    /// The path of the public key that will be used to verify tokens.
    pub public_key_path: String,
}

/// The default value configuration for the server.
#[derive(Clone, Debug)]
pub struct DefaultValueConfig {
    /// The profile picture assigned to users on account creation.
    pub user_profile_picture: String,
}

/// The configuration for the server.
#[derive(Clone, Debug)]
pub struct Config {
    /// The server's logging configuration.
    pub log: LogConfig,
    /// The server's http configuration.
    pub http: HttpConfig,
    /// The server's database configuration.
    pub database: DatabaseConfig,
    /// The server's jwt configuration.
    pub jwt: JwtConfig,
    /// The server's default value configuration.
    pub default: DefaultValueConfig,
}

/// The ways configuration text can be rejected.
#[derive(Clone, Copy, PartialEq, Eq, Structural, Debug)]
pub enum ConfigError {
    /// The text is not a JSON document.
    Parse,
    /// The document lacks a required field, or a field has the wrong
    /// type or an out-of-range value.
    Shape,
}

#[verifier::external_type_specification]
#[verifier::external_body]
pub struct ExJsonValue(serde_json::Value);

#[verifier::external_type_specification]
#[verifier::external_body]
pub struct ExJsonError(serde_json::Error);

/// Whether serde_json accepts the text as a JSON document.  Parsing is a
/// pure function of the text; this name stands for its success.
pub uninterp spec fn json_text_parses(text: Seq<char>) -> bool;

/// Relies on serde_json's `from_str`: parse a JSON document, succeeding
/// exactly when the text is valid JSON.
#[verifier::external_body]
fn parse_json(raw: &String) -> (r: Result<serde_json::Value, serde_json::Error>)
    ensures
        r is Ok <==> json_text_parses(raw@),
{
    serde_json::from_str::<serde_json::Value>(raw.as_str())
}

/// Relies on serde_json's `Value::get`: the member of a JSON object under
/// the given key, if there is one.
#[verifier::external_body]
fn json_field<'a>(value: &'a serde_json::Value, key: &str) -> (r: Option<&'a serde_json::Value>) {
    value.get(key)
}

/// Relies on serde_json's `Value::as_str`: the content of a JSON string
/// value, if it is one.
#[verifier::external_body]
fn json_string(value: &serde_json::Value) -> (r: Option<String>) {
    value.as_str().map(String::from)
}

/// Relies on serde_json's `Value::as_u64`: the content of a JSON
/// non-negative integer value, if it is one.
#[verifier::external_body]
fn json_u64(value: &serde_json::Value) -> (r: Option<u64>) {
    value.as_u64()
}

/// Relies on serde_json's `Value::as_array`: the elements of a JSON array
/// value, if it is one.
#[verifier::external_body]
fn json_array<'a>(value: &'a serde_json::Value) -> (r: Option<&'a Vec<serde_json::Value>>) {
    value.as_array()
}

/// A required string member of a JSON object.
fn required_string(value: &serde_json::Value, key: &str) -> (r: Result<String, ConfigError>) {
    match json_field(value, key) {
        Some(member) => match json_string(member) {
            Some(text) => Ok(text),
            None => Err(ConfigError::Shape),
        },
        None => Err(ConfigError::Shape),
    }
}

/// A required non-negative integer member of a JSON object.
fn required_u64(value: &serde_json::Value, key: &str) -> (r: Result<u64, ConfigError>) {
    match json_field(value, key) {
        Some(member) => match json_u64(member) {
            Some(number) => Ok(number),
            None => Err(ConfigError::Shape),
        },
        None => Err(ConfigError::Shape),
    }
}

/// A required member of a JSON object that is an array of strings.
fn required_string_array(value: &serde_json::Value, key: &str) -> (r: Result<
    Vec<String>,
    ConfigError,
>) {
    let member = match json_field(value, key) {
        Some(member) => member,
        None => {
            return Err(ConfigError::Shape);
        },
    };
    let elements = match json_array(member) {
        Some(elements) => elements,
        None => {
            return Err(ConfigError::Shape);
        },
    };
    let mut out: Vec<String> = Vec::new();
    let mut i: usize = 0;
    while i < elements.len()
        decreases elements@.len() - i,
    {
        match json_string(&elements[i]) {
            Some(text) => out.push(text),
            None => {
                return Err(ConfigError::Shape);
            },
        }
        i = i + 1;
    }
    Ok(out)
}

/// A required member of a JSON object that is itself an object holding
/// further members (any value can be navigated; mistyped members surface
/// when they are read).
fn required_member<'a>(value: &'a serde_json::Value, key: &str) -> (r: Result<
    &'a serde_json::Value,
    ConfigError,
>) {
    match json_field(value, key) {
        Some(member) => Ok(member),
        None => Err(ConfigError::Shape),
    }
}

/// Parse the configuration file's JSON text into a [`Config`]: the text
/// must be a JSON document (exactly when it is not, the parse error comes
/// back), and every configuration field must be present with a value of
/// its type, else the shape error comes back.
pub fn load_config(raw_json_config: &String) -> (r: Result<Config, ConfigError>)
    ensures
        r is Ok ==> json_text_parses(raw_json_config@),
        !json_text_parses(raw_json_config@) ==> r == Err::<Config, ConfigError>(
            ConfigError::Parse,
        ),
{
    let document = match parse_json(raw_json_config) {
        Ok(document) => document,
        Err(_) => {
            return Err(ConfigError::Parse);
        },
    };
    let log_member = required_member(&document, "log")?;
    let log = LogConfig { minimum_log_level: required_string(log_member, "minimumLogLevel")? };
    let http_member = required_member(&document, "http")?;
    let port_number = required_u64(http_member, "port")?;
    if port_number > 65535 {
        return Err(ConfigError::Shape);
    }
    let http = HttpConfig {
        host: required_string(http_member, "host")?,
        port: port_number as u16,
        certificate_path: required_string(http_member, "certificatePath")?,
        certificate_key_path: required_string(http_member, "certificateKeyPath")?,
        methods: required_string_array(http_member, "methods")?,
        origins: required_string_array(http_member, "origins")?,
    };
    let database_member = required_member(&document, "database")?;
    let minimum_connections = required_u64(database_member, "minimumConnections")?;
    let maximum_connections = required_u64(database_member, "maximumConnections")?;
    if minimum_connections > u32::MAX as u64 || maximum_connections > u32::MAX as u64 {
        return Err(ConfigError::Shape);
    }
    let database = DatabaseConfig {
        connection_string: required_string(database_member, "connectionString")?,
        minimum_connections: minimum_connections as u32,
        maximum_connections: maximum_connections as u32,
    };
    let jwt_member = required_member(&document, "jwt")?;
    let jwt = JwtConfig {
        private_key_path: required_string(jwt_member, "privateKeyPath")?,
        public_key_path: required_string(jwt_member, "publicKeyPath")?,
    };
    let default_member = required_member(&document, "default")?;
    let default = DefaultValueConfig {
        user_profile_picture: required_string(default_member, "userProfilePicture")?,
    };
    Ok(Config { log, http, database, jwt, default })
}

} // verus!
