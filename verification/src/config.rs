//! Settings of the server programs.

use vstd::prelude::*;
use vstd::string::StrSliceExecFns;
use vstd::string::StringExecFns;

verus! {

/// Where the server listens and what it serves.
#[derive(Debug, Clone)]
pub struct ServerConfig {
    pub bind_address: String,
    pub port: u16,
    pub public_dir: String,
    pub cors_origin: Vec<String>,
}

/// Where the database is.
#[derive(Debug, Clone)]
pub struct DatabaseConfig {
    pub url: String,
}

/// Where tokens are verified.
#[derive(Debug, Clone)]
pub struct AuthConfig {
    pub keycloak_url: String,
    pub realm: String,
    pub client_id: String,
}

/// All settings of the server.
#[derive(Debug, Clone)]
pub struct AppConfig {
    pub server: ServerConfig,
    pub database: DatabaseConfig,
    pub auth: AuthConfig,
}

/// Settings of the game server.
#[derive(Debug)]
pub struct Config {
    pub port: u16,
    pub database_url: String,
}

/// The port on which the game server listens unless told otherwise.
pub const DEFAULT_PORT: u16 = 3000;

impl Config {
    /// The settings for a database address that may be missing: port 3000,
    /// and the local database where no address is given.
    pub fn with_database_url(database_url: Option<String>) -> (config: Self)
        ensures
            config.port == DEFAULT_PORT,
            database_url is Some ==> config.database_url == database_url->Some_0,
            database_url is None ==> config.database_url@ == "postgresql://localhost/mp"@,
    {
        let database_url = match database_url {
            Some(url) => url,
            None => String::from_str("postgresql://localhost/mp"),
        };
        Config { port: DEFAULT_PORT, database_url }
    }
}

/// What the server reads from its surroundings, each value as it was
/// found or `None` where it was not set.
pub struct Environment {
    /// `MP_SERVER_PORT`
    pub server_port: Option<String>,
    /// `MP_SERVER_PUBLIC_DIR`
    pub public_dir: Option<String>,
    /// `MP_CORS_ORIGIN`
    pub cors_origin: Option<String>,
    /// `DATABASE_URL`
    pub database_url: Option<String>,
    /// `KEYCLOAK_URL`
    pub keycloak_url: Option<String>,
    /// `KEYCLOAK_REALM`
    pub keycloak_realm: Option<String>,
    /// `KEYCLOAK_CLIENT_ID`
    pub keycloak_client_id: Option<String>,
}

/// Why no settings could be made of an environment.
#[derive(Debug, Clone, Copy, PartialEq, Eq, Structural)]
pub enum ConfigError {
    /// The port is no number between 0 and 65535.
    InvalidPort,
    /// `DATABASE_URL` is not set.
    MissingDatabaseUrl,
    /// `KEYCLOAK_URL` is not set.
    MissingKeycloakUrl,
    /// `KEYCLOAK_REALM` is not set.
    MissingKeycloakRealm,
    /// `KEYCLOAK_CLIENT_ID` is not set.
    MissingKeycloakClientId,
}

/// What `str::trim` returns for a text: the text without the white space
/// at its start and at its end.
pub uninterp spec fn trimmed(text: Seq<char>) -> Seq<char>;

/// Calls `str::trim`, which reads nothing but the text.
#[verifier::external_body]
fn trim_text(text: &str) -> (inner: &str)
    ensures
        inner@ == trimmed(text@),
{
    text.trim()
}

/// Whether the character is one of the ten decimal digits.
pub open spec fn is_digit(c: char) -> bool {
    '0' <= c <= '9'
}

/// Whether every character is a decimal digit.
pub open spec fn all_digits(text: Seq<char>) -> bool {
    forall|i: int| 0 <= i < text.len() ==> is_digit(#[trigger] text[i])
}

/// The number that a sequence of decimal digits writes.
pub open spec fn digits_value(digits: Seq<char>) -> nat
    decreases digits.len(),
{
    if digits.len() == 0 {
        0
    } else {
        digits_value(digits.drop_last()) * 10 + (digits.last() as nat - '0' as nat) as nat
    }
}

/// The text without a plus sign at its start.
pub open spec fn unsigned_part(text: Seq<char>) -> Seq<char> {
    if text.len() > 0 && text[0] == '+' {
        text.skip(1)
    } else {
        text
    }
}

/// The port that a text writes: one or more decimal digits, with or
/// without a plus sign before them, whose number is at most 65535.
pub open spec fn port_of_text(text: Seq<char>) -> Option<u16> {
    let digits = unsigned_part(text);
    if digits.len() > 0 && all_digits(digits) && digits_value(digits) <= 65535 {
        Some(digits_value(digits) as u16)
    } else {
        None
    }
}

/// The number written by a sequence of digits is at least the number
/// written by any of its beginnings.
pub proof fn lemma_digits_value_grows(digits: Seq<char>, k: int)
    requires
        0 <= k <= digits.len(),
        all_digits(digits),
    ensures
        digits_value(digits.take(k)) <= digits_value(digits),
    decreases digits.len() - k,
{
    if k == digits.len() {
        assert(digits.take(k) =~= digits);
    } else {
        lemma_digits_value_grows(digits, k + 1);
        assert(digits.take(k + 1).drop_last() =~= digits.take(k));
        assert(is_digit(digits.take(k + 1).last()));
    }
}

/// Reads a port from its text.
pub fn parse_port(text: &str) -> (port: Option<u16>)
    ensures
        port == port_of_text(text@),
{
    let len = text.unicode_len();
    let start: usize = if len > 0 && text.get_char(0) == '+' {
        1
    } else {
        0
    };
    let ghost digits = unsigned_part(text@);
    assert(digits =~= text@.skip(start as int));
    if start == len {
        return None;
    }
    let mut value: u32 = 0;
    let mut i: usize = start;
    assert(digits.take(0) =~= Seq::<char>::empty());
    while i < len
        invariant
            len == text@.len(),
            start <= i <= len,
            start < len,
            digits == text@.skip(start as int),
            digits == unsigned_part(text@),
            all_digits(digits.take(i - start)),
            value == digits_value(digits.take(i - start)),
            value <= 65535,
        decreases len - i,
    {
        let c = text.get_char(i);
        assert(digits[i - start] == c);
        if c < '0' || c > '9' {
            assert(!is_digit(digits[i - start]));
            return None;
        }
        let digit: u32 = (c as u32) - ('0' as u32);
        value = value * 10 + digit;
        proof {
            let next = digits.take(i - start + 1);
            assert(next.drop_last() =~= digits.take(i - start));
            assert(next.last() == c);
            assert(value == digits_value(next));
            assert forall|j: int| 0 <= j < next.len() implies is_digit(#[trigger] next[j]) by {
                if j < next.len() - 1 {
                    assert(next[j] == digits.take(i - start)[j]);
                }
            }
        }
        if value > 65535 {
            proof {
                if all_digits(digits) {
                    lemma_digits_value_grows(digits, i - start + 1);
                }
            }
            return None;
        }
        i = i + 1;
    }
    assert(digits.take(i - start) =~= digits);
    Some(value as u16)
}

/// The ten decimal digits, in order of their value.
pub open spec fn decimal_digits() -> Seq<char> {
    "0123456789"@
}

/// The number written in decimal digits, without leading zeros; zero is
/// the single digit `0`.
pub open spec fn decimal(n: nat) -> Seq<char>
    decreases n,
{
    if n < 10 {
        seq![decimal_digits()[n as int]]
    } else {
        decimal(n / 10).push(decimal_digits()[(n % 10) as int])
    }
}

/// Writes a port in decimal digits.
pub fn port_text(port: u16) -> (text: String)
    ensures
        text@ == decimal(port as nat),
    decreases port,
{
    let digits = "0123456789";
    proof {
        reveal_strlit("0123456789");
    }
    let value: usize = (port % 10) as usize;
    let last = digits.substring_ascii(value, value + 1);
    assert(last@ =~= seq![decimal_digits()[value as int]]);
    if port < 10 {
        String::from_str(last)
    } else {
        let text = port_text(port / 10).concat(last);
        assert(text@ =~= decimal((port / 10) as nat).push(decimal_digits()[value as int]));
        text
    }
}

/// A number written in decimal digits reads back as the number.
pub proof fn lemma_decimal_reads_back(n: nat)
    ensures
        decimal(n).len() >= 1,
        all_digits(decimal(n)),
        digits_value(decimal(n)) == n,
    decreases n,
{
    reveal_strlit("0123456789");
    let text = decimal(n);
    if n < 10 {
        assert(text.drop_last() =~= Seq::<char>::empty());
        assert(text.last() == decimal_digits()[n as int]);
        assert(digits_value(text.drop_last()) == 0);
    } else {
        lemma_decimal_reads_back(n / 10);
        assert(text.drop_last() =~= decimal(n / 10));
        assert(text.last() == decimal_digits()[(n % 10) as int]);
        assert forall|i: int| 0 <= i < text.len() implies is_digit(#[trigger] text[i]) by {
            if i < text.len() - 1 {
                assert(text[i] == decimal(n / 10)[i]);
            }
        }
    }
}

/// Every port is read back from its own text.
pub proof fn lemma_port_text_reads_back(port: u16)
    ensures
        port_of_text(decimal(port as nat)) == Some(port),
{
    lemma_decimal_reads_back(port as nat);
    let text = decimal(port as nat);
    assert(is_digit(text[0]));
    assert(unsigned_part(text) == text);
}

/// The address on which the server listens for a port: every interface,
/// then a colon and the port in decimal digits.
pub open spec fn bind_address_of(port: u16) -> Seq<char> {
    "0.0.0.0:"@ + decimal(port as nat)
}

/// The parts of a text between its commas, in order. A text without a
/// comma is its own single part; an empty text has one empty part.
pub open spec fn comma_parts(text: Seq<char>) -> Seq<Seq<char>>
    decreases text.len(),
{
    match text.index_of_first(',') {
        Some(at) => if 0 <= at < text.len() {
            seq![text.take(at)] + comma_parts(text.skip(at + 1))
        } else {
            seq![text]
        },
        None => seq![text],
    }
}

/// Whether `origins` holds the parts of `text` between its commas, each
/// without the white space around it.
pub open spec fn origins_of(text: Seq<char>, origins: Seq<String>) -> bool {
    &&& origins.len() == comma_parts(text).len()
    &&& forall|i: int|
        0 <= i < origins.len() ==> (#[trigger] origins[i])@ == trimmed(comma_parts(text)[i])
}

/// A text whose first comma stands at `at` splits into what stands before
/// it and the parts of what follows it.
proof fn lemma_comma_parts_at(text: Seq<char>, at: int)
    requires
        0 <= at < text.len(),
        text[at] == ',',
        forall|i: int| 0 <= i < at ==> text[i] != ',',
    ensures
        comma_parts(text) == seq![text.take(at)] + comma_parts(text.skip(at + 1)),
{
    assert(text.contains(','));
    text.index_of_first_ensures(',');
    let found = text.index_of_first(',')->Some_0;
    assert(found == at) by {
        if found < at {
            assert(text[found] != ',');
        }
        if found > at {
            assert(text[at] != ',');
        }
    }
}

/// Splits a list of origins at its commas and trims each part.
pub fn split_origins(text: &str) -> (origins: Vec<String>)
    ensures
        origins_of(text@, origins@),
{
    let len = text.unicode_len();
    let mut origins: Vec<String> = Vec::new();
    let mut start: usize = 0;
    let mut i: usize = 0;
    let ghost mut done: Seq<Seq<char>> = Seq::empty();
    assert(text@.skip(0) =~= text@);
    while i < len
        invariant
            len == text@.len(),
            0 <= start <= i <= len,
            forall|k: int| start <= k < i ==> text@[k] != ',',
            comma_parts(text@) == done + comma_parts(text@.skip(start as int)),
            origins@.len() == done.len(),
            forall|k: int| 0 <= k < origins@.len() ==> (#[trigger] origins@[k])@ == trimmed(done[k]),
        decreases len - i,
    {
        if text.get_char(i) == ',' {
            let part = text.substring_char(start, i);
            origins.push(String::from_str(trim_text(part)));
            proof {
                let rest = text@.skip(start as int);
                assert forall|k: int| 0 <= k < i - start implies rest[k] != ',' by {
                    assert(rest[k] == text@[start + k]);
                }
                lemma_comma_parts_at(rest, i - start);
                assert(rest.take(i - start) =~= part@);
                assert(rest.skip(i - start + 1) =~= text@.skip(i + 1));
                assert(done + (seq![part@] + comma_parts(text@.skip(i + 1))) =~= done.push(part@)
                    + comma_parts(text@.skip(i + 1)));
                done = done.push(part@);
            }
            start = i + 1;
        }
        i = i + 1;
    }
    let part = text.substring_char(start, len);
    origins.push(String::from_str(trim_text(part)));
    proof {
        let rest = text@.skip(start as int);
        assert(rest =~= part@);
        assert(!rest.contains(',')) by {
            if rest.contains(',') {
                let k = choose|k: int| 0 <= k < rest.len() && rest[k] == ',';
                assert(text@[start + k] == ',');
            }
        }
        rest.index_of_first_ensures(',');
        assert(comma_parts(rest) =~= seq![rest]);
        assert(comma_parts(text@) =~= done.push(part@));
    }
    origins
}

impl Environment {
    /// The text from which the port is read: `3000` where none is set.
    pub open spec fn port_source(&self) -> Seq<char> {
        match self.server_port {
            Some(text) => text@,
            None => "3000"@,
        }
    }

    /// The directory of public files: `./public` where none is set.
    pub open spec fn public_dir_source(&self) -> Seq<char> {
        match self.public_dir {
            Some(text) => text@,
            None => "./public"@,
        }
    }

    /// The list of origins: `*` where none is set.
    pub open spec fn cors_source(&self) -> Seq<char> {
        match self.cors_origin {
            Some(text) => text@,
            None => "*"@,
        }
    }

    /// What stands in the way of settings, if anything: the first of an
    /// unreadable port, a missing database address, a missing identity
    /// service address, a missing realm and a missing client id.
    pub open spec fn obstacle(&self) -> Option<ConfigError> {
        if port_of_text(self.port_source()) is None {
            Some(ConfigError::InvalidPort)
        } else if self.database_url is None {
            Some(ConfigError::MissingDatabaseUrl)
        } else if self.keycloak_url is None {
            Some(ConfigError::MissingKeycloakUrl)
        } else if self.keycloak_realm is None {
            Some(ConfigError::MissingKeycloakRealm)
        } else if self.keycloak_client_id is None {
            Some(ConfigError::MissingKeycloakClientId)
        } else {
            None
        }
    }

    /// Whether `config` holds the settings that this environment gives.
    pub open spec fn gives(&self, config: AppConfig) -> bool {
        &&& Some(config.server.port) == port_of_text(self.port_source())
        &&& config.server.bind_address@ == bind_address_of(config.server.port)
        &&& config.server.public_dir@ == self.public_dir_source()
        &&& origins_of(self.cors_source(), config.server.cors_origin@)
        &&& Some(config.database.url) == self.database_url
        &&& Some(config.auth.keycloak_url) == self.keycloak_url
        &&& Some(config.auth.realm) == self.keycloak_realm
        &&& Some(config.auth.client_id) == self.keycloak_client_id
    }
}

impl AppConfig {
    /// Makes the settings of what was found in the environment, or says
    /// what stands in the way.
    pub fn from_values(env: Environment) -> (made: Result<AppConfig, ConfigError>)
        ensures
            match made {
                Ok(config) => env.obstacle() is None && env.gives(config),
                Err(error) => env.obstacle() == Some(error),
            },
    {
        let Environment {
            server_port,
            public_dir,
            cors_origin,
            database_url,
            keycloak_url,
            keycloak_realm,
            keycloak_client_id,
        } = env;
        let parsed = match &server_port {
            Some(text) => parse_port(text.as_str()),
            None => parse_port("3000"),
        };
        let port = match parsed {
            Some(port) => port,
            None => {
                return Err(ConfigError::InvalidPort);
            },
        };
        let bind_address = String::from_str("0.0.0.0:").concat(port_text(port).as_str());
        let public_dir = match public_dir {
            Some(dir) => dir,
            None => String::from_str("./public"),
        };
        let cors = match &cors_origin {
            Some(text) => split_origins(text.as_str()),
            None => split_origins("*"),
        };
        let url = match database_url {
            Some(url) => url,
            None => {
                return Err(ConfigError::MissingDatabaseUrl);
            },
        };
        let keycloak_url = match keycloak_url {
            Some(url) => url,
            None => {
                return Err(ConfigError::MissingKeycloakUrl);
            },
        };
        let realm = match keycloak_realm {
            Some(realm) => realm,
            None => {
                return Err(ConfigError::MissingKeycloakRealm);
            },
        };
        let client_id = match keycloak_client_id {
            Some(id) => id,
            None => {
                return Err(ConfigError::MissingKeycloakClientId);
            },
        };
        Ok(
            AppConfig {
                server: ServerConfig { bind_address, port, public_dir, cors_origin: cors },
                database: DatabaseConfig { url },
                auth: AuthConfig { keycloak_url, realm, client_id },
            },
        )
    }
}

} // verus!
