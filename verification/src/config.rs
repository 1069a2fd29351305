//! Connection settings: the types read from the configuration file, their
//! validation, how per-connection settings fall back on the defaults
//! (bastion, pool), and the permission check of the file.
use vstd::prelude::*;

use crate::error::Error;
use crate::i18n::{config_msg_en, config_msg_ja, ConfigMsg, Lang};
use crate::text::str_to_string;

verus! {

// ---------------------------------------------------------------------
// Types
// ---------------------------------------------------------------------

/// Application-wide settings.
pub struct AppSettings {
    /// The display language (`en` or `ja`); English when absent.
    pub language: Option<String>,
}

impl Default for AppSettings {
    fn default() -> (r: Self)
        ensures
            r.language is None,
    {
        AppSettings { language: None }
    }
}

/// The whole configuration.
pub struct Config {
    /// The bastion used by connections that ask for the default one.
    pub default_bastion: Option<BastionConfig>,
    /// Pool settings used where a connection leaves a field unset.
    pub default_mysql_pool: Option<PoolConfigPartial>,
    pub connections: Vec<ConnectionConfig>,
    pub settings: AppSettings,
}

/// How a connection chooses its bastion.
pub enum BastionSetting {
    /// Its own bastion.
    Config(BastionConfig),
    /// `true`: the default bastion; `false`: connect directly.
    Toggle(bool),
}

/// One connection.
pub struct ConnectionConfig {
    pub name: String,
    /// The bastion choice; absent means a direct connection.
    pub bastion: Option<BastionSetting>,
    pub mysql: MysqlConfig,
    /// Whether the session is made read-only after connecting.
    pub readonly: bool,
}

/// An SSH bastion host.
pub struct BastionConfig {
    pub host: String,
    /// SSH port (22 when not given).
    pub port: u16,
    pub user: String,
    /// Private key file; the SSH agent is used when absent.
    pub key_path: Option<String>,
}

/// The MySQL server and session settings of a connection.
pub struct MysqlConfig {
    pub host: String,
    /// Port (3306 when not given).
    pub port: u16,
    pub database: String,
    pub user: String,
    pub password: Password,
    /// Timeout in seconds (5 when not given).
    pub timeout: u64,
    /// TLS mode (required when not given).
    pub ssl_mode: SslMode,
    /// Pool settings, field by field.
    pub pool: PoolConfigPartial,
}

/// Resolved pool settings.
#[derive(Debug, Clone, Copy, PartialEq, Eq, Structural)]
pub struct PoolConfig {
    /// Most connections (10 by default).
    pub max_connections: u32,
    /// Idle timeout in seconds (300 by default).
    pub idle_timeout: u64,
}

/// Pool settings where each field may be left unset.
#[derive(Debug, Clone, Copy, PartialEq, Eq, Structural)]
pub struct PoolConfigPartial {
    pub max_connections: Option<u32>,
    pub idle_timeout: Option<u64>,
}

/// TLS mode of the MySQL connection.
#[derive(Debug, Clone, Copy, PartialEq, Eq, Structural)]
pub enum SslMode {
    /// TLS is required (recommended).
    Required,
    /// TLS when the server offers it.
    Preferred,
    /// No TLS (development only).
    Disabled,
}

/// A password; its debug text never shows it, and its text is wiped
/// from memory when it is dropped.
#[derive(Clone)]
pub struct Password(String);

/// Wipes the password's text when the password is dropped.
impl Drop for Password {
    /// Calls `zeroize::Zeroize::zeroize` on the text, which overwrites its
    /// bytes with zeros and empties it. Nothing is stated: the password is
    /// gone afterwards.
    #[verifier::external_body]
    fn drop(&mut self)
        opens_invariants none
        no_unwind
    {
        zeroize::Zeroize::zeroize(&mut self.0);
    }
}

impl Password {
    /// The password's characters.
    pub closed spec fn chars(&self) -> Seq<char> {
        self.0@
    }

    /// The password text.
    pub fn as_str(&self) -> (r: &str)
        ensures
            r@ == self.chars(),
    {
        self.0.as_str()
    }

    /// The debug text: the password is masked.
    pub fn debug_text(&self) -> (r: String)
        ensures
            r@ == "Password(***)"@,
    {
        str_to_string("Password(***)")
    }
}

impl From<String> for Password {
    fn from(s: String) -> (r: Self) {
        Password(s)
    }
}

impl vstd::std_specs::convert::FromSpecImpl<String> for Password {
    open spec fn obeys_from_spec() -> bool {
        true
    }

    closed spec fn from_spec(v: String) -> Self {
        Password(v)
    }
}

// ---------------------------------------------------------------------
// Defaults
// ---------------------------------------------------------------------

/// The default SSH port.
pub fn default_ssh_port() -> (r: u16)
    ensures
        r == 22,
{
    22
}

/// The default MySQL port.
pub fn default_mysql_port() -> (r: u16)
    ensures
        r == 3306,
{
    3306
}

/// The default timeout in seconds: short, so that a wrong setting does
/// not block for long.
pub fn default_timeout() -> (r: u64)
    ensures
        r == 5,
{
    5
}

/// The default TLS mode.
pub fn default_ssl_mode() -> (r: SslMode)
    ensures
        r == SslMode::Required,
{
    SslMode::Required
}

/// The default pool size.
pub fn default_max_connections() -> (r: u32)
    ensures
        r == 10,
{
    10
}

/// The default idle timeout in seconds.
pub fn default_idle_timeout() -> (r: u64)
    ensures
        r == 300,
{
    300
}

impl Default for PoolConfig {
    fn default() -> (r: Self)
        ensures
            r == (PoolConfig { max_connections: 10, idle_timeout: 300 }),
    {
        PoolConfig { max_connections: default_max_connections(), idle_timeout: default_idle_timeout() }
    }
}

impl Default for PoolConfigPartial {
    fn default() -> (r: Self)
        ensures
            r == (PoolConfigPartial { max_connections: None, idle_timeout: None }),
    {
        PoolConfigPartial { max_connections: None, idle_timeout: None }
    }
}

// ---------------------------------------------------------------------
// Falling back on defaults
// ---------------------------------------------------------------------

/// The first of the options that is set.
pub open spec fn or_else<T>(a: Option<T>, b: Option<T>) -> Option<T> {
    match a {
        Some(x) => Some(x),
        None => b,
    }
}

/// A field of the default pool settings, if they exist.
pub open spec fn default_max(d: Option<PoolConfigPartial>) -> Option<u32> {
    match d {
        Some(p) => p.max_connections,
        None => None,
    }
}

/// A field of the default pool settings, if they exist.
pub open spec fn default_idle(d: Option<PoolConfigPartial>) -> Option<u64> {
    match d {
        Some(p) => p.idle_timeout,
        None => None,
    }
}

/// Pool settings resolved field by field: own value, else the default
/// settings' value, else the built-in default.
pub open spec fn resolved_pool(p: PoolConfigPartial, d: Option<PoolConfigPartial>) -> PoolConfig {
    PoolConfig {
        max_connections: match or_else(p.max_connections, default_max(d)) {
            Some(x) => x,
            None => 10,
        },
        idle_timeout: match or_else(p.idle_timeout, default_idle(d)) {
            Some(x) => x,
            None => 300,
        },
    }
}

/// Pool settings with unset fields filled from the defaults.
pub open spec fn merged_pool(p: PoolConfigPartial, d: Option<PoolConfigPartial>) -> PoolConfigPartial {
    PoolConfigPartial {
        max_connections: or_else(p.max_connections, default_max(d)),
        idle_timeout: or_else(p.idle_timeout, default_idle(d)),
    }
}

impl PoolConfigPartial {
    /// The resolved settings (see `resolved_pool`).
    pub fn resolve(&self, default_pool: Option<&PoolConfigPartial>) -> (r: PoolConfig)
        ensures
            r == resolved_pool(
                *self,
                match default_pool {
                    Some(d) => Some(*d),
                    None => None,
                },
            ),
    {
        let default = PoolConfig::default();
        let dmax = match default_pool {
            Some(d) => d.max_connections,
            None => None,
        };
        let didle = match default_pool {
            Some(d) => d.idle_timeout,
            None => None,
        };
        PoolConfig {
            max_connections: match self.max_connections {
                Some(x) => x,
                None => match dmax {
                    Some(x) => x,
                    None => default.max_connections,
                },
            },
            idle_timeout: match self.idle_timeout {
                Some(x) => x,
                None => match didle {
                    Some(x) => x,
                    None => default.idle_timeout,
                },
            },
        }
    }
}

/// The bastion a connection uses: its own, the default one when it asks
/// for it, or none.
pub open spec fn bastion_choice(b: Option<BastionSetting>, default: Option<BastionConfig>) -> Option<BastionConfig> {
    match b {
        Some(BastionSetting::Config(c)) => Some(c),
        Some(BastionSetting::Toggle(true)) => default,
        _ => None,
    }
}

/// The bastion setting after resolution: its own or the default bastion
/// as a setting of its own, otherwise none.
pub open spec fn resolved_bastion(b: Option<BastionSetting>, default: Option<BastionConfig>) -> Option<BastionSetting> {
    match bastion_choice(b, default) {
        Some(c) => Some(BastionSetting::Config(c)),
        None => None,
    }
}

/// A connection with its bastion resolved and its pool fields merged
/// with the default pool settings.
pub open spec fn resolved_connection(
    c: ConnectionConfig,
    default_bastion: Option<BastionConfig>,
    default_pool: Option<PoolConfigPartial>,
) -> ConnectionConfig {
    ConnectionConfig {
        name: c.name,
        bastion: resolved_bastion(c.bastion, default_bastion),
        mysql: MysqlConfig { pool: merged_pool(c.mysql.pool, default_pool), ..c.mysql },
        readonly: c.readonly,
    }
}

fn clone_opt_string(s: &Option<String>) -> (r: Option<String>)
    ensures
        r == *s,
{
    match s {
        Some(x) => Some(x.clone()),
        None => None,
    }
}

fn clone_bastion(b: &BastionConfig) -> (r: BastionConfig)
    ensures
        r == *b,
{
    BastionConfig {
        host: b.host.clone(),
        port: b.port,
        user: b.user.clone(),
        key_path: clone_opt_string(&b.key_path),
    }
}

fn clone_password(p: &Password) -> (r: Password)
    ensures
        r == *p,
{
    Password(p.0.clone())
}

fn clone_bastion_setting(b: &Option<BastionSetting>) -> (r: Option<BastionSetting>)
    ensures
        r == *b,
{
    match b {
        Some(BastionSetting::Config(c)) => Some(BastionSetting::Config(clone_bastion(c))),
        Some(BastionSetting::Toggle(t)) => Some(BastionSetting::Toggle(*t)),
        None => None,
    }
}

impl Clone for ConnectionConfig {
    /// A copy with the same fields.
    fn clone(&self) -> (r: Self)
        ensures
            r == *self,
    {
        let m = &self.mysql;
        ConnectionConfig {
            name: self.name.clone(),
            bastion: clone_bastion_setting(&self.bastion),
            mysql: MysqlConfig {
                host: m.host.clone(),
                port: m.port,
                database: m.database.clone(),
                user: m.user.clone(),
                password: clone_password(&m.password),
                timeout: m.timeout,
                ssl_mode: m.ssl_mode,
                pool: m.pool,
            },
            readonly: self.readonly,
        }
    }
}

impl ConnectionConfig {
    /// The bastion this connection uses (see `bastion_choice`).
    pub fn get_bastion<'a>(&'a self, default: &'a Option<BastionConfig>) -> (r: Option<&'a BastionConfig>)
        ensures
            match r {
                Some(b) => bastion_choice(self.bastion, *default) == Some(*b),
                None => bastion_choice(self.bastion, *default) is None,
            },
    {
        match &self.bastion {
            Some(BastionSetting::Config(config)) => Some(config),
            Some(BastionSetting::Toggle(true)) => match default {
                Some(d) => Some(d),
                None => None,
            },
            _ => None,
        }
    }
}

impl Config {
    /// The connections with their defaults applied (see `resolved_connection`).
    pub fn resolve_connections(&self) -> (r: Vec<ConnectionConfig>)
        ensures
            r@.len() == self.connections@.len(),
            forall|i: int|
                0 <= i < r@.len() ==> r@[i] == resolved_connection(
                    #[trigger] self.connections@[i],
                    self.default_bastion,
                    self.default_mysql_pool,
                ),
    {
        let mut out: Vec<ConnectionConfig> = Vec::new();
        let dmax = match &self.default_mysql_pool {
            Some(d) => d.max_connections,
            None => None,
        };
        let didle = match &self.default_mysql_pool {
            Some(d) => d.idle_timeout,
            None => None,
        };
        let mut i: usize = 0;
        while i < self.connections.len()
            invariant
                i <= self.connections@.len(),
                out@.len() == i,
                dmax == default_max(self.default_mysql_pool),
                didle == default_idle(self.default_mysql_pool),
                forall|j: int|
                    0 <= j < i ==> out@[j] == resolved_connection(
                        #[trigger] self.connections@[j],
                        self.default_bastion,
                        self.default_mysql_pool,
                    ),
            decreases self.connections.len() - i,
        {
            let conn = &self.connections[i];
            let bastion = match &conn.bastion {
                Some(BastionSetting::Config(c)) => Some(BastionSetting::Config(clone_bastion(c))),
                Some(BastionSetting::Toggle(true)) => match &self.default_bastion {
                    Some(d) => Some(BastionSetting::Config(clone_bastion(d))),
                    None => None,
                },
                _ => None,
            };
            let m = &conn.mysql;
            let pool = PoolConfigPartial {
                max_connections: match m.pool.max_connections {
                    Some(x) => Some(x),
                    None => dmax,
                },
                idle_timeout: match m.pool.idle_timeout {
                    Some(x) => Some(x),
                    None => didle,
                },
            };
            let mysql = MysqlConfig {
                host: m.host.clone(),
                port: m.port,
                database: m.database.clone(),
                user: m.user.clone(),
                password: clone_password(&m.password),
                timeout: m.timeout,
                ssl_mode: m.ssl_mode,
                pool,
            };
            out.push(ConnectionConfig { name: conn.name.clone(), bastion, mysql, readonly: conn.readonly });
            i = i + 1;
        }
        out
    }
}

/// Resolving keeps each connection's bastion: after resolution, with any
/// default, a connection uses the bastion it chose before resolution.
pub proof fn law_resolution_keeps_bastion(
    b: Option<BastionSetting>,
    default: Option<BastionConfig>,
    any_default: Option<BastionConfig>,
)
    ensures
        bastion_choice(resolved_bastion(b, default), any_default) == bastion_choice(b, default),
{
}

/// Resolving keeps each connection's pool: the merged settings resolve,
/// without defaults, to what the connection's own settings resolve to
/// with them.
pub proof fn law_resolution_keeps_pool(p: PoolConfigPartial, d: Option<PoolConfigPartial>)
    ensures
        resolved_pool(merged_pool(p, d), None) == resolved_pool(p, d),
{
}

/// Resolving twice with the same defaults is resolving once.
pub proof fn law_resolution_idempotent(
    c: ConnectionConfig,
    default_bastion: Option<BastionConfig>,
    default_pool: Option<PoolConfigPartial>,
)
    ensures
        resolved_connection(
            resolved_connection(c, default_bastion, default_pool),
            default_bastion,
            default_pool,
        ) == resolved_connection(c, default_bastion, default_pool),
{
}


// ---------------------------------------------------------------------
// Validation
// ---------------------------------------------------------------------

/// A configuration message in a language.
pub open spec fn config_msg_text<'a>(m: ConfigMsg<'a>, lang: Lang) -> Seq<char> {
    match lang {
        Lang::En => config_msg_en(m),
        Lang::Ja => config_msg_ja(m),
    }
}

/// The result of a validation: `Ok` without a problem, otherwise a
/// configuration error with the problem's text.
pub open spec fn validation_result(r: Result<(), Error>, problem: Option<ConfigMsg<'static>>, lang: Lang) -> bool {
    match problem {
        None => r is Ok,
        Some(m) => r matches Err(Error::Config(d)) && d@ == config_msg_text(m, lang),
    }
}

/// The first problem of a bastion: empty host, empty user, port 0.
pub open spec fn bastion_problem(b: BastionConfig) -> Option<ConfigMsg<'static>> {
    if b.host@.len() == 0 {
        Some(ConfigMsg::FieldEmpty { field: "bastionホスト" })
    } else if b.user@.len() == 0 {
        Some(ConfigMsg::FieldEmpty { field: "bastionユーザー名" })
    } else if b.port == 0 {
        Some(ConfigMsg::InvalidPort { field: "bastionポート番号" })
    } else {
        None
    }
}

/// The first problem of MySQL settings: empty host, database or user, port 0.
pub open spec fn mysql_problem(m: MysqlConfig) -> Option<ConfigMsg<'static>> {
    if m.host@.len() == 0 {
        Some(ConfigMsg::FieldEmpty { field: "MySQLホスト" })
    } else if m.database@.len() == 0 {
        Some(ConfigMsg::FieldEmpty { field: "データベース名" })
    } else if m.user@.len() == 0 {
        Some(ConfigMsg::FieldEmpty { field: "MySQLユーザー名" })
    } else if m.port == 0 {
        Some(ConfigMsg::InvalidPort { field: "MySQLポート番号" })
    } else {
        None
    }
}

/// The first problem of a connection: empty name, then its MySQL
/// settings, then its own bastion.
pub open spec fn connection_problem(c: ConnectionConfig) -> Option<ConfigMsg<'static>> {
    if c.name@.len() == 0 {
        Some(ConfigMsg::FieldEmpty { field: "接続先の名前" })
    } else if mysql_problem(c.mysql) is Some {
        mysql_problem(c.mysql)
    } else {
        match c.bastion {
            Some(BastionSetting::Config(b)) => bastion_problem(b),
            _ => None,
        }
    }
}

/// The first problem among connections, in order.
pub open spec fn connections_problem(cs: Seq<ConnectionConfig>) -> Option<ConfigMsg<'static>>
    decreases cs.len(),
{
    if cs.len() == 0 {
        None
    } else if connection_problem(cs[0]) is Some {
        connection_problem(cs[0])
    } else {
        connections_problem(cs.drop_first())
    }
}

/// The first problem of a configuration: no connections, then the
/// default bastion, then the connections in order.
pub open spec fn config_problem(c: Config) -> Option<ConfigMsg<'static>> {
    if c.connections@.len() == 0 {
        Some(ConfigMsg::NoConnections)
    } else if (match c.default_bastion {
        Some(b) => bastion_problem(b) is Some,
        None => false,
    }) {
        bastion_problem(c.default_bastion->0)
    } else {
        connections_problem(c.connections@)
    }
}

/// Fails with "field is empty" when `value` is empty.
pub fn validate_not_empty(value: &str, field_name: &'static str, lang: Lang) -> (r: Result<(), Error>)
    ensures
        validation_result(
            r,
            if value@.len() == 0 {
                Some(ConfigMsg::FieldEmpty { field: field_name })
            } else {
                None
            },
            lang,
        ),
{
    if value.is_empty() {
        return Err(Error::Config(ConfigMsg::FieldEmpty { field: field_name }.translate(lang)));
    }
    Ok(())
}

/// Fails with "field is 0" when `port` is 0.
pub fn validate_port(port: u16, field_name: &'static str, lang: Lang) -> (r: Result<(), Error>)
    ensures
        validation_result(
            r,
            if port == 0 {
                Some(ConfigMsg::InvalidPort { field: field_name })
            } else {
                None
            },
            lang,
        ),
{
    if port == 0 {
        return Err(Error::Config(ConfigMsg::InvalidPort { field: field_name }.translate(lang)));
    }
    Ok(())
}

impl BastionConfig {
    /// Checks the bastion (see `bastion_problem`).
    pub fn validate(&self, lang: Lang) -> (r: Result<(), Error>)
        ensures
            validation_result(r, bastion_problem(*self), lang),
    {
        validate_not_empty(self.host.as_str(), "bastionホスト", lang)?;
        validate_not_empty(self.user.as_str(), "bastionユーザー名", lang)?;
        validate_port(self.port, "bastionポート番号", lang)?;
        Ok(())
    }
}

impl MysqlConfig {
    /// Checks the MySQL settings (see `mysql_problem`).
    pub fn validate(&self, lang: Lang) -> (r: Result<(), Error>)
        ensures
            validation_result(r, mysql_problem(*self), lang),
    {
        validate_not_empty(self.host.as_str(), "MySQLホスト", lang)?;
        validate_not_empty(self.database.as_str(), "データベース名", lang)?;
        validate_not_empty(self.user.as_str(), "MySQLユーザー名", lang)?;
        validate_port(self.port, "MySQLポート番号", lang)?;
        Ok(())
    }
}

impl ConnectionConfig {
    /// Checks the connection (see `connection_problem`).
    pub fn validate(&self, lang: Lang) -> (r: Result<(), Error>)
        ensures
            validation_result(r, connection_problem(*self), lang),
    {
        validate_not_empty(self.name.as_str(), "接続先の名前", lang)?;
        self.mysql.validate(lang)?;
        match &self.bastion {
            Some(BastionSetting::Config(b)) => b.validate(lang),
            _ => Ok(()),
        }
    }
}

impl Config {
    /// Checks the configuration (see `config_problem`).
    pub fn validate(&self, lang: Lang) -> (r: Result<(), Error>)
        ensures
            validation_result(r, config_problem(*self), lang),
    {
        if self.connections.len() == 0 {
            return Err(Error::Config(ConfigMsg::NoConnections.translate(lang)));
        }
        match &self.default_bastion {
            Some(b) => {
                b.validate(lang)?;
            },
            None => {},
        }
        let mut i: usize = 0;
        assert(self.connections@.skip(0) =~= self.connections@);
        while i < self.connections.len()
            invariant
                i <= self.connections@.len(),
                config_problem(*self) == connections_problem(self.connections@),
                connections_problem(self.connections@) == connections_problem(
                    self.connections@.skip(i as int),
                ),
            decreases self.connections.len() - i,
        {
            proof {
                assert(self.connections@.skip(i as int).drop_first() =~= self.connections@.skip(
                    i + 1,
                ));
                assert(self.connections@.skip(i as int)[0] == self.connections@[i as int]);
            }
            self.connections[i].validate(lang)?;
            i = i + 1;
        }
        proof {
            assert(self.connections@.skip(i as int) =~= Seq::<ConnectionConfig>::empty());
        }
        Ok(())
    }
}

// ---------------------------------------------------------------------
// File permissions
// ---------------------------------------------------------------------

/// The permission bits of a file mode.
pub open spec fn permission_bits(mode: u32) -> u32 {
    (mode & 0o777u32) as u32
}

/// The warning for a configuration file whose permission bits are not
/// 600 (it holds credentials), or nothing when they are.
pub fn permission_warning(mode: u32, path: &str, lang: Lang) -> (r: Option<String>)
    ensures
        permission_bits(mode) == 0o600u32 ==> r is None,
        permission_bits(mode) != 0o600u32 ==> (r matches Some(w) && w@ == config_msg_text(
            ConfigMsg::PermissionWarning { mode: permission_bits(mode), path },
            lang,
        )),
{
    let owner_only = mode & 0o777u32;
    if owner_only != 0o600u32 {
        Some(ConfigMsg::PermissionWarning { mode: owner_only, path }.translate(lang))
    } else {
        None
    }
}

} // verus!
