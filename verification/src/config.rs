//! Connection configuration: a builder that requires every field to be set
//! explicitly, a loader over a snapshot of environment variable values with
//! parse-or-default semantics for the optional fields, and the rendering of
//! a configuration into its connection URL.

use vstd::prelude::*;
use vstd::string::*;
use crate::decimal::{spec_parse_dec, dec_digits, parse_dec, u32_to_dec};

verus! {

/// A fully resolved connection configuration. Every field holds a value:
/// either one set explicitly through [`DbConfigBuilder`] or one taken from
/// an environment snapshot (with documented defaults) by
/// [`DbConfig::from_env`].
#[derive(Clone, Debug)]
pub struct DbConfig {
    pub host: String,
    pub name: String,
    pub user: String,
    pub pass: String,
    pub port: u16,
    pub min_pool_size: u32,
    pub max_pool_size: u32,
    pub idle_in_transaction_session: u32,
    pub app_name: String,
}

/// The mathematical model of a [`DbConfig`]: each text field as its
/// character sequence, each numeric field as itself.
pub struct DbConfigView {
    pub host: Seq<char>,
    pub name: Seq<char>,
    pub user: Seq<char>,
    pub pass: Seq<char>,
    pub port: u16,
    pub min_pool_size: u32,
    pub max_pool_size: u32,
    pub idle_in_transaction_session: u32,
    pub app_name: Seq<char>,
}

impl View for DbConfig {
    type V = DbConfigView;

    open spec fn view(&self) -> DbConfigView {
        DbConfigView {
            host: self.host@,
            name: self.name@,
            user: self.user@,
            pass: self.pass@,
            port: self.port,
            min_pool_size: self.min_pool_size,
            max_pool_size: self.max_pool_size,
            idle_in_transaction_session: self.idle_in_transaction_session,
            app_name: self.app_name@,
        }
    }
}

/// A fluent accumulator for [`DbConfig`]. Every field must be set before
/// [`DbConfigBuilder::build`] succeeds; `build` reports the first field
/// still unset, in declaration order.
pub struct DbConfigBuilder {
    host: Option<String>,
    name: Option<String>,
    user: Option<String>,
    pass: Option<String>,
    port: Option<u16>,
    min_pool_size: Option<u32>,
    max_pool_size: Option<u32>,
    idle_in_transaction_session: Option<u32>,
    app_name: Option<String>,
}

/// The mathematical model of a [`DbConfigBuilder`]: which fields are set,
/// and to what.
pub struct DbConfigBuilderView {
    pub host: Option<Seq<char>>,
    pub name: Option<Seq<char>>,
    pub user: Option<Seq<char>>,
    pub pass: Option<Seq<char>>,
    pub port: Option<u16>,
    pub min_pool_size: Option<u32>,
    pub max_pool_size: Option<u32>,
    pub idle_in_transaction_session: Option<u32>,
    pub app_name: Option<Seq<char>>,
}

impl View for DbConfigBuilder {
    type V = DbConfigBuilderView;

    closed spec fn view(&self) -> DbConfigBuilderView {
        DbConfigBuilderView {
            host: match self.host {
                Some(s) => Some(s@),
                None => None,
            },
            name: match self.name {
                Some(s) => Some(s@),
                None => None,
            },
            user: match self.user {
                Some(s) => Some(s@),
                None => None,
            },
            pass: match self.pass {
                Some(s) => Some(s@),
                None => None,
            },
            port: self.port,
            min_pool_size: self.min_pool_size,
            max_pool_size: self.max_pool_size,
            idle_in_transaction_session: self.idle_in_transaction_session,
            app_name: match self.app_name {
                Some(s) => Some(s@),
                None => None,
            },
        }
    }
}

/// What `build` yields for a given builder state: the configuration when
/// every field is set, otherwise the message naming the first unset field,
/// checked in declaration order.
pub open spec fn spec_build(b: DbConfigBuilderView) -> Result<DbConfigView, Seq<char>> {
    if b.host is None {
        Err("host is required"@)
    } else if b.name is None {
        Err("name is required"@)
    } else if b.user is None {
        Err("user is required"@)
    } else if b.pass is None {
        Err("pass is required"@)
    } else if b.port is None {
        Err("port is required"@)
    } else if b.min_pool_size is None {
        Err("min_pool_size is required"@)
    } else if b.max_pool_size is None {
        Err("max_pool_size is required"@)
    } else if b.idle_in_transaction_session is None {
        Err("idle_in_transaction_session is required"@)
    } else if b.app_name is None {
        Err("app_name is required"@)
    } else {
        Ok(DbConfigView {
            host: b.host->0,
            name: b.name->0,
            user: b.user->0,
            pass: b.pass->0,
            port: b.port->0,
            min_pool_size: b.min_pool_size->0,
            max_pool_size: b.max_pool_size->0,
            idle_in_transaction_session: b.idle_in_transaction_session->0,
            app_name: b.app_name->0,
        })
    }
}

impl DbConfigBuilder {
    /// A builder with no field set.
    pub fn new() -> (r: Self)
        ensures
            r@ == (DbConfigBuilderView {
                host: None,
                name: None,
                user: None,
                pass: None,
                port: None,
                min_pool_size: None,
                max_pool_size: None,
                idle_in_transaction_session: None,
                app_name: None,
            }),
    {
        Self {
            host: None,
            name: None,
            user: None,
            pass: None,
            port: None,
            min_pool_size: None,
            max_pool_size: None,
            idle_in_transaction_session: None,
            app_name: None,
        }
    }

    /// Sets the host and leaves every other field as it was.
    pub fn host(self, host: &str) -> (r: Self)
        ensures
            r@ == (DbConfigBuilderView { host: Some(host@), ..self@ }),
    {
        let mut b = self;
        b.host = Some(host.to_owned());
        b
    }

    /// Sets the database name and leaves every other field as it was.
    pub fn name(self, name: &str) -> (r: Self)
        ensures
            r@ == (DbConfigBuilderView { name: Some(name@), ..self@ }),
    {
        let mut b = self;
        b.name = Some(name.to_owned());
        b
    }

    /// Sets the user and leaves every other field as it was.
    pub fn user(self, user: &str) -> (r: Self)
        ensures
            r@ == (DbConfigBuilderView { user: Some(user@), ..self@ }),
    {
        let mut b = self;
        b.user = Some(user.to_owned());
        b
    }

    /// Sets the password and leaves every other field as it was.
    pub fn pass(self, pass: &str) -> (r: Self)
        ensures
            r@ == (DbConfigBuilderView { pass: Some(pass@), ..self@ }),
    {
        let mut b = self;
        b.pass = Some(pass.to_owned());
        b
    }

    /// Sets the port and leaves every other field as it was.
    pub fn port(self, port: u16) -> (r: Self)
        ensures
            r@ == (DbConfigBuilderView { port: Some(port), ..self@ }),
    {
        let mut b = self;
        b.port = Some(port);
        b
    }

    /// Sets the minimum pool size and leaves every other field as it was.
    pub fn min_pool_size(self, min_pool_size: u32) -> (r: Self)
        ensures
            r@ == (DbConfigBuilderView { min_pool_size: Some(min_pool_size), ..self@ }),
    {
        let mut b = self;
        b.min_pool_size = Some(min_pool_size);
        b
    }

    /// Sets the maximum pool size and leaves every other field as it was.
    pub fn max_pool_size(self, max_pool_size: u32) -> (r: Self)
        ensures
            r@ == (DbConfigBuilderView { max_pool_size: Some(max_pool_size), ..self@ }),
    {
        let mut b = self;
        b.max_pool_size = Some(max_pool_size);
        b
    }

    /// Sets the idle-in-transaction timeout (milliseconds) and leaves every
    /// other field as it was.
    pub fn idle_in_transaction_session(self, idle: u32) -> (r: Self)
        ensures
            r@ == (DbConfigBuilderView { idle_in_transaction_session: Some(idle), ..self@ }),
    {
        let mut b = self;
        b.idle_in_transaction_session = Some(idle);
        b
    }

    /// Sets the application name and leaves every other field as it was.
    pub fn app_name(self, app_name: &str) -> (r: Self)
        ensures
            r@ == (DbConfigBuilderView { app_name: Some(app_name@), ..self@ }),
    {
        let mut b = self;
        b.app_name = Some(app_name.to_owned());
        b
    }

    /// The configuration with the fields of this builder, when all of them
    /// are set; otherwise the error naming the first unset field, in
    /// declaration order, exactly as `spec_build` states.
    pub fn build(self) -> (r: Result<DbConfig, &'static str>)
        ensures
            match r {
                Ok(c) => spec_build(self@) matches Ok(cv) && c@ == cv,
                Err(m) => spec_build(self@) matches Err(msg) && m@ == msg,
            },
    {
        let host = match self.host {
            Some(v) => v,
            None => {
                return Err("host is required");
            },
        };
        let name = match self.name {
            Some(v) => v,
            None => {
                return Err("name is required");
            },
        };
        let user = match self.user {
            Some(v) => v,
            None => {
                return Err("user is required");
            },
        };
        let pass = match self.pass {
            Some(v) => v,
            None => {
                return Err("pass is required");
            },
        };
        let port = match self.port {
            Some(v) => v,
            None => {
                return Err("port is required");
            },
        };
        let min_pool_size = match self.min_pool_size {
            Some(v) => v,
            None => {
                return Err("min_pool_size is required");
            },
        };
        let max_pool_size = match self.max_pool_size {
            Some(v) => v,
            None => {
                return Err("max_pool_size is required");
            },
        };
        let idle_in_transaction_session = match self.idle_in_transaction_session {
            Some(v) => v,
            None => {
                return Err("idle_in_transaction_session is required");
            },
        };
        let app_name = match self.app_name {
            Some(v) => v,
            None => {
                return Err("app_name is required");
            },
        };
        Ok(DbConfig {
            host,
            name,
            user,
            pass,
            port,
            min_pool_size,
            max_pool_size,
            idle_in_transaction_session,
            app_name,
        })
    }
}

/// The values the process environment held for the configuration
/// variables, each `None` where the variable was absent. Filling this in
/// is the caller's (unverified) concern; everything decided from it is
/// verified in [`DbConfig::from_env`].
pub struct EnvSnapshot {
    pub host: Option<String>,
    pub name: Option<String>,
    pub user: Option<String>,
    pub pass: Option<String>,
    pub port: Option<String>,
    pub min_pool_size: Option<String>,
    pub max_pool_size: Option<String>,
    pub app_name: Option<String>,
    pub idle_in_transaction_session: Option<String>,
}

/// The mathematical model of an [`EnvSnapshot`].
pub struct EnvSnapshotView {
    pub host: Option<Seq<char>>,
    pub name: Option<Seq<char>>,
    pub user: Option<Seq<char>>,
    pub pass: Option<Seq<char>>,
    pub port: Option<Seq<char>>,
    pub min_pool_size: Option<Seq<char>>,
    pub max_pool_size: Option<Seq<char>>,
    pub app_name: Option<Seq<char>>,
    pub idle_in_transaction_session: Option<Seq<char>>,
}

impl View for EnvSnapshot {
    type V = EnvSnapshotView;

    open spec fn view(&self) -> EnvSnapshotView {
        EnvSnapshotView {
            host: match self.host {
                Some(s) => Some(s@),
                None => None,
            },
            name: match self.name {
                Some(s) => Some(s@),
                None => None,
            },
            user: match self.user {
                Some(s) => Some(s@),
                None => None,
            },
            pass: match self.pass {
                Some(s) => Some(s@),
                None => None,
            },
            port: match self.port {
                Some(s) => Some(s@),
                None => None,
            },
            min_pool_size: match self.min_pool_size {
                Some(s) => Some(s@),
                None => None,
            },
            max_pool_size: match self.max_pool_size {
                Some(s) => Some(s@),
                None => None,
            },
            app_name: match self.app_name {
                Some(s) => Some(s@),
                None => None,
            },
            idle_in_transaction_session: match self.idle_in_transaction_session {
                Some(s) => Some(s@),
                None => None,
            },
        }
    }
}

/// A required environment variable was absent; the field names it.
#[derive(Debug)]
pub enum ConfigError {
    MissingConfiguration(&'static str),
}

/// Parse-or-default: the value an optional numeric variable contributes —
/// its parsed value when present and well formed and within `max`,
/// otherwise `default`.
pub open spec fn spec_opt_num(v: Option<Seq<char>>, max: int, default: int) -> int {
    match v {
        Some(s) => match spec_parse_dec(s, max) {
            Some(n) => n,
            None => default,
        },
        None => default,
    }
}

/// What loading from an environment snapshot yields: the error naming the
/// first absent required variable, in the order host, name, user, pass;
/// else the configuration, with parse-or-default for the optional numeric
/// variables and the sentinel application name where none is given.
pub open spec fn spec_from_env(e: EnvSnapshotView) -> Result<DbConfigView, Seq<char>> {
    if e.host is None {
        Err("DB_HOST"@)
    } else if e.name is None {
        Err("DB_NAME"@)
    } else if e.user is None {
        Err("DB_USER"@)
    } else if e.pass is None {
        Err("DB_PASS"@)
    } else {
        Ok(DbConfigView {
            host: e.host->0,
            name: e.name->0,
            user: e.user->0,
            pass: e.pass->0,
            port: spec_opt_num(e.port, u16::MAX as int, 5432) as u16,
            min_pool_size: spec_opt_num(e.min_pool_size, u32::MAX as int, 1) as u32,
            max_pool_size: spec_opt_num(e.max_pool_size, u32::MAX as int, 1) as u32,
            idle_in_transaction_session: spec_opt_num(
                e.idle_in_transaction_session,
                u32::MAX as int,
                2000,
            ) as u32,
            app_name: match e.app_name {
                Some(s) => s,
                None => "app-name-not-defined"@,
            },
        })
    }
}

/// The exact connection URL a configuration renders to.
pub open spec fn spec_connection_url(c: DbConfigView) -> Seq<char> {
    "postgresql://"@ + c.host + ":"@ + dec_digits(c.port as nat) + "?dbname="@ + c.name
        + "&user="@ + c.user + "&password="@ + c.pass + "&application_name="@ + c.app_name
        + "&options=-c%20idle_in_transaction_session_timeout%3D"@ + dec_digits(
        c.idle_in_transaction_session as nat,
    )
}

impl DbConfig {
    /// The configuration decided by an environment snapshot, exactly as
    /// `spec_from_env` states: fails naming the first absent required
    /// variable; optional numeric variables fall back to their default
    /// when absent or malformed, never to an error.
    pub fn from_env(env: EnvSnapshot) -> (r: Result<DbConfig, ConfigError>)
        ensures
            match r {
                Ok(c) => spec_from_env(env@) matches Ok(cv) && c@ == cv,
                Err(e) => ({
                    &&& e matches ConfigError::MissingConfiguration(v)
                    &&& spec_from_env(env@) matches Err(name) && v@ == name
                }),
            },
    {
        let host = match env.host {
            Some(v) => v,
            None => {
                return Err(ConfigError::MissingConfiguration("DB_HOST"));
            },
        };
        let name = match env.name {
            Some(v) => v,
            None => {
                return Err(ConfigError::MissingConfiguration("DB_NAME"));
            },
        };
        let user = match env.user {
            Some(v) => v,
            None => {
                return Err(ConfigError::MissingConfiguration("DB_USER"));
            },
        };
        let pass = match env.pass {
            Some(v) => v,
            None => {
                return Err(ConfigError::MissingConfiguration("DB_PASS"));
            },
        };
        let port: u16 = match env.port {
            Some(s) => match parse_dec(s.as_str(), 65535) {
                Some(v) => v as u16,
                None => 5432,
            },
            None => 5432,
        };
        let min_pool_size: u32 = match env.min_pool_size {
            Some(s) => match parse_dec(s.as_str(), u32::MAX) {
                Some(v) => v,
                None => 1,
            },
            None => 1,
        };
        let max_pool_size: u32 = match env.max_pool_size {
            Some(s) => match parse_dec(s.as_str(), u32::MAX) {
                Some(v) => v,
                None => 1,
            },
            None => 1,
        };
        let idle_in_transaction_session: u32 = match env.idle_in_transaction_session {
            Some(s) => match parse_dec(s.as_str(), u32::MAX) {
                Some(v) => v,
                None => 2000,
            },
            None => 2000,
        };
        let app_name: String = match env.app_name {
            Some(s) => s,
            None => "app-name-not-defined".to_owned(),
        };
        Ok(DbConfig {
            host,
            name,
            user,
            pass,
            port,
            min_pool_size,
            max_pool_size,
            idle_in_transaction_session,
            app_name,
        })
    }

    /// Renders the configuration into its connection URL, character for
    /// character as `spec_connection_url` states. Field values are
    /// substituted into the fixed template without escaping: the caller
    /// must keep them URL-safe.
    pub fn connection_url(&self) -> (url: String)
        ensures
            url@ == spec_connection_url(self@),
    {
        let mut url = "postgresql://".to_owned();
        url.append(self.host.as_str());
        url.append(":");
        let port_digits = u32_to_dec(self.port as u32);
        url.append(port_digits.as_str());
        url.append("?dbname=");
        url.append(self.name.as_str());
        url.append("&user=");
        url.append(self.user.as_str());
        url.append("&password=");
        url.append(self.pass.as_str());
        url.append("&application_name=");
        url.append(self.app_name.as_str());
        url.append("&options=-c%20idle_in_transaction_session_timeout%3D");
        let idle_digits = u32_to_dec(self.idle_in_transaction_session);
        url.append(idle_digits.as_str());
        proof {
            assert(url@ =~= spec_connection_url(self@));
        }
        url
    }
}

/// Law: for each required environment variable, a snapshot in which it is
/// absent (and every earlier required variable is present) makes loading
/// fail with the error naming exactly that variable.
pub proof fn lemma_from_env_missing_required(e: EnvSnapshotView)
    ensures
        e.host is None ==> spec_from_env(e) == Err::<DbConfigView, Seq<char>>("DB_HOST"@),
        e.host is Some && e.name is None ==> spec_from_env(e) == Err::<DbConfigView, Seq<char>>(
            "DB_NAME"@,
        ),
        e.host is Some && e.name is Some && e.user is None ==> spec_from_env(e) == Err::<
            DbConfigView,
            Seq<char>,
        >("DB_USER"@),
        e.host is Some && e.name is Some && e.user is Some && e.pass is None ==> spec_from_env(e)
            == Err::<DbConfigView, Seq<char>>("DB_PASS"@),
{
}

/// Law: a malformed (or out-of-range) value of an optional numeric
/// variable never fails the load; the corresponding field takes its
/// documented default.
pub proof fn lemma_from_env_malformed_optional_defaults(e: EnvSnapshotView)
    requires
        e.host is Some,
        e.name is Some,
        e.user is Some,
        e.pass is Some,
    ensures
        spec_from_env(e) matches Ok(c) && ({
            &&& (e.port matches Some(s) && spec_parse_dec(s, u16::MAX as int) is None) ==> c.port
                == 5432
            &&& (e.min_pool_size matches Some(s) && spec_parse_dec(s, u32::MAX as int) is None)
                ==> c.min_pool_size == 1
            &&& (e.max_pool_size matches Some(s) && spec_parse_dec(s, u32::MAX as int) is None)
                ==> c.max_pool_size == 1
            &&& (e.idle_in_transaction_session matches Some(s) && spec_parse_dec(
                s,
                u32::MAX as int,
            ) is None) ==> c.idle_in_transaction_session == 2000
        }),
{
}

/// Law: a builder with every field set builds successfully, and the
/// configuration it yields renders to exactly the fixed URL template with
/// those field values substituted.
pub proof fn lemma_built_config_url(b: DbConfigBuilderView)
    requires
        b.host is Some,
        b.name is Some,
        b.user is Some,
        b.pass is Some,
        b.port is Some,
        b.min_pool_size is Some,
        b.max_pool_size is Some,
        b.idle_in_transaction_session is Some,
        b.app_name is Some,
    ensures
        spec_build(b) matches Ok(c) && spec_connection_url(c) == "postgresql://"@ + b.host->0
            + ":"@ + dec_digits(b.port->0 as nat) + "?dbname="@ + b.name->0 + "&user="@ + b.user->0
            + "&password="@ + b.pass->0 + "&application_name="@ + b.app_name->0
            + "&options=-c%20idle_in_transaction_session_timeout%3D"@ + dec_digits(
            b.idle_in_transaction_session->0 as nat,
        ),
{
}

} // verus!
