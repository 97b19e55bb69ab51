//! Configuration layered under the process environment.

use crate::config::Config;
use crate::error::{Error, ErrorKind};
use crate::table::Table;
use crate::text::{opt_view, str_eq};
use vstd::prelude::*;

verus! {

/// The variables of the process environment, as the caller read them.
pub struct Environment {
    pub vars: Table,
}

impl Environment {
    /// An environment without variables.
    pub fn new() -> (env: Environment)
        ensures
            env.vars@ == Map::<Seq<char>, Seq<char>>::empty(),
    {
        Environment { vars: Table::new() }
    }

    /// Sets the variable `name` to `value`.
    pub fn set_var(&mut self, name: String, value: String)
        ensures
            final(self).vars@ == old(self).vars@.insert(name@, value@),
    {
        self.vars.insert(name, value);
    }

    /// Unsets the variable `name`.
    pub fn remove_var(&mut self, name: &str)
        ensures
            final(self).vars@ == old(self).vars@.remove(name@),
    {
        self.vars.remove(name);
    }
}

/// The value of the variable `name` in `vars`, if it is set and not empty.
pub open spec fn env_value(vars: Map<Seq<char>, Seq<char>>, name: Seq<char>) -> Option<Seq<char>> {
    if vars.contains_key(name) && vars[name].len() > 0 {
        Some(vars[name])
    } else {
        None
    }
}

/// The environment variable that overrides the setting `key`, for the keys
/// that can be overridden: `host` and `token`.
pub open spec fn env_name(key: Seq<char>) -> Option<Seq<char>> {
    if key == "host"@ {
        Some("OXIDE_HOST"@)
    } else if key == "token"@ {
        Some("OXIDE_TOKEN"@)
    } else {
        None
    }
}

/// What the environment says about the setting `key`.
pub open spec fn env_override(vars: Map<Seq<char>, Seq<char>>, key: Seq<char>) -> Option<Seq<char>> {
    match env_name(key) {
        Some(name) => env_value(vars, name),
        None => None,
    }
}

/// The value of the setting `key` for settings `settings` under the
/// environment `vars`: the environment's value where it overrides the key,
/// else the persisted value, else nothing.
pub open spec fn layered_get(
    vars: Map<Seq<char>, Seq<char>>,
    settings: Map<Seq<char>, Seq<char>>,
    key: Seq<char>,
) -> Option<Seq<char>> {
    match env_override(vars, key) {
        Some(v) => Some(v),
        None => if settings.contains_key(key) {
            Some(settings[key])
        } else {
            None
        },
    }
}

/// The token for requests to `host`: the layered `token` setting where
/// there is one, else the token persisted for the host.
pub open spec fn layered_token(
    vars: Map<Seq<char>, Seq<char>>,
    settings: Map<Seq<char>, Seq<char>>,
    hosts: Map<Seq<char>, Seq<char>>,
    host: Seq<char>,
) -> Option<Seq<char>> {
    match layered_get(vars, settings, "token"@) {
        Some(t) => Some(t),
        None => if hosts.contains_key(host) {
            Some(hosts[host])
        } else {
            None
        },
    }
}

/// The name of the environment variable that overrides `key`, if any.
fn env_var_for(key: &str) -> (r: Option<&'static str>)
    ensures
        match r {
            Some(name) => env_name(key@) == Some(name@),
            None => env_name(key@) is None,
        },
{
    if str_eq(key, "host") {
        Some("OXIDE_HOST")
    } else if str_eq(key, "token") {
        Some("OXIDE_TOKEN")
    } else {
        None
    }
}

/// A configuration read through the environment: reads of the keys that
/// the environment can override are answered from it when the variable is
/// set and not empty; writes always go to the persisted configuration.
pub struct EnvConfig {
    pub config: Config,
    pub env: Environment,
}

impl EnvConfig {
    /// Layers `env` over `config`.
    pub fn inherit_env(config: Config, env: Environment) -> (c: EnvConfig)
        ensures
            c.config == config,
            c.env == env,
    {
        EnvConfig { config, env }
    }

    /// The value of the setting `key`, or `None` where it is unset.
    pub fn get(&self, key: &str) -> (r: Option<String>)
        ensures
            opt_view(r) == layered_get(self.env.vars@, self.config.settings@, key@),
    {
        match env_var_for(key) {
            Some(name) => {
                match self.env.vars.get(name) {
                    Some(value) => {
                        if !value.as_str().is_empty() {
                            return Some(value);
                        }
                    },
                    None => {},
                }
            },
            None => {},
        }
        self.config.get(key)
    }

    /// Persists `value` under `key`. The environment is left as it is.
    pub fn set(&mut self, key: String, value: String)
        ensures
            final(self).config.settings@ == old(self).config.settings@.insert(key@, value@),
            final(self).config.hosts@ == old(self).config.hosts@,
            final(self).config.aliases@ == old(self).config.aliases@,
            final(self).env.vars@ == old(self).env.vars@,
    {
        self.config.set(key, value);
    }

    /// The host that requests go to when none is named.
    pub fn default_host(&self) -> (r: Result<String, Error>)
        ensures
            match r {
                Ok(host) => layered_get(self.env.vars@, self.config.settings@, "host"@) == Some(
                    host@,
                ),
                Err(e) => layered_get(self.env.vars@, self.config.settings@, "host"@) is None
                    && e.is(ErrorKind::Config, "no host is configured"@),
            },
    {
        match self.get("host") {
            Some(host) => Ok(host),
            None => Err(Error::config("no host is configured")),
        }
    }

    /// The token for requests to `host`.
    pub fn token(&self, host: &str) -> (r: Result<String, Error>)
        ensures
            match r {
                Ok(token) => layered_token(
                    self.env.vars@,
                    self.config.settings@,
                    self.config.hosts@,
                    host@,
                ) == Some(token@),
                Err(e) => layered_token(
                    self.env.vars@,
                    self.config.settings@,
                    self.config.hosts@,
                    host@,
                ) is None && e.is(ErrorKind::Config, "no token is configured for the host"@),
            },
    {
        match self.get("token") {
            Some(token) => Ok(token),
            None => match self.config.hosts.get(host) {
                Some(token) => Ok(token),
                None => Err(Error::config("no token is configured for the host")),
            },
        }
    }
}

/// The environment takes precedence: while the variable `name` that
/// overrides the setting `key` is set to a value that is not empty, the
/// setting has that value, whatever is persisted.
pub proof fn lemma_environment_wins(
    vars: Map<Seq<char>, Seq<char>>,
    settings: Map<Seq<char>, Seq<char>>,
    key: Seq<char>,
    name: Seq<char>,
)
    requires
        env_name(key) == Some(name),
        vars.contains_key(name),
        vars[name].len() > 0,
    ensures
        layered_get(vars, settings, key) == Some(vars[name]),
{
}

/// Without the environment the persisted value shows: while the variable
/// that overrides the setting `key` is unset or empty, or the key cannot
/// be overridden, the setting has its persisted value, or none.
pub proof fn lemma_persisted_shows(
    vars: Map<Seq<char>, Seq<char>>,
    settings: Map<Seq<char>, Seq<char>>,
    key: Seq<char>,
)
    requires
        env_override(vars, key) is None,
    ensures
        layered_get(vars, settings, key) == (if settings.contains_key(key) {
            Some(settings[key])
        } else {
            None
        }),
{
}

/// Setting and unsetting a variable around an unchanged configuration:
/// with the variable `name` set to `value`, which is not empty, the
/// setting `key` that it overrides reads `value`; with the variable
/// unset again it reads what is persisted.
pub proof fn lemma_toggle_variable(
    vars: Map<Seq<char>, Seq<char>>,
    settings: Map<Seq<char>, Seq<char>>,
    key: Seq<char>,
    name: Seq<char>,
    value: Seq<char>,
)
    requires
        env_name(key) == Some(name),
        value.len() > 0,
    ensures
        layered_get(vars.insert(name, value), settings, key) == Some(value),
        layered_get(vars.insert(name, value).remove(name), settings, key) == (
        if settings.contains_key(key) {
            Some(settings[key])
        } else {
            None
        }),
{
}

/// Writes never reach the environment and reads never change anything:
/// after `set`, a key that the environment overrides still reads as the
/// environment says.
pub proof fn lemma_set_is_shadowed(
    vars: Map<Seq<char>, Seq<char>>,
    settings: Map<Seq<char>, Seq<char>>,
    key: Seq<char>,
    value: Seq<char>,
)
    requires
        env_override(vars, key) is Some,
    ensures
        layered_get(vars, settings.insert(key, value), key) == env_override(vars, key),
{
}

} // verus!
