//! Configuration assembly: the three settings that the bot starts from.

use vstd::prelude::*;
use crate::permissions::{decoded_bits, parsed_integer, PermissionMask};

verus! {

/// Why no configuration could be assembled.
#[derive(Clone, Copy, Debug, PartialEq, Eq, Structural)]
pub enum ConfigError {
    /// The authentication token is not set.
    MissingToken,
    /// The command prefix is not set.
    MissingPrefix,
}

impl ConfigError {
    /// What to tell the operator.
    pub fn message(&self) -> (text: &'static str)
        ensures
            text@ == (match self {
                ConfigError::MissingToken => "Expected a token in the environment"@,
                ConfigError::MissingPrefix => "Expected a bot prefix in the environment"@,
            }),
    {
        match self {
            ConfigError::MissingToken => "Expected a token in the environment",
            ConfigError::MissingPrefix => "Expected a bot prefix in the environment",
        }
    }
}

/// The settings of a configured bot.
#[derive(Debug)]
pub struct Config {
    token: String,
    prefix: String,
    permissions: PermissionMask,
}

/// A configuration as plain values.
pub struct ConfigView {
    pub token: Seq<char>,
    pub prefix: Seq<char>,
    pub permissions: u64,
}

/// What the three settings assemble to. A missing token is reported before a
/// missing prefix; the permissions setting never fails the assembly.
pub open spec fn assembled(
    token: Option<Seq<char>>,
    prefix: Option<Seq<char>>,
    permissions: Option<Seq<char>>,
) -> Result<ConfigView, ConfigError> {
    match (token, prefix) {
        (None, _) => Err(ConfigError::MissingToken),
        (Some(_), None) => Err(ConfigError::MissingPrefix),
        (Some(token), Some(prefix)) => Ok(
            ConfigView { token, prefix, permissions: decoded_bits(permissions) },
        ),
    }
}

/// An optional string as an optional sequence of characters.
pub open spec fn setting_view(setting: Option<String>) -> Option<Seq<char>> {
    match setting {
        Some(s) => Some(s@),
        None => None,
    }
}

/// The outcome of an assembly as plain values.
pub open spec fn outcome_view(outcome: Result<Config, ConfigError>) -> Result<
    ConfigView,
    ConfigError,
> {
    match outcome {
        Ok(config) => Ok(config@),
        Err(e) => Err(e),
    }
}

impl View for Config {
    type V = ConfigView;

    closed spec fn view(&self) -> ConfigView {
        ConfigView {
            token: self.token@,
            prefix: self.prefix@,
            permissions: self.permissions.bits,
        }
    }
}

impl Config {
    /// Assembles a configuration from the values of the three settings, each
    /// `None` where the setting is absent.
    pub fn assemble(
        token: Option<String>,
        prefix: Option<String>,
        permissions: Option<String>,
    ) -> (outcome: Result<Config, ConfigError>)
        ensures
            outcome_view(outcome) == assembled(
                setting_view(token),
                setting_view(prefix),
                setting_view(permissions),
            ),
    {
        let token = match token {
            Some(token) => token,
            None => {
                return Err(ConfigError::MissingToken);
            },
        };
        let prefix = match prefix {
            Some(prefix) => prefix,
            None => {
                return Err(ConfigError::MissingPrefix);
            },
        };
        let permissions = match &permissions {
            Some(text) => PermissionMask::decode(Some(text.as_str())),
            None => PermissionMask::decode(None),
        };
        Ok(Config { token, prefix, permissions })
    }

    /// The authentication token.
    pub fn token(&self) -> (token: &str)
        ensures
            token@ == self@.token,
    {
        self.token.as_str()
    }

    /// The command prefix.
    pub fn prefix(&self) -> (prefix: &str)
        ensures
            prefix@ == self@.prefix,
    {
        self.prefix.as_str()
    }

    /// The default permission mask.
    pub fn permissions(&self) -> (mask: PermissionMask)
        ensures
            mask.bits == self@.permissions,
    {
        self.permissions
    }
}

/// The name of the setting that holds the authentication token.
pub const TOKEN_SETTING: &'static str = "DISCORD_TOKEN";

/// The name of the setting that holds the command prefix.
pub const PREFIX_SETTING: &'static str = "PREFIX";

/// The name of the optional setting that holds the permission mask.
pub const PERMISSIONS_SETTING: &'static str = "PERMS";

/// Reads the three settings from the process environment and assembles the
/// configuration from them. What the environment holds is not known here:
/// the result is what `assemble` gives for whatever was read.
pub fn load_config() -> (outcome: Result<Config, ConfigError>)
    ensures
        exists|
            token: Option<Seq<char>>,
            prefix: Option<Seq<char>>,
            permissions: Option<Seq<char>>,
        |
            outcome_view(outcome) == assembled(token, prefix, permissions),
{
    let token = environment_value(TOKEN_SETTING);
    let prefix = environment_value(PREFIX_SETTING);
    let permissions = environment_value(PERMISSIONS_SETTING);
    let outcome = Config::assemble(token, prefix, permissions);
    assert(outcome_view(outcome) == assembled(
        setting_view(token),
        setting_view(prefix),
        setting_view(permissions),
    ));
    outcome
}

/// Calls kankyo's `key`, which reads one variable of the process
/// environment. Nothing is claimed of the result: it depends on the
/// environment alone.
#[verifier::external_body]
fn environment_value(name: &str) -> Option<String> {
    kankyo::key(name)
}

/// With the token and the prefix set, the configuration holds exactly that
/// token and that prefix, whatever the permissions setting is; its mask is
/// the integer that the permissions setting writes, and empty where the
/// setting is absent or writes none.
pub proof fn lemma_present_settings_assemble(
    token: Seq<char>,
    prefix: Seq<char>,
    permissions: Option<Seq<char>>,
)
    ensures
        assembled(Some(token), Some(prefix), permissions) matches Ok(config) && {
            &&& config.token == token
            &&& config.prefix == prefix
            &&& config.permissions == (match permissions {
                Some(text) => match parsed_integer(text) {
                    Some(bits) => bits,
                    None => 0,
                },
                None => 0,
            })
        },
{
}

/// Without the token the assembly fails with `MissingToken`, whatever else
/// is set; with the token and without the prefix it fails with
/// `MissingPrefix`. Nothing else fails it.
pub proof fn lemma_missing_settings_fail(
    token: Option<Seq<char>>,
    prefix: Option<Seq<char>>,
    permissions: Option<Seq<char>>,
)
    ensures
        token is None <==> assembled(token, prefix, permissions) == Err::<ConfigView, ConfigError>(
            ConfigError::MissingToken,
        ),
        token is Some && prefix is None <==> assembled(token, prefix, permissions) == Err::<
            ConfigView,
            ConfigError,
        >(ConfigError::MissingPrefix),
        token is Some && prefix is Some <==> assembled(token, prefix, permissions) is Ok,
{
}

} // verus!
