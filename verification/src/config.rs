//! The configuration a server instance is pinned to at startup, read from
//! the environment and from what the file system says about the binary.
use vstd::prelude::*;

use crate::text::{ascii_lower, parse_bounded, parse_unsigned, to_ascii_lower, trim, trimmed};

verus! {

/// The `flute` profile a server instance is pinned to.
#[derive(Debug, Clone, Copy, PartialEq, Eq, Structural)]
pub enum Profile {
    Sandbox,
    Production,
}

/// The value the CLI expects after `--profile`.
pub open spec fn profile_str(p: Profile) -> Seq<char> {
    match p {
        Profile::Sandbox => "sandbox"@,
        Profile::Production => "production"@,
    }
}

impl Profile {
    /// The profile name as the CLI spells it.
    pub fn as_cli_str(self) -> (res: &'static str)
        ensures
            res@ == profile_str(self),
    {
        match self {
            Profile::Sandbox => "sandbox",
            Profile::Production => "production",
        }
    }
}


/// Why a configuration was refused at startup.
#[derive(Debug)]
pub enum ConfigError {
    /// `FLUTE_PROFILE` named neither profile.
    InvalidProfile(String),
    /// `FLUTE_MCP_TIMEOUT_SECS` was not a positive integer.
    InvalidTimeout(String),
    /// `FLUTE_BIN` was unset and no `flute` was found on `PATH`.
    BinaryNotFound,
    /// `FLUTE_BIN` named something that is not an executable file.
    BinaryUnusable(String),
}

/// The human-readable text of a configuration error.
pub open spec fn config_error_text(e: ConfigError) -> Seq<char> {
    match e {
        ConfigError::InvalidProfile(v) => "invalid FLUTE_PROFILE value `"@ + v@
            + "` (expected `sandbox` or `production`)"@,
        ConfigError::InvalidTimeout(v) => "invalid FLUTE_MCP_TIMEOUT_SECS value `"@ + v@
            + "` (expected positive integer)"@,
        ConfigError::BinaryNotFound => "could not locate `flute` on PATH and FLUTE_BIN is unset"@,
        ConfigError::BinaryUnusable(v) => "FLUTE_BIN=`"@ + v@ + "` does not exist or is not executable"@,
    }
}

impl ConfigError {
    /// The message shown for this error.
    pub fn message(&self) -> (res: String)
        ensures
            res@ == config_error_text(*self),
    {
        match self {
            ConfigError::InvalidProfile(v) => {
                let mut m = String::from_str("invalid FLUTE_PROFILE value `");
                m.append(v.as_str());
                m.append("` (expected `sandbox` or `production`)");
                m
            },
            ConfigError::InvalidTimeout(v) => {
                let mut m = String::from_str("invalid FLUTE_MCP_TIMEOUT_SECS value `");
                m.append(v.as_str());
                m.append("` (expected positive integer)");
                m
            },
            ConfigError::BinaryNotFound => String::from_str(
                "could not locate `flute` on PATH and FLUTE_BIN is unset",
            ),
            ConfigError::BinaryUnusable(v) => {
                let mut m = String::from_str("FLUTE_BIN=`");
                m.append(v.as_str());
                m.append("` does not exist or is not executable");
                m
            },
        }
    }
}

/// The server's configuration, pinned at startup.
#[derive(Debug)]
pub struct Config {
    pub profile: Profile,
    /// Path of the `flute` executable.
    pub binary: String,
    /// The ISV merchant id the key tools fall back to.
    pub merchant_id: Option<String>,
    /// Per-call timeout for the child process, in seconds.
    pub timeout_secs: u64,
    pub debug: bool,
    pub allow_prod_writes: bool,
}

/// The environment variables a configuration is read from, as the process
/// saw them (`None` when unset).
#[derive(Debug, Default)]
pub struct EnvVars {
    /// `FLUTE_PROFILE`
    pub profile: Option<String>,
    /// `FLUTE_MCP_TIMEOUT_SECS`
    pub timeout_secs: Option<String>,
    /// `FLUTE_BIN`
    pub binary: Option<String>,
    /// `FLUTE_MERCHANT_ID`
    pub merchant_id: Option<String>,
    /// `FLUTE_MCP_DEBUG`
    pub debug: Option<String>,
    /// `FLUTE_MCP_ALLOW_PROD_WRITES`
    pub allow_prod_writes: Option<String>,
}

/// `flag` when it was given, otherwise `var`.
pub open spec fn flag_or_var(flag: Option<String>, var: Option<String>) -> Option<String> {
    match flag {
        Some(f) => Some(f),
        None => var,
    }
}

impl EnvVars {
    /// The variables with the `--profile` and `--binary` command-line flags
    /// applied: a flag that was given wins over `FLUTE_PROFILE` or `FLUTE_BIN`.
    pub fn with_flags(self, profile: Option<String>, binary: Option<String>) -> (res: EnvVars)
        ensures
            res.profile == flag_or_var(profile, self.profile),
            res.binary == flag_or_var(binary, self.binary),
            res.timeout_secs == self.timeout_secs,
            res.merchant_id == self.merchant_id,
            res.debug == self.debug,
            res.allow_prod_writes == self.allow_prod_writes,
    {
        let EnvVars { profile: env_profile, timeout_secs, binary: env_binary, merchant_id, debug, allow_prod_writes } = self;
        EnvVars {
            profile: match profile {
                Some(p) => Some(p),
                None => env_profile,
            },
            timeout_secs,
            binary: match binary {
                Some(b) => Some(b),
                None => env_binary,
            },
            merchant_id,
            debug,
            allow_prod_writes,
        }
    }
}

/// What the file system reported about a path.
#[derive(Debug, Clone, Copy)]
pub struct FileFacts {
    /// The path names a regular file.
    pub is_file: bool,
    /// Its Unix permission bits.
    pub mode: u32,
}

/// What was found on disk for the `flute` binary: the metadata of the path in
/// `FLUTE_BIN` (`None` when it could not be read), and the result of looking
/// `flute` up on `PATH`.
#[derive(Debug, Default)]
pub struct BinaryProbe {
    pub flute_bin: Option<FileFacts>,
    pub on_path: Option<String>,
}

/// A flag value enables its flag only when, trimmed and lowered, it is `1`,
/// `true`, `yes` or `on`.
pub open spec fn is_truthy(value: Option<String>) -> bool {
    match value {
        Some(s) => {
            let t = ascii_lower(trimmed(s@));
            t == "1"@ || t == "true"@ || t == "yes"@ || t == "on"@
        },
        None => false,
    }
}

/// Only `1`, `true`, `yes` and `on` enable a flag, whatever their ASCII case
/// and the whitespace around them: two values that agree once trimmed and
/// lowered enable it alike, and an unset variable leaves it off.
pub proof fn lemma_truthy(s: String, t: String)
    ensures
        ascii_lower(trimmed(s@)) == ascii_lower(trimmed(t@)) ==> is_truthy(Some(s)) == is_truthy(
            Some(t),
        ),
        is_truthy(Some(s)) <==> (ascii_lower(trimmed(s@)) == "1"@ || ascii_lower(trimmed(s@))
            == "true"@ || ascii_lower(trimmed(s@)) == "yes"@ || ascii_lower(trimmed(s@)) == "on"@),
        !is_truthy(None),
{
}

/// Reads a boolean environment flag strictly: only `1`/`true`/`yes`/`on`
/// (ASCII case-insensitive, whitespace-trimmed) enable it; anything else, and
/// an unset variable, leave it off.
pub fn truthy(value: Option<String>) -> (res: bool)
    ensures
        res == is_truthy(value),
{
    match value {
        Some(s) => {
            let t = trim(s.as_str());
            let l = to_ascii_lower(t.as_str());
            l == String::from_str("1") || l == String::from_str("true") || l == String::from_str(
                "yes",
            ) || l == String::from_str("on")
        },
        None => false,
    }
}

/// A path is usable as the binary when it is a regular file with at least one
/// execute bit set.
pub open spec fn is_executable(facts: Option<FileFacts>) -> bool {
    match facts {
        Some(f) => f.is_file && (f.mode & 0o111u32) != 0,
        None => false,
    }
}

/// Whether the file described by `facts` can be executed: a regular file with
/// an execute bit, rejected at startup rather than on the first call.
pub fn is_executable_file(facts: Option<FileFacts>) -> (res: bool)
    ensures
        res == is_executable(facts),
{
    match facts {
        Some(f) => f.is_file && (f.mode & 0o111u32) != 0,
        None => false,
    }
}

/// The profile `FLUTE_PROFILE` selects: unset, empty or `sandbox` is the
/// sandbox; `production` or its alias `prod` is production; anything else
/// selects none.
pub open spec fn profile_from(v: Option<String>) -> Option<Profile> {
    match v {
        None => Some(Profile::Sandbox),
        Some(s) => if s@.len() == 0 || s@ == "sandbox"@ {
            Some(Profile::Sandbox)
        } else if s@ == "production"@ || s@ == "prod"@ {
            Some(Profile::Production)
        } else {
            None
        },
    }
}

/// The timeout `FLUTE_MCP_TIMEOUT_SECS` selects: 30 seconds when unset,
/// otherwise the value read as a positive integer.
pub open spec fn timeout_from(v: Option<String>) -> Option<u64> {
    match v {
        None => Some(30),
        Some(s) => match parse_unsigned(s@, u64::MAX as nat) {
            Some(n) => if n > 0 {
                Some(n as u64)
            } else {
                None
            },
            None => None,
        },
    }
}

/// The binary a configuration uses: a non-empty `FLUTE_BIN` when it is an
/// executable file, otherwise the `flute` found on `PATH`.
pub open spec fn binary_from(v: Option<String>, probe: BinaryProbe) -> Result<String, ConfigError> {
    match v {
        Some(p) if p@.len() > 0 => if is_executable(probe.flute_bin) {
            Ok(p)
        } else {
            Err(ConfigError::BinaryUnusable(p))
        },
        _ => match probe.on_path {
            Some(path) => Ok(path),
            None => Err(ConfigError::BinaryNotFound),
        },
    }
}

/// An empty value counts as unset.
pub open spec fn non_empty(v: Option<String>) -> Option<String> {
    match v {
        Some(s) => if s@.len() > 0 {
            Some(s)
        } else {
            None
        },
        None => None,
    }
}

/// The configuration the environment and the binary probe give, or the first
/// error among profile, timeout and binary, in that order.
pub open spec fn config_from_env(env: EnvVars, probe: BinaryProbe) -> Result<Config, ConfigError> {
    match profile_from(env.profile) {
        None => Err(ConfigError::InvalidProfile(env.profile->0)),
        Some(profile) => match timeout_from(env.timeout_secs) {
            None => Err(ConfigError::InvalidTimeout(env.timeout_secs->0)),
            Some(timeout_secs) => match binary_from(env.binary, probe) {
                Err(e) => Err(e),
                Ok(binary) => Ok(
                    Config {
                        profile,
                        binary,
                        merchant_id: non_empty(env.merchant_id),
                        timeout_secs,
                        debug: is_truthy(env.debug),
                        allow_prod_writes: is_truthy(env.allow_prod_writes),
                    },
                ),
            },
        },
    }
}

/// A configuration that starts is the sandbox unless `FLUTE_PROFILE` names
/// production (as `production` or `prod`), waits 30 seconds unless
/// `FLUTE_MCP_TIMEOUT_SECS` says otherwise and never waits 0, pins the merchant
/// id exactly when a non-empty one is set, and lifts the production write
/// guard exactly when `FLUTE_MCP_ALLOW_PROD_WRITES` is truthy; a profile name
/// that is not recognised stops it.
pub proof fn lemma_config_from_env(env: EnvVars, probe: BinaryProbe)
    ensures
        config_from_env(env, probe) matches Ok(c) ==> {
            &&& (c.profile == Profile::Production <==> (env.profile is Some && (env.profile->0@
                == "production"@ || env.profile->0@ == "prod"@)))
            &&& (env.timeout_secs is None ==> c.timeout_secs == 30)
            &&& c.timeout_secs > 0
            &&& (c.allow_prod_writes <==> is_truthy(env.allow_prod_writes))
            &&& (c.debug <==> is_truthy(env.debug))
            &&& (c.merchant_id matches Some(m) ==> env.merchant_id == Some(m) && m@.len() > 0)
            &&& (env.merchant_id matches Some(m) ==> (m@.len() > 0 ==> c.merchant_id == Some(m)))
        },
        env.profile matches Some(s) ==> (s@.len() > 0 && s@ != "sandbox"@ && s@ != "production"@
            && s@ != "prod"@ ==> config_from_env(env, probe) == Err::<Config, ConfigError>(
            ConfigError::InvalidProfile(s),
        )),
{
    reveal_strlit("sandbox");
    reveal_strlit("production");
    reveal_strlit("prod");
    assert("sandbox"@.len() == 7);
    assert("production"@.len() == 10);
    assert("prod"@.len() == 4);
}

fn parse_profile(v: &Option<String>) -> (res: Option<Profile>)
    ensures
        res == profile_from(*v),
{
    match v {
        None => Some(Profile::Sandbox),
        Some(s) => {
            if s.as_str().is_empty() || *s == String::from_str("sandbox") {
                Some(Profile::Sandbox)
            } else if *s == String::from_str("production") || *s == String::from_str("prod") {
                Some(Profile::Production)
            } else {
                None
            }
        },
    }
}

fn parse_timeout(v: &Option<String>) -> (res: Option<u64>)
    ensures
        res == timeout_from(*v),
{
    match v {
        None => Some(30),
        Some(s) => match parse_bounded(s.as_str(), u64::MAX) {
            Some(n) => if n > 0 {
                Some(n)
            } else {
                None
            },
            None => None,
        },
    }
}

fn resolve_binary(v: Option<String>, probe: BinaryProbe) -> (res: Result<String, ConfigError>)
    ensures
        res == binary_from(v, probe),
{
    match v {
        Some(p) if !p.as_str().is_empty() => if is_executable_file(probe.flute_bin) {
            Ok(p)
        } else {
            Err(ConfigError::BinaryUnusable(p))
        },
        _ => match probe.on_path {
            Some(path) => Ok(path),
            None => Err(ConfigError::BinaryNotFound),
        },
    }
}

fn keep_non_empty(v: Option<String>) -> (res: Option<String>)
    ensures
        res == non_empty(v),
{
    match v {
        Some(s) => if !s.as_str().is_empty() {
            Some(s)
        } else {
            None
        },
        None => None,
    }
}

impl Config {
    /// Builds the configuration from the environment variables and what was
    /// found on disk for the binary. The profile is checked first, then the
    /// timeout, then the binary; the first of them that is wrong is the error.
    pub fn from_env(env: EnvVars, probe: BinaryProbe) -> (res: Result<Config, ConfigError>)
        ensures
            res == config_from_env(env, probe),
    {
        let profile = match parse_profile(&env.profile) {
            Some(p) => p,
            None => {
                let EnvVars { profile, .. } = env;
                return Err(ConfigError::InvalidProfile(profile.unwrap()));
            },
        };
        let timeout_secs = match parse_timeout(&env.timeout_secs) {
            Some(t) => t,
            None => {
                let EnvVars { timeout_secs, .. } = env;
                return Err(ConfigError::InvalidTimeout(timeout_secs.unwrap()));
            },
        };
        let EnvVars { profile: _, timeout_secs: _, binary, merchant_id, debug, allow_prod_writes } =
            env;
        let binary = match resolve_binary(binary, probe) {
            Ok(b) => b,
            Err(e) => return Err(e),
        };
        Ok(
            Config {
                profile,
                binary,
                merchant_id: keep_non_empty(merchant_id),
                timeout_secs,
                debug: truthy(debug),
                allow_prod_writes: truthy(allow_prod_writes),
            },
        )
    }
}

} // verus!
