//! The user configuration and the roots taken from the environment.
use vstd::prelude::*;
use crate::bytes::{ascii, lit};
use crate::error::{Failure, Problem, StoreError, failure, failure_because};
use crate::path::{is_absolute, join, path_join};

verus! {

/// The user configuration: whether a repository selects its project store
/// when no store is named.
#[derive(Clone, Copy, Debug, PartialEq, Eq, Structural)]
pub struct Config {
    pub auto_project: bool,
}

impl Default for Config {
    /// Project stores are selected automatically unless configured otherwise.
    fn default() -> (c: Config)
        ensures
            c.auto_project,
    {
        Config { auto_project: true }
    }
}

/// An environment value used as a base directory: only a nonempty absolute
/// path counts; an empty or relative one is as if it were unset.
pub open spec fn env_root(value: Option<Seq<u8>>) -> Option<Seq<u8>> {
    match value {
        Some(p) => if p.len() > 0 && is_absolute(p) {
            Some(p)
        } else {
            None
        },
        None => None,
    }
}

pub open spec fn opt_view(value: Option<&[u8]>) -> Option<Seq<u8>> {
    match value {
        Some(p) => Some(p@),
        None => None,
    }
}

pub open spec fn opt_vec_view(value: Option<Vec<u8>>) -> Option<Seq<u8>> {
    match value {
        Some(p) => Some(p@),
        None => None,
    }
}

/// The value of an environment variable, kept where it is a usable base
/// directory.
pub fn absolute_env_path(value: Option<&[u8]>) -> (r: Option<Vec<u8>>)
    ensures
        opt_vec_view(r) == env_root(opt_view(value)),
{
    match value {
        Some(p) => if p.len() > 0 && crate::path::path_is_absolute(p) {
            Some(crate::bytes::copy(p))
        } else {
            None
        },
        None => None,
    }
}

/// The path of the configuration file:
/// `${XDG_CONFIG_HOME:-$HOME/.config}/memo/config.toml`, with unusable
/// values treated as unset; none where neither gives a base.
pub open spec fn config_file(xdg_config: Option<Seq<u8>>, home: Option<Seq<u8>>) -> Option<Seq<u8>> {
    match env_root(xdg_config) {
        Some(base) => Some(join(base, lit("memo/config.toml"@))),
        None => match env_root(home) {
            Some(h) => Some(join(join(h, lit(".config"@)), lit("memo/config.toml"@))),
            None => None,
        },
    }
}

/// The path of the configuration file, from the values of `XDG_CONFIG_HOME`
/// and `HOME`.
pub fn config_path(xdg_config: Option<&[u8]>, home: Option<&[u8]>) -> (r: Option<Vec<u8>>)
    ensures
        opt_vec_view(r) == config_file(opt_view(xdg_config), opt_view(home)),
{
    proof {
        reveal_strlit("memo/config.toml");
        reveal_strlit(".config");
    }
    let home = absolute_env_path(home);
    let base = match absolute_env_path(xdg_config) {
        Some(x) => Some(x),
        None => match home {
            Some(h) => Some(path_join(&h, ascii(".config").as_slice())),
            None => None,
        },
    };
    match base {
        Some(b) => Some(path_join(&b, ascii("memo/config.toml").as_slice())),
        None => None,
    }
}

/// What reading the configuration file gave: no file, an I/O error, text
/// that is not a valid configuration, or a configuration.
pub enum ConfigSource {
    Missing,
    Unreadable(String),
    Malformed(String),
    Parsed(Config),
}

/// The configuration in effect, from the configuration file's path (none
/// where no base directory is set) and what reading it gave.
pub open spec fn config_outcome(path: Option<Seq<u8>>, source: ConfigSource) -> Result<Config, Failure> {
    match path {
        None => Ok(Config { auto_project: true }),
        Some(p) => match source {
            ConfigSource::Missing => Ok(Config { auto_project: true }),
            ConfigSource::Unreadable(cause) => Err(failure_because(Problem::ReadFailed, p, cause@)),
            ConfigSource::Malformed(cause) => Err(
                failure_because(Problem::ConfigMalformed, p, cause@),
            ),
            ConfigSource::Parsed(c) => Ok(c),
        },
    }
}

pub open spec fn config_view(r: Result<Config, StoreError>) -> Result<Config, Failure> {
    match r {
        Ok(c) => Ok(c),
        Err(e) => Err(e@),
    }
}

/// The configuration in effect: the default where there is no file, or no
/// place for one; the file's where it parsed; the failure otherwise.
pub fn read_config(path: Option<&[u8]>, source: ConfigSource) -> (r: Result<Config, StoreError>)
    ensures
        config_view(r) == config_outcome(opt_view(path), source),
{
    match path {
        None => Ok(Config::default()),
        Some(p) => match source {
            ConfigSource::Missing => Ok(Config::default()),
            ConfigSource::Unreadable(cause) => Err(StoreError::because(Problem::ReadFailed, p, cause)),
            ConfigSource::Malformed(cause) => Err(
                StoreError::because(Problem::ConfigMalformed, p, cause),
            ),
            ConfigSource::Parsed(c) => Ok(c),
        },
    }
}

/// Whether project stores are selected automatically: `--auto-project` wins,
/// then `--no-auto-project`, then the configuration.
pub fn resolve_auto_project(enable: bool, disable: bool, config: &Config) -> (r: bool)
    ensures
        r == (enable || (!disable && config.auto_project)),
{
    if enable {
        true
    } else if disable {
        false
    } else {
        config.auto_project
    }
}


/// The configuration file is `$XDG_CONFIG_HOME/memo/config.toml` where that
/// variable is a nonempty absolute path; otherwise, set or not,
/// `$HOME/.config/memo/config.toml` where `HOME` is one; otherwise there is
/// none.
pub proof fn lemma_config_file_location(xdg_config: Option<Seq<u8>>, home: Option<Seq<u8>>)
    ensures
        xdg_config matches Some(x) && x.len() > 0 && x[0] == 47 ==> config_file(xdg_config, home)
            == Some(join(xdg_config.unwrap(), lit("memo/config.toml"@))),
        !(xdg_config matches Some(x) && x.len() > 0 && x[0] == 47) && (home matches Some(h)
            && h.len() > 0 && h[0] == 47) ==> config_file(xdg_config, home) == Some(
            join(join(home.unwrap(), lit(".config"@)), lit("memo/config.toml"@)),
        ),
        !(xdg_config matches Some(x) && x.len() > 0 && x[0] == 47) && !(home matches Some(h)
            && h.len() > 0 && h[0] == 47) ==> config_file(xdg_config, home) is None,
{
}

/// An unset `XDG_CONFIG_HOME` counts as an empty or relative one.
pub proof fn lemma_unset_config_home(unusable: Seq<u8>, home: Option<Seq<u8>>)
    requires
        !(unusable.len() > 0 && unusable[0] == 47),
    ensures
        config_file(None, home) == config_file(Some(unusable), home),
{
}

} // verus!
