//! The service's configuration: its shape, where it is read from, and how a
//! failure to read it is reported. Reading the files and the environment is
//! the caller's work; the layering itself (base file, then the environment's
//! file, then variables named with the prefix) is done by the `config`
//! crate there.

use vstd::prelude::*;
use vstd::string::*;

use crate::error::{ConfigReadingError, ConfigReadingErrorView};

verus! {

/// Where the HTTP server listens.
#[derive(Clone)]
pub struct HttpConfig {
    pub port: u16,
    pub host: String,
}

/// How to reach the database.
#[derive(Clone)]
pub struct PostgresConfig {
    pub host: String,
    pub port: u16,
    pub user: String,
    pub pwd: String,
    pub data_base: String,
    pub pool_size: u32,
}

/// The whole configuration.
#[derive(Clone)]
pub struct AppConfig {
    pub http: HttpConfig,
    pub postgres: PostgresConfig,
}

/// What to layer into the configuration, in order: each source overrides
/// the ones before it.
pub struct ConfigSources {
    /// The base file, read first.
    pub base_file: String,
    /// The file of the environment, read over the base file.
    pub env_file: String,
    /// Prefix of the environment variables read last.
    pub env_prefix: String,
    /// Separator of the levels in the names of those variables.
    pub env_separator: String,
}

/// The base file under the directory `path`.
pub open spec fn base_file_path(path: Seq<char>) -> Seq<char> {
    path + "/base_config.json"@
}

/// The file of the environment `env` under the directory `path`.
pub open spec fn env_file_path(path: Seq<char>, env: Seq<char>) -> Seq<char> {
    path + "/"@ + env + "_config.json"@
}

/// The base file under the directory `path`, whose existence decides
/// whether the configuration can be read at all.
pub fn base_config_file(path: &str) -> (res: String)
    ensures
        res@ == base_file_path(path@),
{
    let mut base_file = String::from_str(path);
    base_file.append("/base_config.json");
    base_file
}

/// The file of the environment `env` under the directory `path`.
pub fn env_config_file(path: &str, env: &str) -> (res: String)
    ensures
        res@ == env_file_path(path@, env@),
{
    let mut env_file = String::from_str(path);
    env_file.append("/");
    env_file.append(env);
    env_file.append("_config.json");
    env_file
}

/// Decides where the configuration comes from: the base file
/// `<path>/base_config.json`, which must exist (`base_exists` says whether
/// it does), then `<path>/<env>_config.json`, then the environment variables
/// named `<env_vars_prefix>__<section>__<key>`.
pub fn get_config(path: &str, env: &str, env_vars_prefix: &str, base_exists: bool) -> (res: Result<
    ConfigSources,
    ConfigReadingError,
>)
    ensures
        base_exists ==> (res matches Ok(s) && s.base_file@ == base_file_path(path@)
            && s.env_file@ == env_file_path(path@, env@) && s.env_prefix@ == env_vars_prefix@
            && s.env_separator@ == "__"@),
        !base_exists ==> (res matches Err(e) && e@ == ConfigReadingErrorView::WrongPathError(
            base_file_path(path@),
        )),
{
    let base_file = base_config_file(path);
    if !base_exists {
        return Err(ConfigReadingError::WrongPathError(base_file));
    }
    Ok(
        ConfigSources {
            base_file,
            env_file: env_config_file(path, env),
            env_prefix: String::from_str(env_vars_prefix),
            env_separator: String::from_str("__"),
        },
    )
}

/// Reports the outcome of layering the sources: the configuration, or the
/// failure text of the layering wrapped as a parsing error.
pub fn read_config_from_path(layered: Result<AppConfig, String>) -> (res: Result<
    AppConfig,
    ConfigReadingError,
>)
    ensures
        match layered {
            Ok(c) => res == Ok::<AppConfig, ConfigReadingError>(c),
            Err(msg) => res matches Err(e) && e@ == ConfigReadingErrorView::ParsingError(msg@),
        },
{
    match layered {
        Ok(c) => Ok(c),
        Err(msg) => Err(ConfigReadingError::ParsingError(msg)),
    }
}


/// The directory and environment of the configuration: the values of the
/// `CONF` and `ENV` variables when set, else `src/resources` and `base`.
pub fn config_location(conf: Option<String>, env: Option<String>) -> (res: (String, String))
    ensures
        res.0@ == match conf {
            Some(c) => c@,
            None => "src/resources"@,
        },
        res.1@ == match env {
            Some(e) => e@,
            None => "base"@,
        },
{
    let dir = match conf {
        Some(c) => c,
        None => String::from_str("src/resources"),
    };
    let name = match env {
        Some(e) => e,
        None => String::from_str("base"),
    };
    (dir, name)
}


/// The configuration is read from the directory: its base file is
/// `base_config.json` in it, the environment's file `<env>_config.json`
/// beside it.
pub proof fn lemma_config_files(path: Seq<char>, env: Seq<char>)
    ensures
        base_file_path(path) == path + "/base_config.json"@,
        env_file_path(path, env) == path + "/"@ + env + "_config.json"@,
        base_file_path(path).subrange(0, path.len() as int) == path,
        env_file_path(path, env).subrange(0, path.len() as int) == path,
{
    assert(base_file_path(path).subrange(0, path.len() as int) =~= path);
    assert(env_file_path(path, env).subrange(0, path.len() as int) =~= path);
}

} // verus!
