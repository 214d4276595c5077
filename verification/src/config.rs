//! Detection of the compositor's configuration provider.

use vstd::prelude::*;
#[allow(unused_imports)]
use vstd::string::*;
#[allow(unused_imports)]
use crate::text;
use crate::text::same_text;

verus! {

/// Why the configuration provider is not known.
#[derive(Debug)]
pub enum ConfigError {
    /// Neither the runtime directory nor the user id is in the environment.
    NoRuntimeDir,
    /// The compositor's instance signature is not in the environment.
    NoInstance,
    /// The compositor's socket could not be used.
    Socket(String),
    /// The compositor's answer is no status.
    Status(String),
}

/// The compositor's status.
#[derive(Debug)]
pub struct HyprlandStatus {
    pub config_provider: String,
}

/// The directory that holds the runtime files of the user.
pub open spec fn runtime_dir(
    xdg_runtime_dir: Option<Seq<char>>,
    uid: Option<Seq<char>>,
) -> Option<Seq<char>> {
    match (xdg_runtime_dir, uid) {
        (Some(dir), _) => Some(dir),
        (None, Some(uid)) => Some("/run/user/"@ + uid),
        (None, None) => None,
    }
}

/// The path of the compositor's socket, from the environment variables `XDG_RUNTIME_DIR`, `UID`
/// and `HYPRLAND_INSTANCE_SIGNATURE`.
pub fn socket_path(
    xdg_runtime_dir: Option<&str>,
    uid: Option<&str>,
    instance: Option<&str>,
) -> (path: Result<String, ConfigError>)
    ensures
        match (runtime_dir(text::chars(xdg_runtime_dir), text::chars(uid)), instance) {
            (None, _) => path == Err::<String, ConfigError>(ConfigError::NoRuntimeDir),
            (Some(_), None) => path == Err::<String, ConfigError>(ConfigError::NoInstance),
            (Some(dir), Some(instance)) => path matches Ok(path) && path@ == dir + "/hypr/"@
                + instance@ + "/.socket.sock"@,
        },
{
    let dir: String = match xdg_runtime_dir {
        Some(dir) => dir.to_owned(),
        None => match uid {
            Some(uid) => "/run/user/".to_owned().concat(uid),
            None => return Err(ConfigError::NoRuntimeDir),
        },
    };
    match instance {
        Some(instance) => Ok(dir.concat("/hypr/").concat(instance).concat("/.socket.sock")),
        None => Err(ConfigError::NoInstance),
    }
}

/// What is written to the socket to ask for the status.
pub fn status_request() -> (request: &'static str)
    ensures
        request@ == "j/status"@,
{
    "j/status"
}

/// The configuration provider that the status names.
pub fn get_hyprland_config_provider(status: Result<HyprlandStatus, ConfigError>) -> (provider:
    Result<String, ConfigError>)
    ensures
        provider == (match status {
            Ok(status) => Ok(status.config_provider),
            Err(error) => Err(error),
        }),
{
    match status {
        Ok(status) => Ok(status.config_provider),
        Err(error) => Err(error),
    }
}

/// The provider is known and is Lua.
pub open spec fn is_lua(provider: Result<String, ConfigError>) -> bool {
    provider matches Ok(provider) && provider@ == "lua"@
}

/// Tells whether dispatchers take Lua arguments. Where the provider is not known, the legacy
/// dispatchers are assumed.
pub fn detect_lua_config(provider: &Result<String, ConfigError>) -> (lua: bool)
    ensures
        lua == is_lua(*provider),
{
    match provider {
        Ok(provider) => same_text(provider, &"lua".to_owned()),
        Err(_) => false,
    }
}

} // verus!
