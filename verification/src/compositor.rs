//! Which compositor is running, and which client serves which module.

use vstd::prelude::*;

verus! {

/// Why there is no client.
#[derive(Debug)]
pub enum Error<E = String> {
    /// The compositor cannot serve the module; the compositors that can are listed.
    Unsupported(&'static str, &'static [&'static str]),
    /// The module is not compiled in for the compositor.
    Disabled(&'static str),
    /// The compositor could not be reached, for this reason.
    Other(E),
}

pub type Result<T, E = String> = std::result::Result<T, Error<E>>;

/// A compositor.
#[derive(Debug, Copy, Clone, PartialEq, Eq, Structural)]
pub enum Compositor {
    Sway,
    Hyprland,
    Niri,
    Unsupported,
}

/// The client that serves a module.
#[derive(Debug, Copy, Clone, PartialEq, Eq, Structural)]
pub enum Backend {
    Sway,
    Hyprland,
    Niri,
}

/// The environment variables by which a compositor makes itself known.
#[derive(Debug, Copy, Clone)]
pub struct Environment {
    /// `SWAYSOCK` is set
    pub swaysock: bool,
    /// `HYPRLAND_INSTANCE_SIGNATURE` is set
    pub hyprland_instance_signature: bool,
    /// `NIRI_SOCKET` is set
    pub niri_socket: bool,
}

/// What is compiled in: the compositors, and the modules for each of them.
#[derive(Debug, Copy, Clone)]
pub struct Features {
    pub sway: bool,
    pub hyprland: bool,
    pub niri: bool,
    pub bindmode_sway: bool,
    pub bindmode_hyprland: bool,
    pub keyboard_sway: bool,
    pub keyboard_hyprland: bool,
    pub workspaces_sway: bool,
    pub workspaces_hyprland: bool,
    pub workspaces_niri: bool,
}

/// The compositor that the environment makes known, if it is compiled in. Where there are several,
/// Sway goes before Hyprland, and Hyprland before Niri.
pub open spec fn current(environment: Environment, features: Features) -> Compositor {
    if environment.swaysock {
        if features.sway {
            Compositor::Sway
        } else {
            Compositor::Unsupported
        }
    } else if environment.hyprland_instance_signature {
        if features.hyprland {
            Compositor::Hyprland
        } else {
            Compositor::Unsupported
        }
    } else if environment.niri_socket && features.niri {
        Compositor::Niri
    } else {
        Compositor::Unsupported
    }
}

/// The names of a list.
pub open spec fn names(list: Seq<&'static str>) -> Seq<Seq<char>> {
    Seq::new(list.len(), |i: int| list[i]@)
}

/// The result says that the module is not supported, and by which compositors it is.
pub open spec fn is_unsupported(
    result: Result<Backend>,
    module: Seq<char>,
    supported: Seq<Seq<char>>,
) -> bool {
    result matches Err(Error::Unsupported(name, list)) && name@ == module && names(list@)
        == supported
}

/// The result says that the module is not compiled in for the compositor.
pub open spec fn is_disabled(result: Result<Backend>, module: Seq<char>) -> bool {
    result matches Err(Error::Disabled(name)) && name@ == module
}

/// The module is served on Sway and Hyprland, where it is compiled in for them, and not
/// supported elsewhere.
pub open spec fn input_client(
    result: Result<Backend>,
    compositor: Compositor,
    module: Seq<char>,
    on_sway: bool,
    on_hyprland: bool,
) -> bool {
    match compositor {
        Compositor::Sway => if on_sway {
            result == Ok::<Backend, Error>(Backend::Sway)
        } else {
            is_disabled(result, module)
        },
        Compositor::Hyprland => if on_hyprland {
            result == Ok::<Backend, Error>(Backend::Hyprland)
        } else {
            is_disabled(result, module)
        },
        Compositor::Niri => is_unsupported(result, module, seq!["sway"@, "hyprland"@]),
        Compositor::Unsupported => is_unsupported(result, module, seq!["sway"@, "hyprland"@]),
    }
}

/// The workspaces module is served on Sway, Hyprland and Niri, where it is compiled in for them,
/// and not supported elsewhere.
pub open spec fn workspace_client(
    result: Result<Backend>,
    compositor: Compositor,
    features: Features,
) -> bool {
    let (enabled, backend) = match compositor {
        Compositor::Sway => (features.workspaces_sway, Backend::Sway),
        Compositor::Hyprland => (features.workspaces_hyprland, Backend::Hyprland),
        _ => (features.workspaces_niri, Backend::Niri),
    };
    if compositor is Unsupported {
        is_unsupported(result, "workspaces"@, seq!["sway"@, "hyprland"@, "niri"@])
    } else if enabled {
        result == Ok::<Backend, Error>(backend)
    } else {
        is_disabled(result, "workspaces"@)
    }
}

/// Hands on the outcome of connecting to the compositor; a failure becomes the reason of an error.
pub fn connected<C, E>(client: std::result::Result<C, E>) -> (result: Result<C, E>)
    ensures
        result == (match client {
            Ok(client) => Ok(client),
            Err(reason) => Err(Error::Other(reason)),
        }),
{
    match client {
        Ok(client) => Ok(client),
        Err(reason) => Err(Error::Other(reason)),
    }
}

/// The answer of an input module to a compositor that cannot serve it.
fn unsupported_input(module: &'static str) -> (result: Result<Backend>)
    ensures
        is_unsupported(result, module@, seq!["sway"@, "hyprland"@]),
{
    let supported: &'static [&'static str] = &["sway", "hyprland"];
    assert(names(supported@) =~= seq!["sway"@, "hyprland"@]);
    Err(Error::Unsupported(module, supported))
}

impl Compositor {
    /// The name of the compositor.
    pub fn name(&self) -> (name: &'static str)
        ensures
            name@ == (match *self {
                Compositor::Sway => "Sway"@,
                Compositor::Hyprland => "Hyprland"@,
                Compositor::Niri => "Niri"@,
                Compositor::Unsupported => "Unsupported"@,
            }),
    {
        match self {
            Self::Sway => "Sway",
            Self::Hyprland => "Hyprland",
            Self::Niri => "Niri",
            Self::Unsupported => "Unsupported",
        }
    }

    /// Attempts to get the current compositor.
    /// This is done by checking system env vars.
    pub fn get_current(environment: &Environment, features: &Features) -> (compositor: Self)
        ensures
            compositor == current(*environment, *features),
    {
        if environment.swaysock {
            if features.sway {
                Self::Sway
            } else {
                Self::Unsupported
            }
        } else if environment.hyprland_instance_signature {
            if features.hyprland {
                Self::Hyprland
            } else {
                Self::Unsupported
            }
        } else if environment.niri_socket {
            if features.niri {
                Self::Niri
            } else {
                Self::Unsupported
            }
        } else {
            Self::Unsupported
        }
    }

    /// Chooses the binding mode client for the current compositor.
    pub fn create_bindmode_client(
        environment: &Environment,
        features: &Features,
    ) -> (client: Result<Backend>)
        ensures
            input_client(
                client,
                current(*environment, *features),
                "bindmode"@,
                features.bindmode_sway,
                features.bindmode_hyprland,
            ),
    {
        match Self::get_current(environment, features) {
            Self::Sway if features.bindmode_sway => Ok(Backend::Sway),
            Self::Hyprland if features.bindmode_hyprland => Ok(Backend::Hyprland),
            Self::Niri => unsupported_input("bindmode"),
            Self::Unsupported => unsupported_input("bindmode"),
            _ => Err(Error::Disabled("bindmode")),
        }
    }

    /// Chooses the keyboard layout client for the current compositor.
    pub fn create_keyboard_layout_client(
        environment: &Environment,
        features: &Features,
    ) -> (client: Result<Backend>)
        ensures
            input_client(
                client,
                current(*environment, *features),
                "keyboard"@,
                features.keyboard_sway,
                features.keyboard_hyprland,
            ),
    {
        match Self::get_current(environment, features) {
            Self::Sway if features.keyboard_sway => Ok(Backend::Sway),
            Self::Hyprland if features.keyboard_hyprland => Ok(Backend::Hyprland),
            Self::Niri => unsupported_input("keyboard"),
            Self::Unsupported => unsupported_input("keyboard"),
            _ => Err(Error::Disabled("keyboard")),
        }
    }

    /// Chooses the workspace client for the current compositor.
    pub fn create_workspace_client(
        environment: &Environment,
        features: &Features,
    ) -> (client: Result<Backend>)
        ensures
            workspace_client(client, current(*environment, *features), *features),
    {
        match Self::get_current(environment, features) {
            Self::Sway if features.workspaces_sway => Ok(Backend::Sway),
            Self::Hyprland if features.workspaces_hyprland => Ok(Backend::Hyprland),
            Self::Niri if features.workspaces_niri => Ok(Backend::Niri),
            Self::Unsupported => {
                let supported: &'static [&'static str] = &["sway", "hyprland", "niri"];
                assert(names(supported@) =~= seq!["sway"@, "hyprland"@, "niri"@]);
                Err(Error::Unsupported("workspaces", supported))
            },
            _ => Err(Error::Disabled("workspaces")),
        }
    }
}

} // verus!
