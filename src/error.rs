//! Why a profile line could not be classified.

use vstd::prelude::*;

verus! {

/// Why a profile line could not be classified.
#[derive(Clone, Copy, Debug, PartialEq, Eq, Hash, Structural)]
pub enum Error {
    /// A `bind` argument without a `,`.
    BadBind,
    /// A word that names no capability.
    BadCap,
    /// A line that matches no directive.
    BadCommand,
    /// A line starting with `?` whose guard is unknown.
    BadCondition,
    /// A word that names no D-Bus policy.
    BadDBusPolicy,
    /// An `env` argument without a `=`.
    BadEnv,
    /// A word that names no protocol.
    BadProtocol,
    /// A word that names no seccomp error action.
    BadSeccompErrorAction,
    /// A guard with no directive after it.
    EmptyCondition,
}

impl Error {
    /// A short description of the error.
    pub fn message(&self) -> (r: &'static str) {
        match self {
            Error::BadBind => "Invalid bind command",
            Error::BadCap => "Invalid capability",
            Error::BadCommand => "Invalid command",
            Error::BadCondition => "Invalid condition",
            Error::BadDBusPolicy => "Invalid dbus policy",
            Error::BadEnv => "Invalid env command",
            Error::BadProtocol => "Invalid protocol",
            Error::BadSeccompErrorAction => "Invalid seccomp-error-action",
            Error::EmptyCondition => "No command after condition",
        }
    }
}

} // verus!
