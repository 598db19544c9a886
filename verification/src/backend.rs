//! Choice of the input backend from the terminal status of standard input.

use vstd::prelude::*;

verus! {

/// The input-handling implementations a shell session can be built on.
#[derive(Clone, Copy, Debug, PartialEq, Eq, Structural)]
pub enum InputBackend {
    /// Full-featured line editor.
    Reedline,
    /// Reduced line editor; only ever chosen by an explicit request.
    Basic,
    /// Minimal reader without any line editing.
    Minimal,
}

/// The backend used when none was requested: the full line editor on a
/// terminal, the minimal reader otherwise. `None` stands for a platform that
/// cannot tell whether standard input is a terminal.
pub open spec fn default_input_backend(stdin_is_terminal: Option<bool>) -> InputBackend {
    if stdin_is_terminal == Some(true) {
        InputBackend::Reedline
    } else {
        InputBackend::Minimal
    }
}

/// Returns the backend to use when the command line names none.
pub fn get_default_input_backend(stdin_is_terminal: Option<bool>) -> (backend: InputBackend)
    ensures
        backend == default_input_backend(stdin_is_terminal),
        stdin_is_terminal == Some(true) ==> backend == InputBackend::Reedline,
        stdin_is_terminal != Some(true) ==> backend == InputBackend::Minimal,
{
    match stdin_is_terminal {
        Some(true) => InputBackend::Reedline,
        _ => InputBackend::Minimal,
    }
}

/// The backend a session is built on: the one the command line asks for,
/// or else the default for the terminal status of standard input.
pub open spec fn selected_input_backend(
    requested: Option<InputBackend>,
    stdin_is_terminal: Option<bool>,
) -> InputBackend {
    match requested {
        Some(backend) => backend,
        None => default_input_backend(stdin_is_terminal),
    }
}

/// Selects the backend for a session. A requested backend always wins;
/// without one, standard input that is a terminal gets the full line editor
/// and any other standard input the minimal reader. The reduced line editor
/// is never chosen unless requested.
pub fn select_input_backend(
    requested: Option<InputBackend>,
    stdin_is_terminal: Option<bool>,
) -> (backend: InputBackend)
    ensures
        backend == selected_input_backend(requested, stdin_is_terminal),
        requested is Some ==> backend == requested->0,
        requested is None && stdin_is_terminal == Some(true) ==> backend == InputBackend::Reedline,
        requested is None && stdin_is_terminal != Some(true) ==> backend == InputBackend::Minimal,
        backend == InputBackend::Basic ==> requested == Some(InputBackend::Basic),
{
    match requested {
        Some(backend) => backend,
        None => get_default_input_backend(stdin_is_terminal),
    }
}

} // verus!
