use vstd::prelude::*;

verus! {

/// Raised while turning a raw configuration document into a `Project`.
#[derive(Debug, Clone)]
pub enum DecodeError {
    /// The document supplied both an `attach` and a `detached` field.
    AttachAndDetached,
}

/// Raised while checking the cross-field invariants of a decoded `Project`.
#[derive(Debug, Clone)]
pub enum ValidationError {
    /// The session name holds a character tmux cannot accept.
    InvalidSessionName(String),
    /// `startup_window` names a window index outside the configured range.
    StartupWindowIndexNotFound(usize),
    /// `startup_window` names a window name that no window carries.
    StartupWindowNameNotFound(String),
    /// `working_dir` does not denote an existing directory.
    WorkingDirNotFound(String),
    /// A window failed its own check: its name is not a valid identifier.
    InvalidWindowName(String),
}

/// Raised while assembling the tmux command line.
#[derive(Debug, Clone)]
pub enum AssemblyError {
    /// `tmux_command` was still unset when the invocation was assembled.
    TmuxCommandNotSet,
    /// `tmux_options` could not be split into shell words.
    TmuxOptionsSplit,
    /// `tmux_command` could not be split into shell words.
    TmuxCommandSplit,
    /// `tmux_command` split into no words at all.
    TmuxCommandEmpty,
}

} // verus!
