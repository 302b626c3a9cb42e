//! The command line of the tray host, as plain values.
use vstd::prelude::*;

verus! {

/// The parsed command line.
#[derive(Clone, Debug)]
pub struct Cli {
    /// The class name of the foreign top-level window to search for in the
    /// launched process tree.
    pub win_class: String,
    /// An icon file to use instead of the icon of the window's executable.
    pub icon: Option<String>,
    /// Apply the tray icon to the window too.
    pub set_win_icon: bool,
    /// Do not hide the window once it is found.
    pub dont_hide: bool,
    /// The command and its arguments that start the process tree.
    pub foreign_process_tree_args: Vec<String>,
}

/// Why a command line is refused.
#[derive(Clone, Copy, Debug, PartialEq, Eq)]
pub enum CliError {
    /// Nothing follows the separating ` -- `.
    MissingCommand,
}

impl CliError {
    /// The message shown for the error.
    pub fn message(&self) -> (r: String)
        ensures
            r@ == "Missing command or command arguments after separating ` -- `."@,
    {
        match self {
            CliError::MissingCommand => String::from_str(
                "Missing command or command arguments after separating ` -- `.",
            ),
        }
    }
}

impl Cli {
    /// A command line is usable when it names a command to launch.
    pub fn validate(&self) -> (r: Result<(), CliError>)
        ensures
            r is Ok <==> self.foreign_process_tree_args@.len() >= 1,
            r is Err ==> r == Err::<(), CliError>(CliError::MissingCommand),
    {
        if self.foreign_process_tree_args.len() < 1 {
            Err(CliError::MissingCommand)
        } else {
            Ok(())
        }
    }
}

/// The process exit code after an error: 0 where it only informs (help,
/// version), 1 otherwise.
pub fn exit_code_for_error(informational: bool) -> (r: i32)
    ensures
        r == (if informational { 0i32 } else { 1i32 }),
{
    if informational {
        0
    } else {
        1
    }
}

} // verus!
