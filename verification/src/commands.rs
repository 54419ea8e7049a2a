//! The command surface: dispatch by subcommand name, and the two resolvers
//! that turn a validated target and the format flags into entry options.

use vstd::prelude::*;
use vstd::string::StringExecFns;

pub mod init;
pub mod new;

verus! {

/// The two subcommands the tool exposes.
#[derive(Clone, Copy, Debug, PartialEq, Eq, Structural)]
pub enum CommandKind {
    /// Initialize a pre-existing empty file in place.
    Init,
    /// Create a new entry file inside a directory.
    New,
}

/// Whether two pieces of text are the same.
fn str_eq(a: &str, b: &str) -> (r: bool)
    ensures
        r == (a@ == b@),
{
    String::from_str(a) == String::from_str(b)
}

/// Maps a subcommand name to its handler kind; an unrecognized name maps to
/// nothing.
pub fn infer(cmd: &str) -> (r: Option<CommandKind>)
    ensures
        cmd@ == "init"@ ==> r == Some(CommandKind::Init),
        cmd@ == "new"@ ==> r == Some(CommandKind::New),
        cmd@ != "init"@ && cmd@ != "new"@ ==> r is None,
{
    proof {
        reveal_strlit("init");
        reveal_strlit("new");
        assert("init"@.len() == 4);
        assert("new"@.len() == 3);
    }
    if str_eq(cmd, "init") {
        Some(CommandKind::Init)
    } else if str_eq(cmd, "new") {
        Some(CommandKind::New)
    } else {
        None
    }
}

} // verus!
