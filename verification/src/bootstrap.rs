//! What the shell is set up with before its event loop starts: the
//! capabilities it is granted and the commands that callers may invoke.

use vstd::prelude::*;

verus! {

/// An ability of the operating system that the shell is granted at start.
#[derive(Clone, Copy, Debug, PartialEq, Eq, Structural)]
pub enum Capability {
    /// Open a path or URL with the system's default handler.
    FileOpener,
    /// Show native open, save and message dialogs.
    Dialogs,
    /// Read and write local files within a scope.
    Filesystem,
}

/// A command that a front end may invoke by name.
#[derive(Clone, Copy, Debug, PartialEq, Eq, Structural)]
pub enum Command {
    /// Open the player view unless it is open already.
    OpenPlayerWindow,
}

/// The capabilities granted at start, in the order in which they are set up.
pub open spec fn granted() -> Seq<Capability> {
    seq![Capability::FileOpener, Capability::Dialogs, Capability::Filesystem]
}

/// The name by which a command is invoked.
pub open spec fn name_of(command: Command) -> Seq<char> {
    match command {
        Command::OpenPlayerWindow => "open_player_window"@,
    }
}

/// The command that a name stands for in the dispatch table.
pub open spec fn resolved(name: Seq<char>) -> Option<Command> {
    if name == name_of(Command::OpenPlayerWindow) {
        Some(Command::OpenPlayerWindow)
    } else {
        None
    }
}

/// Every command is found in the dispatch table under its own name.
pub proof fn law_names_resolve(command: Command)
    ensures
        resolved(name_of(command)) == Some(command),
{
}

/// The capabilities to set up before the event loop starts.
pub fn capabilities() -> (list: Vec<Capability>)
    ensures
        list@ == granted(),
{
    let mut list: Vec<Capability> = Vec::new();
    list.push(Capability::FileOpener);
    list.push(Capability::Dialogs);
    list.push(Capability::Filesystem);
    assert(list@ =~= granted());
    list
}

impl Command {
    /// The name by which this command is invoked.
    pub fn name(self) -> (name: &'static str)
        ensures
            name@ == name_of(self),
    {
        match self {
            Command::OpenPlayerWindow => "open_player_window",
        }
    }
}

/// Looks a name up in the dispatch table: the command it stands for, or
/// `None` for a name that no command has.
pub fn dispatch(name: &str) -> (command: Option<Command>)
    ensures
        command == resolved(name@),
{
    let wanted: String = name.to_owned();
    let known: String = Command::OpenPlayerWindow.name().to_owned();
    if wanted == known {
        Some(Command::OpenPlayerWindow)
    } else {
        None
    }
}

} // verus!
