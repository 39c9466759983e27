//! The command line: `play --name <file>` starts a file at once.

use vstd::prelude::*;

use crate::session::{start_spec, Action, App};

verus! {

/// The parsed command line.
pub struct Cli {
    pub command: Command,
}

/// A subcommand.
pub enum Command {
    /// Play a file at once.
    Play(PlayArgs),
}

/// What `play` is given.
pub struct PlayArgs {
    /// The file to play.
    pub file: String,
}

impl Command {
    /// Carries out the command on the session: `play` starts its file at
    /// once, a regular file when `is_file`, converting it first where the
    /// output cannot play it as it is.
    pub fn execute(&self, app: &mut App, is_file: bool) -> (r: Action)
        ensures
            match self {
                Command::Play(args) => (final(app)@, r@) == start_spec(old(app)@, args.file@, is_file),
            },
            old(app)@.wf() ==> final(app)@.wf(),
    {
        match self {
            Command::Play(args) => app.load_now(args.file.clone(), is_file),
        }
    }
}

} // verus!
