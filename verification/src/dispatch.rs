//! The dispatcher: the thin state machine that owns the current mode id,
//! resolves each incoming command against the choice map, and returns the
//! actions to run.
use crate::choices::{ChoiceMap, CommandMode, Resolution, ResolutionView, spec_resolve};
use crate::command::Command;
use vstd::prelude::*;

verus! {

/// The session state of command dispatch: the choice map and the id of the
/// mode that the next command will be resolved against.
#[derive(Debug)]
pub struct Dispatcher {
    /// The choice map, built once at startup.
    pub command: CommandMode,
    /// The id of the current mode; `normal` is the root mode.
    pub command_key: String,
}

impl Dispatcher {
    /// Creates a dispatcher in the root mode.
    pub fn new(command: CommandMode) -> (r: Dispatcher)
        ensures
            r.command == command,
            r.command_key@ == "normal"@,
    {
        Dispatcher { command, command_key: "normal".to_owned() }
    }

    /// Resolves one command against the current mode and takes the mode
    /// transition that the resolution prescribes: a selected group becomes
    /// the current mode; a run of actions returns the dispatcher to the
    /// root mode; an unrecognized command changes nothing. Mode selection
    /// is single-shot: one command chooses a group, and the command after
    /// the next run returns control to the root mode.
    pub fn dispatch(&mut self, cmd: &Command) -> (r: Resolution)
        ensures
            r@ == spec_resolve(old(self).command.spec_choices(), old(self).command_key@, cmd@),
            final(self).command == old(self).command,
            r@ matches ResolutionView::SwitchMode(id) ==> final(self).command_key@ == id,
            r@ matches ResolutionView::Run(_) ==> final(self).command_key@ == "normal"@,
            r@ is Unrecognized ==> final(self).command_key@ == old(self).command_key@,
    {
        let r = self.command.choices().resolve(self.command_key.as_str(), cmd);
        match &r {
            Resolution::SwitchMode(id) => {
                self.command_key = id.clone();
            },
            Resolution::Run(_) => {
                self.command_key = "normal".to_owned();
            },
            Resolution::Unrecognized => {
            },
        }
        r
    }

    /// Borrows the choice map.
    pub fn choices(&self) -> (r: &ChoiceMap)
        ensures
            r@ == self.command.spec_choices(),
    {
        self.command.choices()
    }
}

} // verus!
