//! The editor's state between input events: the view, and whether the user
//! asked to quit.

use crate::command::EditorCommand;
use crate::view::{command_done, View};
use vstd::prelude::*;

verus! {

/// The editor: the view it shows and whether it is to stop.
pub struct Editor {
    should_quit: bool,
    pub view: View,
}

impl Editor {
    /// The view's buffer is well formed.
    pub closed spec fn wf(&self) -> bool {
        self.view.wf()
    }

    /// The view the editor shows.
    pub closed spec fn shown(&self) -> View {
        self.view
    }

    /// Whether the user asked to quit.
    pub closed spec fn quitting(&self) -> bool {
        self.should_quit
    }

    /// Whether the user asked to quit.
    pub fn should_quit(&self) -> (r: bool)
        ensures
            r == self.quitting(),
    {
        self.should_quit
    }

    /// Handles one decoded command: `Quit` marks the editor as stopping and
    /// leaves the view alone; any other command goes to the view.
    pub fn evaluate_command(&mut self, command: EditorCommand)
        requires
            old(self).wf(),
        ensures
            final(self).wf(),
            command is Quit ==> final(self).quitting() && final(self).shown() == old(self).shown(),
            !(command is Quit) ==> final(self).quitting() == old(self).quitting() && command_done(
                old(self).shown(),
                final(self).shown(),
                command,
            ),
    {
        match command {
            EditorCommand::Quit => {
                self.should_quit = true;
            },
            _ => self.view.handle_command(command),
        }
    }
}

impl Default for Editor {
    /// An editor on an empty document, not quitting.
    fn default() -> (r: Editor)
        ensures
            r.wf(),
            !r.quitting(),
            r.shown().lines() == Seq::<Seq<Seq<char>>>::empty(),
            r.shown().needs_redraw(),
    {
        Editor { should_quit: false, view: View::default() }
    }
}

} // verus!
