use vstd::prelude::*;

use crate::model::{spec_delete, spec_next, spec_prev, spec_quit, spec_toggle, App, AppModel};

verus! {

/// The commands a session understands, one key each.
#[derive(Clone, Copy, PartialEq, Eq, Structural, Debug)]
pub enum Command {
    Quit,
    Next,
    Prev,
    ToggleMark,
    Delete,
    Rename,
}

/// The fixed key bindings.
pub open spec fn spec_command_for_key(c: char) -> Option<Command> {
    if c == 'q' {
        Some(Command::Quit)
    } else if c == 'j' {
        Some(Command::Next)
    } else if c == 'k' {
        Some(Command::Prev)
    } else if c == 'm' {
        Some(Command::ToggleMark)
    } else if c == 'd' {
        Some(Command::Delete)
    } else if c == 'r' {
        Some(Command::Rename)
    } else {
        None
    }
}

/// The state after one command.
pub open spec fn spec_step(m: AppModel, cmd: Command) -> AppModel {
    match cmd {
        Command::Quit => spec_quit(m),
        Command::Next => spec_next(m),
        Command::Prev => spec_prev(m),
        Command::ToggleMark => spec_toggle(m),
        Command::Delete => spec_delete(m),
        Command::Rename => m,
    }
}

/// The state after one key press; an unbound key changes nothing.
pub open spec fn spec_key(m: AppModel, c: char) -> AppModel {
    match spec_command_for_key(c) {
        Some(cmd) => spec_step(m, cmd),
        None => m,
    }
}

/// The state after a run of commands, applied in order.
pub open spec fn spec_run(m: AppModel, cmds: Seq<Command>) -> AppModel
    decreases cmds.len(),
{
    if cmds.len() == 0 {
        m
    } else {
        spec_run(spec_step(m, cmds[0]), cmds.drop_first())
    }
}

/// The command bound to key `c`, if any.
pub fn command_for_key(c: char) -> (r: Option<Command>)
    ensures
        r == spec_command_for_key(c),
{
    match c {
        'q' => Some(Command::Quit),
        'j' => Some(Command::Next),
        'k' => Some(Command::Prev),
        'm' => Some(Command::ToggleMark),
        'd' => Some(Command::Delete),
        'r' => Some(Command::Rename),
        _ => None,
    }
}

impl App {
    /// Carries out one command.
    pub fn handle_command(&mut self, cmd: Command)
        requires
            old(self).inv(),
        ensures
            final(self).inv(),
            final(self)@ == spec_step(old(self)@, cmd),
    {
        match cmd {
            Command::Quit => self.exit(),
            Command::Next => self.next_item(),
            Command::Prev => self.prev_item(),
            Command::ToggleMark => self.mark_as_done(),
            Command::Delete => self.delete_marks(),
            Command::Rename => self.rename_marks(),
        }
    }

    /// Carries out the command bound to key `c`; other keys are ignored.
    pub fn handle_key_event(&mut self, c: char)
        requires
            old(self).inv(),
        ensures
            final(self).inv(),
            final(self)@ == spec_key(old(self)@, c),
    {
        match command_for_key(c) {
            Some(cmd) => self.handle_command(cmd),
            None => {},
        }
    }
}

} // verus!
