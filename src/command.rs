use vstd::prelude::*;

verus! {

/// A navigation intent delivered to the coordinator.
#[derive(Clone, Copy, Debug, PartialEq, Eq, Structural)]
pub enum Command {
    NextPage,
    PreviousPage,
    NextDocument,
    PreviousDocument,
    /// Reload the current document, asked for from the keyboard.
    Refresh,
    /// The file of the document at this list index changed on disk.
    FileChanged(usize),
    Quit,
    Open,
    /// A key with no binding.
    NoOp,
    LastPage,
    FirstPage,
}

/// A key press, as far as the key bindings distinguish keys.
#[derive(Clone, Copy, Debug, PartialEq, Eq, Structural)]
pub enum Keystroke {
    Char(char),
    Up,
    Down,
    Left,
    Right,
    /// Any other key.
    Other,
}

/// The fixed key bindings.
pub open spec fn command_for_key(k: Keystroke) -> Command {
    match k {
        Keystroke::Char('j') | Keystroke::Down => Command::NextPage,
        Keystroke::Char('k') | Keystroke::Up => Command::PreviousPage,
        Keystroke::Char('r') => Command::Refresh,
        Keystroke::Char('q') => Command::Quit,
        Keystroke::Char('o') => Command::Open,
        Keystroke::Char('l') | Keystroke::Right => Command::NextDocument,
        Keystroke::Char('h') | Keystroke::Left => Command::PreviousDocument,
        Keystroke::Char('G') => Command::LastPage,
        Keystroke::Char('g') => Command::FirstPage,
        _ => Command::NoOp,
    }
}

impl From<Keystroke> for Command {
    fn from(k: Keystroke) -> (c: Command)
        ensures
            c == command_for_key(k),
    {
        match k {
            Keystroke::Char('j') | Keystroke::Down => Command::NextPage,
            Keystroke::Char('k') | Keystroke::Up => Command::PreviousPage,
            Keystroke::Char('r') => Command::Refresh,
            Keystroke::Char('q') => Command::Quit,
            Keystroke::Char('o') => Command::Open,
            Keystroke::Char('l') | Keystroke::Right => Command::NextDocument,
            Keystroke::Char('h') | Keystroke::Left => Command::PreviousDocument,
            Keystroke::Char('G') => Command::LastPage,
            Keystroke::Char('g') => Command::FirstPage,
            _ => Command::NoOp,
        }
    }
}

impl vstd::std_specs::convert::FromSpecImpl<Keystroke> for Command {
    open spec fn obeys_from_spec() -> bool {
        true
    }

    open spec fn from_spec(k: Keystroke) -> Command {
        command_for_key(k)
    }
}

} // verus!
