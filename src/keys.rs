use vstd::prelude::*;

verus! {

/// What a key press asks of the browser.
#[derive(PartialEq, Eq, Structural, Clone, Copy, Debug)]
pub enum Command {
    Quit,
    Down,
    Up,
    Enter,
    Back,
    /// A key with no binding: the screen is drawn again and nothing changes.
    Ignore,
}

/// The command bound to a key: `q` quits, `j` and `k` move down and up, `l`
/// enters the selected directory and `h` goes to the parent directory.
pub open spec fn command_of(key: char) -> Command {
    if key == 'q' {
        Command::Quit
    } else if key == 'j' {
        Command::Down
    } else if key == 'k' {
        Command::Up
    } else if key == 'l' {
        Command::Enter
    } else if key == 'h' {
        Command::Back
    } else {
        Command::Ignore
    }
}

/// The command bound to a key.
pub fn command_for_key(key: char) -> (r: Command)
    ensures
        r == command_of(key),
{
    match key {
        'q' => Command::Quit,
        'j' => Command::Down,
        'k' => Command::Up,
        'l' => Command::Enter,
        'h' => Command::Back,
        _ => Command::Ignore,
    }
}

} // verus!
