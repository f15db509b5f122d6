//! Directional commands and the trigger messages that carry them.
use vstd::prelude::*;
use crate::text::str_eq;

verus! {

/// A direction of navigation or resizing.
#[derive(Clone, Copy, Debug, PartialEq, Eq, Structural)]
pub enum Direction {
    Left,
    Right,
    Up,
    Down,
}

/// A request to move or resize, waiting to learn who occupies the pane.
#[derive(Clone, Copy, Debug, PartialEq, Eq, Structural)]
pub enum Command {
    MoveFocus(Direction),
    MoveFocusOrTab(Direction),
    Resize(Direction),
}

impl Command {
    pub open spec fn direction(self) -> Direction {
        match self {
            Command::MoveFocus(d) => d,
            Command::MoveFocusOrTab(d) => d,
            Command::Resize(d) => d,
        }
    }
}

/// The direction that a token names; tokens are case-sensitive.
pub open spec fn direction_of(t: Seq<char>) -> Option<Direction> {
    if t == "left"@ {
        Some(Direction::Left)
    } else if t == "right"@ {
        Some(Direction::Right)
    } else if t == "up"@ {
        Some(Direction::Up)
    } else if t == "down"@ {
        Some(Direction::Down)
    } else {
        None
    }
}

/// The command that a trigger with this name and payload asks for.
pub open spec fn command_of(name: Seq<char>, payload: Option<Seq<char>>) -> Option<Command> {
    match payload {
        None => None,
        Some(p) => match direction_of(p) {
            None => None,
            Some(d) => if name == "move_focus"@ {
                Some(Command::MoveFocus(d))
            } else if name == "move_focus_or_tab"@ {
                Some(Command::MoveFocusOrTab(d))
            } else if name == "resize"@ {
                Some(Command::Resize(d))
            } else {
                None
            },
        },
    }
}

pub open spec fn opt_view(o: Option<&str>) -> Option<Seq<char>> {
    match o {
        Some(s) => Some(s@),
        None => None,
    }
}

pub fn string_to_direction(s: &str) -> (r: Option<Direction>)
    ensures
        r == direction_of(s@),
{
    if str_eq(s, "left") {
        Some(Direction::Left)
    } else if str_eq(s, "right") {
        Some(Direction::Right)
    } else if str_eq(s, "up") {
        Some(Direction::Up)
    } else if str_eq(s, "down") {
        Some(Direction::Down)
    } else {
        None
    }
}

/// Reads a trigger message: its name picks the command, its payload the direction.
pub fn parse_command(name: &str, payload: Option<&str>) -> (r: Option<Command>)
    ensures
        r == command_of(name@, opt_view(payload)),
{
    let p = match payload {
        Some(p) => p,
        None => return None,
    };
    let direction = match string_to_direction(p) {
        Some(d) => d,
        None => return None,
    };
    if str_eq(name, "move_focus") {
        Some(Command::MoveFocus(direction))
    } else if str_eq(name, "move_focus_or_tab") {
        Some(Command::MoveFocusOrTab(direction))
    } else if str_eq(name, "resize") {
        Some(Command::Resize(direction))
    } else {
        None
    }
}

} // verus!
