//! The keystrokes that a modal editor expects for moving and resizing.
use vstd::prelude::*;
use crate::command::{Command, Direction};
use crate::text::str_eq;

verus! {

/// Which family of keystrokes a kind of command is sent with.
#[derive(Clone, Copy, Debug, PartialEq, Eq, Structural)]
pub enum Mod {
    Ctrl,
    Alt,
}

/// The control character for a direction.
pub open spec fn ctrl_keys(d: Direction) -> Seq<char> {
    match d {
        Direction::Left => seq!['\u{8}'],
        Direction::Right => seq!['\u{c}'],
        Direction::Up => seq!['\u{b}'],
        Direction::Down => seq!['\u{a}'],
    }
}

/// Escape followed by a printable character for a direction.
pub open spec fn alt_keys(d: Direction) -> Seq<char> {
    match d {
        Direction::Left => seq!['\u{1b}', '!'],
        Direction::Up => seq!['\u{1b}', '@'],
        Direction::Right => seq!['\u{1b}', '#'],
        Direction::Down => seq!['\u{1b}', '$'],
    }
}

pub open spec fn keys(m: Mod, d: Direction) -> Seq<char> {
    match m {
        Mod::Ctrl => ctrl_keys(d),
        Mod::Alt => alt_keys(d),
    }
}

/// The modifier that governs a command: the move modifier for focus moves,
/// the resize modifier for resizes.
pub open spec fn mod_for(move_mod: Mod, resize_mod: Mod, c: Command) -> Mod {
    match c {
        Command::Resize(_) => resize_mod,
        _ => move_mod,
    }
}

/// The keystrokes that carry out `c` in a modal editor.
pub open spec fn keybind(move_mod: Mod, resize_mod: Mod, c: Command) -> Seq<char> {
    keys(mod_for(move_mod, resize_mod, c), c.direction())
}

/// The modifier that an already lower-cased configuration value names.
pub open spec fn mod_of(t: Seq<char>) -> Option<Mod> {
    if t == "ctrl"@ {
        Some(Mod::Ctrl)
    } else if t == "alt"@ {
        Some(Mod::Alt)
    } else {
        None
    }
}

/// What `str::to_lowercase` returns.
pub uninterp spec fn lower_of(s: Seq<char>) -> Seq<char>;

/// Relies on `str::to_lowercase`: the result depends on the characters alone.
#[verifier::external_body]
fn lowercase(s: &str) -> (r: String)
    ensures
        r@ == lower_of(s@),
{
    s.to_lowercase()
}

pub fn ctrl_keybinding(direction: &Direction) -> (r: String)
    ensures
        r@ == ctrl_keys(*direction),
{
    let k = match direction {
        Direction::Left => "\u{8}",
        Direction::Right => "\u{c}",
        Direction::Up => "\u{b}",
        Direction::Down => "\u{a}",
    };
    proof {
        reveal_strlit("\u{8}");
        reveal_strlit("\u{c}");
        reveal_strlit("\u{b}");
        reveal_strlit("\u{a}");
    }
    let r = k.to_string();
    assert(r@ =~= ctrl_keys(*direction));
    r
}

pub fn alt_keybinding(direction: &Direction) -> (r: String)
    ensures
        r@ == alt_keys(*direction),
{
    let k = match direction {
        Direction::Left => "\u{1b}!",
        Direction::Up => "\u{1b}@",
        Direction::Right => "\u{1b}#",
        Direction::Down => "\u{1b}$",
    };
    proof {
        reveal_strlit("\u{1b}!");
        reveal_strlit("\u{1b}@");
        reveal_strlit("\u{1b}#");
        reveal_strlit("\u{1b}$");
    }
    let r = k.to_string();
    assert(r@ =~= alt_keys(*direction));
    r
}

/// The modifier that a lower-cased configuration value names.
pub fn mod_from_lowercase(s: &str) -> (r: Option<Mod>)
    ensures
        r == mod_of(s@),
{
    if str_eq(s, "ctrl") {
        Some(Mod::Ctrl)
    } else if str_eq(s, "alt") {
        Some(Mod::Alt)
    } else {
        None
    }
}

/// The modifier that a configuration value names, in any case.
pub fn string_to_mod(s: &str) -> (r: Option<Mod>)
    ensures
        r == mod_of(lower_of(s@)),
{
    let lower = lowercase(s);
    mod_from_lowercase(lower.as_str())
}

/// Under either modifier, the keystrokes for the four directions differ, a
/// control character each under `Ctrl`, escape and one character each under `Alt`.
pub proof fn lemma_keys_distinct()
    ensures
        forall|d: Direction| #[trigger] ctrl_keys(d).len() == 1,
        forall|d: Direction| #[trigger] alt_keys(d).len() == 2 && alt_keys(d)[0] == '\u{1b}',
        forall|a: Direction, b: Direction|
            a != b ==> #[trigger] ctrl_keys(a) != #[trigger] ctrl_keys(b),
        forall|a: Direction, b: Direction|
            a != b ==> #[trigger] alt_keys(a) != #[trigger] alt_keys(b),
{
    assert forall|a: Direction, b: Direction| a != b implies #[trigger] ctrl_keys(a)
        != #[trigger] ctrl_keys(b) by {
        assert(ctrl_keys(a)[0] != ctrl_keys(b)[0]);
    }
    assert forall|a: Direction, b: Direction| a != b implies #[trigger] alt_keys(a)
        != #[trigger] alt_keys(b) by {
        assert(alt_keys(a)[1] != alt_keys(b)[1]);
    }
}

} // verus!
