//! The router: queues commands until a probe says who occupies the focused
//! pane, then turns the oldest one into a native action or editor keystrokes.
use vstd::prelude::*;
use vstd::utf8::{valid_utf8, decode_utf8};
use std::collections::VecDeque;
use crate::classify::{classify, term_command_from_client_list};
use crate::command::{Command, Direction, command_of, opt_view, parse_command};
use crate::keys::{Mod, keybind, mod_of, lower_of, string_to_mod, ctrl_keybinding, alt_keybinding};
use crate::text::str_eq;

verus! {

/// What the host is asked to do for a dispatched command.
#[derive(Clone, Debug, PartialEq, Eq)]
pub enum Action {
    MoveFocus(Direction),
    MoveFocusOrTab(Direction),
    /// Grow the focused pane towards the direction.
    ResizeIncrease(Direction),
    /// Type these characters into the focused pane.
    WriteChars(String),
}

/// Which configuration value names no modifier.
#[derive(Clone, Copy, Debug, PartialEq, Eq, Structural)]
pub enum ConfigError {
    IllegalMoveMod,
    IllegalResizeMod,
}

/// The router's state: the last occupant learned, the pending commands in
/// arrival order, and the two configured modifiers.
pub struct State {
    current_term_command: Option<String>,
    command_queue: VecDeque<Command>,
    move_mod: Mod,
    resize_mod: Mod,
}

pub struct RouterView {
    pub occupant: Option<Seq<char>>,
    pub queue: Seq<Command>,
    pub move_mod: Mod,
    pub resize_mod: Mod,
}

impl View for State {
    type V = RouterView;

    closed spec fn view(&self) -> RouterView {
        RouterView {
            occupant: match self.current_term_command {
                Some(s) => Some(s@),
                None => None,
            },
            queue: self.command_queue@,
            move_mod: self.move_mod,
            resize_mod: self.resize_mod,
        }
    }
}

/// Whether the occupant is a modal editor that takes directional keys itself.
pub open spec fn is_editor(occupant: Option<Seq<char>>) -> bool {
    occupant == Some("nvim"@) || occupant == Some("vim"@)
}

/// What a probe's raw output says of the occupant; output that is not
/// UTF-8 names none.
pub open spec fn probe_occupant(out: Seq<u8>) -> Option<Seq<char>> {
    if valid_utf8(out) {
        classify(decode_utf8(out))
    } else {
        None
    }
}

/// The state after a trigger that asks for `c`.
pub open spec fn enqueued(v: RouterView, c: Command) -> RouterView {
    RouterView { queue: v.queue.push(c), ..v }
}

/// The state after a probe completes with output `out`.
pub open spec fn completed(v: RouterView, out: Seq<u8>) -> RouterView {
    RouterView {
        occupant: probe_occupant(out),
        queue: if v.queue.len() > 0 {
            v.queue.drop_first()
        } else {
            v.queue
        },
        ..v
    }
}

/// The command that a probe completion in state `v` dispatches.
pub open spec fn dispatched(v: RouterView) -> Option<Command> {
    if v.queue.len() > 0 {
        Some(v.queue[0])
    } else {
        None
    }
}

/// Whether `a` carries out `c`: keystrokes for an editor, else the native action.
pub open spec fn performs(a: Action, editor: bool, move_mod: Mod, resize_mod: Mod, c: Command) -> bool {
    match a {
        Action::WriteChars(s) => editor && s@ == keybind(move_mod, resize_mod, c),
        Action::MoveFocus(d) => !editor && c == Command::MoveFocus(d),
        Action::MoveFocusOrTab(d) => !editor && c == Command::MoveFocusOrTab(d),
        Action::ResizeIncrease(d) => !editor && c == Command::Resize(d),
    }
}

/// The modifiers that a configuration gives, unset values taking their defaults.
pub open spec fn configured(move_mod: Option<Seq<char>>, resize_mod: Option<Seq<char>>) -> Result<(Mod, Mod), ConfigError> {
    let m = match move_mod {
        None => Some(Mod::Ctrl),
        Some(t) => mod_of(lower_of(t)),
    };
    let r = match resize_mod {
        None => Some(Mod::Alt),
        Some(t) => mod_of(lower_of(t)),
    };
    if m is None {
        Err(ConfigError::IllegalMoveMod)
    } else if r is None {
        Err(ConfigError::IllegalResizeMod)
    } else {
        Ok((m->0, r->0))
    }
}

/// Relies on `String::from_utf8`: it fails exactly on bytes that are not
/// UTF-8, and otherwise holds the characters they encode.
#[verifier::external_body]
fn decode_text(b: Vec<u8>) -> (r: Option<String>)
    ensures
        r is Some <==> valid_utf8(b@),
        r matches Some(s) ==> s@ == decode_utf8(b@),
{
    String::from_utf8(b).ok()
}

fn parse_mod(value: Option<&str>, default: Mod) -> (r: Option<Mod>)
    ensures
        r == match opt_view(value) {
            None => Some(default),
            Some(t) => mod_of(lower_of(t)),
        },
{
    match value {
        None => Some(default),
        Some(s) => string_to_mod(s),
    }
}

impl Default for State {
    fn default() -> (r: State)
        ensures
            r@ == (RouterView {
                occupant: None,
                queue: Seq::empty(),
                move_mod: Mod::Ctrl,
                resize_mod: Mod::Alt,
            }),
    {
        State {
            current_term_command: None,
            command_queue: VecDeque::new(),
            move_mod: Mod::Ctrl,
            resize_mod: Mod::Alt,
        }
    }
}

impl State {
    /// Sets both modifiers from the configuration values `move_mod` and
    /// `resize_mod`; on an illegal value nothing changes.
    pub fn parse_configuration(&mut self, move_mod: Option<&str>, resize_mod: Option<&str>) -> (r: Result<(), ConfigError>)
        ensures
            r is Ok <==> configured(opt_view(move_mod), opt_view(resize_mod)) is Ok,
            r matches Err(e) ==> configured(opt_view(move_mod), opt_view(resize_mod)) == Err::<(Mod, Mod), ConfigError>(e) && final(self)@ == old(self)@,
            configured(opt_view(move_mod), opt_view(resize_mod)) matches Ok((m, z)) ==>
                final(self)@ == (RouterView { move_mod: m, resize_mod: z, ..old(self)@ }),
    {
        let m = parse_mod(move_mod, Mod::Ctrl);
        let z = parse_mod(resize_mod, Mod::Alt);
        match (m, z) {
            (None, _) => Err(ConfigError::IllegalMoveMod),
            (_, None) => Err(ConfigError::IllegalResizeMod),
            (Some(m), Some(z)) => {
                self.move_mod = m;
                self.resize_mod = z;
                Ok(())
            },
        }
    }

    /// Queues a command; the caller then issues one probe for it.
    pub fn handle_command(&mut self, command: Command)
        ensures
            final(self)@ == enqueued(old(self)@, command),
    {
        self.command_queue.push_back(command);
    }

    /// Takes a trigger message. Returns whether a probe must be issued: exactly
    /// when the message names a command, which is then queued.
    pub fn pipe(&mut self, name: &str, payload: Option<&str>) -> (probe: bool)
        ensures
            probe == command_of(name@, opt_view(payload)) is Some,
            command_of(name@, opt_view(payload)) matches Some(c) ==> final(self)@ == enqueued(old(self)@, c),
            command_of(name@, opt_view(payload)) is None ==> final(self)@ == old(self)@,
    {
        match parse_command(name, payload) {
            Some(command) => {
                self.handle_command(command);
                true
            },
            None => false,
        }
    }

    /// Takes a probe's output: records the occupant it names, then
    /// dispatches the oldest pending command, if any.
    pub fn update(&mut self, stdout: Vec<u8>) -> (r: Option<Action>)
        ensures
            final(self)@ == completed(old(self)@, stdout@),
            r is Some <==> dispatched(old(self)@) is Some,
            r matches Some(a) ==> performs(a, is_editor(final(self)@.occupant), old(self)@.move_mod,
                old(self)@.resize_mod, dispatched(old(self)@)->0),
    {
        self.current_term_command = match decode_text(stdout) {
            Some(text) => term_command_from_client_list(text.as_str()),
            None => None,
        };
        match self.command_queue.pop_front() {
            Some(command) => Some(self.execute_command(command)),
            None => None,
        }
    }

    /// The action that carries out `command` for the current occupant.
    pub fn execute_command(&self, command: Command) -> (a: Action)
        ensures
            performs(a, is_editor(self@.occupant), self@.move_mod, self@.resize_mod, command),
    {
        if self.current_pane_is_vim() {
            return Action::WriteChars(self.command_to_keybind(&command));
        }
        match command {
            Command::MoveFocus(d) => Action::MoveFocus(d),
            Command::MoveFocusOrTab(d) => Action::MoveFocusOrTab(d),
            Command::Resize(d) => Action::ResizeIncrease(d),
        }
    }

    /// Whether the focused pane runs `vim` or `nvim`.
    pub fn current_pane_is_vim(&self) -> (r: bool)
        ensures
            r == is_editor(self@.occupant),
    {
        match &self.current_term_command {
            Some(c) => str_eq(c.as_str(), "nvim") || str_eq(c.as_str(), "vim"),
            None => false,
        }
    }

    /// The occupant learned from the last probe, if it named one.
    pub fn current_term_command(&self) -> (r: Option<&str>)
        ensures
            opt_view(r) == self@.occupant,
    {
        match &self.current_term_command {
            Some(c) => Some(c.as_str()),
            None => None,
        }
    }

    /// How many commands wait for a probe.
    pub fn pending_len(&self) -> (n: usize)
        ensures
            n == self@.queue.len(),
    {
        self.command_queue.len()
    }

    pub fn move_mod(&self) -> (m: Mod)
        ensures
            m == self@.move_mod,
    {
        self.move_mod
    }

    pub fn resize_mod(&self) -> (m: Mod)
        ensures
            m == self@.resize_mod,
    {
        self.resize_mod
    }

    /// The editor keystrokes for `command` under the configured modifiers.
    pub fn command_to_keybind(&self, command: &Command) -> (r: String)
        ensures
            r@ == keybind(self@.move_mod, self@.resize_mod, *command),
    {
        let mod_key = match command {
            Command::Resize(_) => self.resize_mod,
            _ => self.move_mod,
        };
        let direction = match command {
            Command::MoveFocus(d) => d,
            Command::MoveFocusOrTab(d) => d,
            Command::Resize(d) => d,
        };
        match mod_key {
            Mod::Ctrl => ctrl_keybinding(direction),
            Mod::Alt => alt_keybinding(direction),
        }
    }
}

/// The state after triggers for each of `cmds`, in order.
pub open spec fn enqueued_all(v: RouterView, cmds: Seq<Command>) -> RouterView
    decreases cmds.len(),
{
    if cmds.len() == 0 {
        v
    } else {
        enqueued_all(enqueued(v, cmds[0]), cmds.drop_first())
    }
}

/// The commands dispatched by probe completions with outputs `outs`, in order.
pub open spec fn dispatches(v: RouterView, outs: Seq<Seq<u8>>) -> Seq<Option<Command>>
    decreases outs.len(),
{
    if outs.len() == 0 {
        Seq::empty()
    } else {
        seq![dispatched(v)] + dispatches(completed(v, outs[0]), outs.drop_first())
    }
}

proof fn lemma_enqueued_all(v: RouterView, cmds: Seq<Command>)
    ensures
        enqueued_all(v, cmds).queue == v.queue + cmds,
        enqueued_all(v, cmds).move_mod == v.move_mod,
        enqueued_all(v, cmds).resize_mod == v.resize_mod,
    decreases cmds.len(),
{
    if cmds.len() > 0 {
        lemma_enqueued_all(enqueued(v, cmds[0]), cmds.drop_first());
        assert(v.queue.push(cmds[0]) + cmds.drop_first() =~= v.queue + cmds);
    }
}

proof fn lemma_dispatches(v: RouterView, outs: Seq<Seq<u8>>)
    requires
        outs.len() <= v.queue.len(),
    ensures
        dispatches(v, outs).len() == outs.len(),
        forall|i: int| 0 <= i < outs.len() ==> #[trigger] dispatches(v, outs)[i] == Some(v.queue[i]),
    decreases outs.len(),
{
    if outs.len() > 0 {
        let w = completed(v, outs[0]);
        lemma_dispatches(w, outs.drop_first());
        assert forall|i: int| 0 <= i < outs.len() implies #[trigger] dispatches(v, outs)[i] == Some(v.queue[i]) by {
            if i > 0 {
                assert(dispatches(v, outs)[i] == dispatches(w, outs.drop_first())[i - 1]);
            }
        }
    }
}

/// Commands leave in the order they came: after triggers for `cmds` on an
/// empty queue, the i-th of as many probe completions dispatches the i-th command.
pub proof fn lemma_fifo(v: RouterView, cmds: Seq<Command>, outs: Seq<Seq<u8>>)
    requires
        v.queue.len() == 0,
        outs.len() == cmds.len(),
    ensures
        dispatches(enqueued_all(v, cmds), outs).len() == cmds.len(),
        forall|i: int| 0 <= i < cmds.len() ==> #[trigger] dispatches(enqueued_all(v, cmds), outs)[i] == Some(cmds[i]),
{
    lemma_enqueued_all(v, cmds);
    assert(v.queue + cmds =~= cmds);
    lemma_dispatches(enqueued_all(v, cmds), outs);
}

/// A probe completion on an empty queue dispatches nothing and changes only the occupant.
pub proof fn lemma_idle_completion(v: RouterView, out: Seq<u8>)
    requires
        v.queue.len() == 0,
    ensures
        dispatched(v) is None,
        completed(v, out) == (RouterView { occupant: probe_occupant(out), ..v }),
{
}

} // verus!
