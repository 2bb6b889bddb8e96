//! The keystroke multiplexer: the commands of the control plane, the grammar of
//! a command line, and the state machine that tells the keys of a command line
//! from the keys that belong to the child.

use crate::text::{from_chars, lf_to_crlf, replace_lf, split_whitespace, str_eq, words};
use vstd::prelude::*;

verus! {

/// A control command typed by the user on a line that starts with `/`.
#[derive(Debug, Clone, PartialEq, Eq)]
pub enum Command {
    /// Switch to a different task
    SwitchTask(String),
    /// List all tasks
    ListTasks,
    /// Show current task
    CurrentTask,
    /// Create a new task
    CreateTask(String),
    /// Delete a task
    DeleteTask(String),
    /// Show help
    Help,
    /// Quit the application
    Quit,
}

/// What a [`Command`] stands for: the same variants over character sequences.
pub enum CommandView {
    SwitchTask(Seq<char>),
    ListTasks,
    CurrentTask,
    CreateTask(Seq<char>),
    DeleteTask(Seq<char>),
    Help,
    Quit,
}

impl View for Command {
    type V = CommandView;

    open spec fn view(&self) -> CommandView {
        match self {
            Command::SwitchTask(name) => CommandView::SwitchTask(name@),
            Command::ListTasks => CommandView::ListTasks,
            Command::CurrentTask => CommandView::CurrentTask,
            Command::CreateTask(name) => CommandView::CreateTask(name@),
            Command::DeleteTask(name) => CommandView::DeleteTask(name@),
            Command::Help => CommandView::Help,
            Command::Quit => CommandView::Quit,
        }
    }
}

/// The view of an optional command.
pub open spec fn command_view(c: Option<Command>) -> Option<CommandView> {
    match c {
        Some(c) => Some(c@),
        None => None,
    }
}

/// The command that the words of a line stand for, if any.
///
/// The first word decides: `/task`, `/quit` or `/help`; any other line stands for
/// nothing. After `/task`, no further word asks for the current task, `list` lists
/// the tasks, `init` and `delete` take the word that follows as a task name, and
/// any other word (also a lone `init` or `delete`) is the name of the task to
/// switch to. Words after those are ignored.
pub open spec fn command_of_words(parts: Seq<Seq<char>>) -> Option<CommandView> {
    if parts.len() == 0 {
        None
    } else if parts[0] == "/task"@ {
        if parts.len() == 1 {
            Some(CommandView::CurrentTask)
        } else if parts[1] == "init"@ && parts.len() > 2 {
            Some(CommandView::CreateTask(parts[2]))
        } else if parts[1] == "delete"@ && parts.len() > 2 {
            Some(CommandView::DeleteTask(parts[2]))
        } else if parts[1] == "list"@ {
            Some(CommandView::ListTasks)
        } else {
            Some(CommandView::SwitchTask(parts[1]))
        }
    } else if parts[0] == "/quit"@ {
        Some(CommandView::Quit)
    } else if parts[0] == "/help"@ {
        Some(CommandView::Help)
    } else {
        None
    }
}

/// The command that a typed line stands for, if any: the line is split at
/// whitespace, and its words are read by [`command_of_words`].
pub open spec fn parse_command(line: Seq<char>) -> Option<CommandView> {
    command_of_words(words(line))
}

/// A key of the keyboard, as far as the multiplexer tells keys apart.
#[derive(Debug, Clone, Copy, PartialEq, Eq)]
pub enum Key {
    /// A character key.
    Char(char),
    Enter,
    Backspace,
    Tab,
    /// Any other key.
    Other,
}

/// The modifier keys held down during a key press.
#[derive(Debug, Clone, Copy, PartialEq, Eq)]
pub struct Modifiers {
    pub shift: bool,
    pub control: bool,
    pub alt: bool,
    pub super_key: bool,
    pub hyper: bool,
    pub meta: bool,
}

impl Modifiers {
    /// No modifier key is held down.
    pub open spec fn is_none(self) -> bool {
        !self.shift && !self.control && !self.alt && !self.super_key && !self.hyper && !self.meta
    }

    /// No modifier key is held down but, at most, Shift: the key press types the
    /// character of its key.
    pub open spec fn is_typing(self) -> bool {
        !self.control && !self.alt && !self.super_key && !self.hyper && !self.meta
    }

    /// Control is held down, and no other modifier key.
    pub open spec fn is_control(self) -> bool {
        !self.shift && self.control && !self.alt && !self.super_key && !self.hyper && !self.meta
    }

    /// No modifier key.
    pub fn none() -> (m: Modifiers)
        ensures
            m.is_none(),
    {
        Modifiers {
            shift: false,
            control: false,
            alt: false,
            super_key: false,
            hyper: false,
            meta: false,
        }
    }

    /// The control key alone.
    pub fn control() -> (m: Modifiers)
        ensures
            m.is_control(),
    {
        Modifiers {
            shift: false,
            control: true,
            alt: false,
            super_key: false,
            hyper: false,
            meta: false,
        }
    }
}

/// One key press: the key and the modifiers held down with it.
#[derive(Debug, Clone, Copy, PartialEq, Eq)]
pub struct KeyPress {
    pub code: Key,
    pub modifiers: Modifiers,
}

impl KeyPress {
    /// Ctrl-C: the character `c` with the control key and no other modifier.
    pub open spec fn is_interrupt(self) -> bool {
        self.code == Key::Char('c') && self.modifiers.is_control()
    }

    /// The press of the character key `c` with no modifier.
    pub open spec fn plain(c: char) -> KeyPress {
        KeyPress {
            code: Key::Char(c),
            modifiers: Modifiers {
                shift: false,
                control: false,
                alt: false,
                super_key: false,
                hyper: false,
                meta: false,
            },
        }
    }

    /// The press of Enter with no modifier.
    pub open spec fn enter() -> KeyPress {
        KeyPress {
            code: Key::Enter,
            modifiers: Modifiers {
                shift: false,
                control: false,
                alt: false,
                super_key: false,
                hyper: false,
                meta: false,
            },
        }
    }
}

/// What the keystroke loop does in answer to one key press.
#[derive(Debug, Clone, PartialEq, Eq)]
pub enum KeyAction {
    /// Nothing.
    Ignore,
    /// Write the text to the user's terminal.
    Echo(String),
    /// Hand the text to the child's input queue.
    Forward(String),
    /// A command line has ended: move the terminal to a new line, and broadcast
    /// the command if the line stands for one.
    Submit(Option<Command>),
    /// Broadcast [`Command::Quit`] and end the keystroke loop.
    Quit,
}

/// What a [`KeyAction`] stands for.
pub enum KeyActionView {
    Ignore,
    Echo(Seq<char>),
    Forward(Seq<char>),
    Submit(Option<CommandView>),
    Quit,
}

impl View for KeyAction {
    type V = KeyActionView;

    open spec fn view(&self) -> KeyActionView {
        match self {
            KeyAction::Ignore => KeyActionView::Ignore,
            KeyAction::Echo(text) => KeyActionView::Echo(text@),
            KeyAction::Forward(text) => KeyActionView::Forward(text@),
            KeyAction::Submit(command) => KeyActionView::Submit(command_view(*command)),
            KeyAction::Quit => KeyActionView::Quit,
        }
    }
}

/// The state of the keystroke loop.
pub struct IoState {
    /// The command line typed so far.
    pub buffer: Seq<char>,
    /// Whether keys are gathered into a command line and echoed, rather than
    /// handed to the child.
    pub command_mode: bool,
    /// Whether the loop still runs.
    pub running: bool,
}

impl IoState {
    /// The state in which the loop starts: no command line, keys go to the child.
    pub open spec fn initial() -> IoState {
        IoState { buffer: Seq::empty(), command_mode: false, running: true }
    }

    /// The buffer is non-empty exactly in command mode.
    pub open spec fn wf(self) -> bool {
        self.command_mode <==> self.buffer.len() > 0
    }

    /// The state after one key press, and what the loop does in answer.
    ///
    /// Ctrl-C ends the loop. Enter ends a command line, or goes to the child as a
    /// carriage return. A character typed with no modifier, or with Shift alone,
    /// starts a command line if it is `/` outside one, is added to the command
    /// line inside one, and goes to the child otherwise. Backspace takes the last character off the command
    /// line, leaving command mode when none is left, or goes to the child. Tab
    /// goes to the child outside command mode. Every other key press is ignored,
    /// and so is every key press once the loop has ended.
    pub open spec fn step(self, key: KeyPress) -> (IoState, KeyActionView) {
        if !self.running {
            (self, KeyActionView::Ignore)
        } else if key.is_interrupt() {
            (IoState { running: false, ..self }, KeyActionView::Quit)
        } else {
            match key.code {
                Key::Enter => if self.command_mode {
                    (
                        IoState { buffer: Seq::empty(), command_mode: false, ..self },
                        KeyActionView::Submit(parse_command(self.buffer)),
                    )
                } else {
                    (self, KeyActionView::Forward("\r"@))
                },
                Key::Char(c) => if !key.modifiers.is_typing() {
                    (self, KeyActionView::Ignore)
                } else if self.command_mode || (c == '/' && self.buffer.len() == 0) {
                    (
                        IoState { buffer: self.buffer.push(c), command_mode: true, ..self },
                        KeyActionView::Echo(seq![c]),
                    )
                } else {
                    (self, KeyActionView::Forward(seq![c]))
                },
                Key::Backspace => if self.command_mode {
                    if self.buffer.len() > 0 {
                        (
                            IoState {
                                buffer: self.buffer.drop_last(),
                                command_mode: self.buffer.len() > 1,
                                ..self
                            },
                            KeyActionView::Echo("\x08 \x08"@),
                        )
                    } else {
                        (IoState { command_mode: false, ..self }, KeyActionView::Ignore)
                    }
                } else {
                    (self, KeyActionView::Forward("\x08"@))
                },
                Key::Tab => if self.command_mode {
                    (self, KeyActionView::Ignore)
                } else {
                    (self, KeyActionView::Forward("\t"@))
                },
                Key::Other => (self, KeyActionView::Ignore),
            }
        }
    }

    /// The state after the characters of `chars` were typed one by one, each
    /// without modifiers.
    pub open spec fn typed(self, chars: Seq<char>) -> IoState
        decreases chars.len(),
    {
        if chars.len() == 0 {
            self
        } else {
            self.typed(chars.drop_last()).step(KeyPress::plain(chars.last())).0
        }
    }
}

/// The keystroke multiplexer: it tells the keys of a command line, which it
/// gathers and echoes, from the keys that belong to the child.
pub struct IoHandler {
    command_buffer: Vec<char>,
    in_command_mode: bool,
    running: bool,
}

impl View for IoHandler {
    type V = IoState;

    closed spec fn view(&self) -> IoState {
        IoState {
            buffer: self.command_buffer@,
            command_mode: self.in_command_mode,
            running: self.running,
        }
    }
}

impl IoHandler {
    /// Create a new IoHandler
    pub fn new() -> (handler: IoHandler)
        ensures
            handler@ == IoState::initial(),
    {
        IoHandler { command_buffer: Vec::new(), in_command_mode: false, running: true }
    }

    /// Whether the keystroke loop still runs.
    pub fn is_running(&self) -> (running: bool)
        ensures
            running == self@.running,
    {
        self.running
    }

    /// Whether keys are gathered into a command line.
    pub fn in_command_mode(&self) -> (mode: bool)
        ensures
            mode == self@.command_mode,
    {
        self.in_command_mode
    }

    /// The command line typed so far.
    pub fn command_buffer(&self) -> (buffer: String)
        ensures
            buffer@ == self@.buffer,
    {
        from_chars(&self.command_buffer)
    }

    /// Takes one key press: moves to the next state and says what to do.
    pub fn handle_key(&mut self, key: KeyPress) -> (action: KeyAction)
        ensures
            (final(self)@, action@) == old(self)@.step(key),
            old(self)@.wf() ==> final(self)@.wf(),
    {
        if !self.running {
            return KeyAction::Ignore;
        }
        let m = key.modifiers;
        let typing = !m.control && !m.alt && !m.super_key && !m.hyper && !m.meta;
        let control_only = !m.shift && m.control && !m.alt && !m.super_key && !m.hyper && !m.meta;
        match key.code {
            Key::Char(c) => {
                if c == 'c' && control_only {
                    self.running = false;
                    KeyAction::Quit
                } else if !typing {
                    KeyAction::Ignore
                } else if self.in_command_mode || (c == '/' && self.command_buffer.len() == 0) {
                    self.in_command_mode = true;
                    self.command_buffer.push(c);
                    KeyAction::Echo(char_string(c))
                } else {
                    KeyAction::Forward(char_string(c))
                }
            },
            Key::Enter => {
                if self.in_command_mode {
                    let line = from_chars(&self.command_buffer);
                    let command = Self::process_command_buffer(line.as_str());
                    self.command_buffer.clear();
                    self.in_command_mode = false;
                    KeyAction::Submit(command)
                } else {
                    KeyAction::Forward("\r".to_owned())
                }
            },
            Key::Backspace => {
                if self.in_command_mode {
                    let erased = self.command_buffer.pop();
                    if self.command_buffer.len() == 0 {
                        self.in_command_mode = false;
                    }
                    match erased {
                        Some(_) => KeyAction::Echo("\x08 \x08".to_owned()),
                        None => KeyAction::Ignore,
                    }
                } else {
                    KeyAction::Forward("\x08".to_owned())
                }
            },
            Key::Tab => {
                if self.in_command_mode {
                    KeyAction::Ignore
                } else {
                    KeyAction::Forward("\t".to_owned())
                }
            },
            Key::Other => KeyAction::Ignore,
        }
    }

    /// Rewrites a chunk of the child's output for a terminal in raw mode: every
    /// line feed becomes a carriage return and a line feed.
    pub fn format_output(output: &str) -> (formatted: String)
        ensures
            formatted@ == lf_to_crlf(output@),
    {
        replace_lf(output)
    }

    /// Reads a command line.
    pub fn process_command_buffer(buffer: &str) -> (command: Option<Command>)
        ensures
            command_view(command) == parse_command(buffer@),
    {
        parse_line(buffer)
    }
}

/// Every key press keeps the buffer non-empty exactly in command mode.
pub proof fn law_step_keeps_wf(s: IoState, key: KeyPress)
    requires
        s.wf(),
    ensures
        s.step(key).0.wf(),
{
}

/// Shift alone changes nothing: a character typed with it is taken as the same
/// character typed without.
pub proof fn law_shift_types(s: IoState, c: char, modifiers: Modifiers)
    requires
        modifiers.shift,
        modifiers.is_typing(),
    ensures
        s.step(KeyPress { code: Key::Char(c), modifiers }) == s.step(KeyPress::plain(c)),
{
}

/// A command line typed key by key is read as the line itself is read.
///
/// From the initial state, typing the characters of a line that starts with `/`
/// echoes each of them, hands nothing to the child and gathers the whole line.
/// Enter then submits the command that the line stands for and brings the loop
/// back to its initial state.
pub proof fn law_typed_line(line: Seq<char>)
    requires
        line.len() > 0,
        line[0] == '/',
    ensures
        IoState::initial().typed(line) == (IoState {
            buffer: line,
            command_mode: true,
            running: true,
        }),
        forall|i: int|
            0 <= i < line.len() ==> (#[trigger] IoState::initial().typed(line.take(i))).step(
                KeyPress::plain(line[i]),
            ).1 == KeyActionView::Echo(seq![line[i]]),
        IoState::initial().typed(line).step(KeyPress::enter()) == (
            IoState::initial(),
            KeyActionView::Submit(parse_command(line)),
        ),
    decreases line.len(),
{
    let init = IoState::initial();
    let head = line.drop_last();
    if head.len() == 0 {
        assert(init.typed(head) == init);
        assert(init.buffer.push(line.last()) =~= line);
        assert forall|i: int| 0 <= i < line.len() implies (#[trigger] init.typed(line.take(i))).step(
            KeyPress::plain(line[i]),
        ).1 == KeyActionView::Echo(seq![line[i]]) by {
            assert(line.take(0) =~= head);
        }
    } else {
        law_typed_line(head);
        assert(head.push(line.last()) =~= line);
        assert forall|i: int| 0 <= i < line.len() implies (#[trigger] init.typed(line.take(i))).step(
            KeyPress::plain(line[i]),
        ).1 == KeyActionView::Echo(seq![line[i]]) by {
            if i < head.len() {
                assert(line.take(i) =~= head.take(i));
                assert(line[i] == head[i]);
            } else {
                assert(line.take(i) =~= head);
            }
        }
    }
}

/// The string that holds the one character `c`.
pub fn char_string(c: char) -> (out: String)
    ensures
        out@ == seq![c],
{
    let mut out = String::new();
    out.push(c);
    assert(out@ =~= seq![c]);
    out
}

fn parse_line(buffer: &str) -> (command: Option<Command>)
    ensures
        command_view(command) == parse_command(buffer@),
{
    let parts = split_whitespace(buffer);
    let n = parts.len();
    if n == 0 {
        return None;
    }
    assert(forall|i: int| 0 <= i < n ==> parts@[i]@ == #[trigger] words(buffer@)[i]);
    if str_eq(parts[0].as_str(), "/task") {
        if n == 1 {
            Some(Command::CurrentTask)
        } else if n > 2 && str_eq(parts[1].as_str(), "init") {
            Some(Command::CreateTask(parts[2].clone()))
        } else if n > 2 && str_eq(parts[1].as_str(), "delete") {
            Some(Command::DeleteTask(parts[2].clone()))
        } else if str_eq(parts[1].as_str(), "list") {
            Some(Command::ListTasks)
        } else {
            Some(Command::SwitchTask(parts[1].clone()))
        }
    } else if str_eq(parts[0].as_str(), "/quit") {
        Some(Command::Quit)
    } else if str_eq(parts[0].as_str(), "/help") {
        Some(Command::Help)
    } else {
        None
    }
}

} // verus!
