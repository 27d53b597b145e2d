//! From keys to commands.
//!
//! A key is a key code with its modifiers, however it was read. Digits pile up
//! in a numeric prefix; every other key clears the prefix, and `g`, `G` and `%`
//! use it on the way. The whole map is the spec function [`command_for`].

use crate::error::MorelError;
use crate::text::{is_digit, parse_decimal, parse_number};
use vstd::prelude::*;

verus! {

/// What the pager can be told to do.
#[derive(Debug, Clone, Copy, PartialEq, Eq, Structural)]
pub enum Command {
    ScrollDownPage,
    ScrollDownLine,
    ScrollUpPage,
    ScrollUpLine,
    /// Jump to the line with this number, counted from one.
    JumpToLine(usize),
    /// Jump this many per cent into the file.
    JumpToPercentage(u8),
    JumpToStart,
    JumpToEnd,
    Quit,
    Refresh,
    Help,
    /// Nothing to do.
    Nothing,
}

/// The keys that the pager tells apart.
#[derive(Debug, Clone, Copy, PartialEq, Eq, Structural)]
pub enum KeyCode {
    /// A key that stands for a character.
    Char(char),
    Enter,
    Esc,
    Up,
    Down,
    /// Any other key.
    Other,
}

/// The modifier keys held down with a key.
#[derive(Debug, Clone, Copy, PartialEq, Eq, Structural)]
pub struct KeyModifiers {
    pub shift: bool,
    pub control: bool,
    pub alt: bool,
}

/// One key press.
#[derive(Debug, Clone, Copy, PartialEq, Eq, Structural)]
pub struct KeyEvent {
    pub code: KeyCode,
    pub modifiers: KeyModifiers,
}

/// What one bounded wait for input brought.
#[derive(Debug, Clone, PartialEq, Eq)]
pub enum InputEvent {
    /// The wait ran out with no input.
    Timeout,
    /// A key was pressed.
    Key(KeyEvent),
    /// The terminal changed its size to this many columns and rows.
    Resize(u16, u16),
    /// Input of another kind.
    Other,
    /// Waiting or reading failed, for the reason given.
    Failed(String),
}

/// Whether `key` is the interrupt key: `c` with the control key held.
pub open spec fn is_interrupt(key: KeyEvent) -> bool {
    key.modifiers.control && key.code == KeyCode::Char('c')
}

/// Whether `key` adds a digit to the numeric prefix.
pub open spec fn is_digit_key(key: KeyEvent) -> bool {
    !is_interrupt(key) && key.code is Char && is_digit(key.code->Char_0)
}

/// Whether `key` is one of the keys that read the numeric prefix: `g`, `G` and
/// `%`.
pub open spec fn reads_prefix(key: KeyEvent) -> bool {
    !is_interrupt(key) && (key.code == KeyCode::Char('g') || key.code == KeyCode::Char('G')
        || key.code == KeyCode::Char('%'))
}

/// The command for a jump key pressed after `prefix`: with no prefix the jump
/// that the key stands for, with a prefix that is a line number the jump to
/// that line, and with any other prefix nothing.
pub open spec fn jump_command(prefix: Seq<char>, bare: Command) -> Command {
    if prefix.len() == 0 {
        bare
    } else {
        match parse_number(prefix, usize::MAX as nat) {
            Some(line) => Command::JumpToLine(line as usize),
            None => Command::Nothing,
        }
    }
}

/// The command for the percentage key pressed after `prefix`: a jump if the
/// prefix is a number that fits in a byte, else nothing.
pub open spec fn percentage_command(prefix: Seq<char>) -> Command {
    match parse_number(prefix, u8::MAX as nat) {
        Some(percent) => Command::JumpToPercentage(percent as u8),
        None => Command::Nothing,
    }
}

/// The command that `key` gives when it is pressed after the numeric prefix
/// `prefix`.
pub open spec fn command_for(prefix: Seq<char>, key: KeyEvent) -> Command {
    if is_interrupt(key) {
        Command::Quit
    } else {
        match key.code {
            KeyCode::Char(c) => {
                if c == 'q' {
                    Command::Quit
                } else if c == ' ' {
                    Command::ScrollDownPage
                } else if c == 'j' {
                    Command::ScrollDownLine
                } else if c == 'b' || c == 'k' {
                    Command::ScrollUpPage
                } else if c == 'g' {
                    jump_command(prefix, Command::JumpToStart)
                } else if c == 'G' {
                    jump_command(prefix, Command::JumpToEnd)
                } else if c == '%' {
                    percentage_command(prefix)
                } else if c == 'h' || c == '?' {
                    Command::Help
                } else if c == 'r' {
                    Command::Refresh
                } else {
                    Command::Nothing
                }
            },
            KeyCode::Enter => Command::ScrollDownLine,
            KeyCode::Down => Command::ScrollDownLine,
            KeyCode::Up => Command::ScrollUpPage,
            KeyCode::Esc => Command::Quit,
            KeyCode::Other => Command::Nothing,
        }
    }
}

/// The numeric prefix after `key` was pressed: a digit is added to it, any
/// other key leaves it empty.
pub open spec fn prefix_after(prefix: Seq<char>, key: KeyEvent) -> Seq<char> {
    if is_digit_key(key) {
        prefix.push(key.code->Char_0)
    } else {
        Seq::empty()
    }
}

/// What one bounded wait for input amounts to after the numeric prefix
/// `prefix`: the command of the key if a key was pressed, a terminal error with
/// the reason if the wait failed, and no command otherwise.
pub open spec fn command_of_event(prefix: Seq<char>, event: InputEvent) -> Result<
    Command,
    MorelError,
> {
    match event {
        InputEvent::Key(key) => Ok(command_for(prefix, key)),
        InputEvent::Failed(reason) => Err(MorelError::Terminal(reason)),
        _ => Ok(Command::Nothing),
    }
}

/// The numeric prefix after one bounded wait for input: only a key touches it.
pub open spec fn prefix_after_event(prefix: Seq<char>, event: InputEvent) -> Seq<char> {
    match event {
        InputEvent::Key(key) => prefix_after(prefix, key),
        _ => prefix,
    }
}

/// Turns keys into commands, and keeps the numeric prefix between keys.
pub struct InputHandler {
    number_buffer: Vec<char>,
}

impl View for InputHandler {
    type V = Seq<char>;

    /// The numeric prefix typed so far.
    closed spec fn view(&self) -> Seq<char> {
        self.number_buffer@
    }
}

impl InputHandler {
    /// A handler with no prefix typed.
    pub fn new() -> (handler: Self)
        ensures
            handler@ == Seq::<char>::empty(),
    {
        Self { number_buffer: Vec::new() }
    }

    /// The command for what one bounded wait for input brought: that of the key
    /// if a key was pressed, an error if the wait failed, and nothing otherwise.
    /// Only a key touches the numeric prefix.
    pub fn read_command(&mut self, event: InputEvent) -> (result: Result<Command, MorelError>)
        ensures
            result == command_of_event(old(self)@, event),
            final(self)@ == prefix_after_event(old(self)@, event),
            event is Failed <==> result is Err,
    {
        match event {
            InputEvent::Key(key) => Ok(self.handle_key(key)),
            InputEvent::Failed(reason) => Err(MorelError::Terminal(reason)),
            InputEvent::Timeout => Ok(Command::Nothing),
            InputEvent::Resize(_, _) => Ok(Command::Nothing),
            InputEvent::Other => Ok(Command::Nothing),
        }
    }

    /// The command for one key. A digit goes into the numeric prefix and gives
    /// no command. Every other key leaves the prefix empty; `g`, `G` and `%`
    /// read it first.
    pub fn handle_key(&mut self, key: KeyEvent) -> (command: Command)
        ensures
            command == command_for(old(self)@, key),
            final(self)@ == prefix_after(old(self)@, key),
            !is_digit_key(key) ==> final(self)@.len() == 0,
            is_digit_key(key) ==> command == Command::Nothing,
    {
        if key.modifiers.control {
            if let KeyCode::Char(c) = key.code {
                if c == 'c' {
                    self.number_buffer.clear();
                    return Command::Quit;
                }
            }
        }
        let command = match key.code {
            KeyCode::Char(c) => {
                if c >= '0' && c <= '9' {
                    self.number_buffer.push(c);
                    return Command::Nothing;
                }
                if c == 'q' {
                    Command::Quit
                } else if c == ' ' {
                    Command::ScrollDownPage
                } else if c == 'j' {
                    Command::ScrollDownLine
                } else if c == 'b' || c == 'k' {
                    Command::ScrollUpPage
                } else if c == 'g' {
                    self.jump_or(Command::JumpToStart)
                } else if c == 'G' {
                    self.jump_or(Command::JumpToEnd)
                } else if c == '%' {
                    match parse_decimal(&self.number_buffer, 255) {
                        Some(percent) => Command::JumpToPercentage(percent as u8),
                        None => Command::Nothing,
                    }
                } else if c == 'h' || c == '?' {
                    Command::Help
                } else if c == 'r' {
                    Command::Refresh
                } else {
                    Command::Nothing
                }
            },
            KeyCode::Enter => Command::ScrollDownLine,
            KeyCode::Down => Command::ScrollDownLine,
            KeyCode::Up => Command::ScrollUpPage,
            KeyCode::Esc => Command::Quit,
            KeyCode::Other => Command::Nothing,
        };
        self.number_buffer.clear();
        command
    }

    /// The command for a jump key: `bare` without a numeric prefix, the jump to
    /// the line that the prefix names with one.
    fn jump_or(&self, bare: Command) -> (command: Command)
        ensures
            command == jump_command(self@, bare),
    {
        if self.number_buffer.len() == 0 {
            bare
        } else {
            match parse_decimal(&self.number_buffer, usize::MAX) {
                Some(line) => Command::JumpToLine(line),
                None => Command::Nothing,
            }
        }
    }
}

impl Default for InputHandler {
    fn default() -> (handler: Self)
        ensures
            handler@ == Seq::<char>::empty(),
    {
        Self::new()
    }
}

/// A digit key gives no command and lengthens the prefix by its digit; any
/// other key leaves the prefix empty, whatever command it gives.
pub proof fn lemma_only_digits_keep_the_prefix(prefix: Seq<char>, key: KeyEvent)
    ensures
        is_digit_key(key) ==> command_for(prefix, key) == Command::Nothing && prefix_after(prefix, key)
            == prefix.push(key.code->Char_0),
        !is_digit_key(key) ==> prefix_after(prefix, key) == Seq::<char>::empty(),
{
}

/// But for `g`, `G` and `%`, a key gives the command that it gives with no
/// prefix typed: to every other key the prefix is as good as cleared before the
/// key is looked at.
pub proof fn lemma_prefix_matters_only_to_jump_keys(prefix: Seq<char>, key: KeyEvent)
    requires
        !reads_prefix(key),
    ensures
        command_for(prefix, key) == command_for(Seq::empty(), key),
{
}

} // verus!
