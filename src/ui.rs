//! What the terminal interface decides: how a key press changes the input
//! state and what it asks the interface to do, and which model comes next.

use vstd::prelude::*;
use crate::text::same_text;

verus! {

/// Whether keys edit the input or act as commands.
#[derive(Debug, Clone, Copy, PartialEq, Eq, Structural)]
pub enum InputMode {
    Normal,
    Insert,
}

/// A key press, as far as the interface tells keys apart.
#[derive(Debug, Clone, Copy, PartialEq, Eq, Structural)]
pub enum Key {
    Enter,
    Esc,
    Backspace,
    Char(char),
    Up,
    Down,
    Other,
}

/// What a key press asks of the interface.
#[derive(Debug)]
pub enum UiAction {
    Nothing,
    Send(String),
    Quit,
    NewSession,
    CycleModel,
    LoadSessions,
}

/// The hint shown on leaving insert mode.
pub const NORMAL_HINT: &'static str = "Press 'i' to insert, 'h' for help, 'q' to quit";

/// The hint shown on entering insert mode.
pub const INSERT_HINT: &'static str = "Insert mode: Type your message and press Enter";

/// Whether a character has the Unicode White_Space property.
pub open spec fn is_blank_char(c: char) -> bool {
    let u = c as u32;
    (9 <= u <= 13) || u == 32 || u == 0x85 || u == 0xA0 || u == 0x1680 || (0x2000 <= u <= 0x200A)
        || u == 0x2028 || u == 0x2029 || u == 0x202F || u == 0x205F || u == 0x3000
}

/// Whether a text holds something besides white space.
pub open spec fn has_content(s: Seq<char>) -> bool {
    exists|k: int| 0 <= k < s.len() && !is_blank_char(#[trigger] s[k])
}

fn blank_char(c: char) -> (r: bool)
    ensures
        r == is_blank_char(c),
{
    let u = c as u32;
    (9 <= u && u <= 13) || u == 32 || u == 0x85 || u == 0xA0 || u == 0x1680 || (0x2000 <= u && u
        <= 0x200A) || u == 0x2028 || u == 0x2029 || u == 0x202F || u == 0x205F || u == 0x3000
}

/// Relies on String's FromIterator<char>: the string of those characters in order.
#[verifier::external_body]
fn string_of(chars: &Vec<char>) -> (r: String)
    ensures
        r@ == chars@,
{
    chars.iter().collect()
}

/// The input line and the modes of the interface.
#[derive(Debug, Clone)]
pub struct InputState {
    pub mode: InputMode,
    pub buffer: Vec<char>,
    pub show_help: bool,
    pub status: String,
}

impl InputState {
    /// Insert mode, an empty input line, no help.
    pub fn new(status: String) -> (s: InputState)
        ensures
            s.mode == InputMode::Insert,
            s.buffer@.len() == 0,
            !s.show_help,
            s.status == status,
    {
        InputState { mode: InputMode::Insert, buffer: Vec::new(), show_help: false, status }
    }

    /// Takes one key press. In insert mode, keys edit the line and Enter
    /// sends it unless it is blank; Esc leaves for normal mode. In normal
    /// mode, `q`, `i`, `h`, `c`, `m` and `l` quit, insert, toggle help, start
    /// a session, cycle the model and list sessions.
    pub fn on_key(&mut self, key: Key) -> (a: UiAction)
        ensures
            old(self).mode == InputMode::Insert ==> match key {
                Key::Enter => if has_content(old(self).buffer@) {
                    &&& a matches UiAction::Send(t) && t@ == old(self).buffer@
                    &&& final(self).buffer@.len() == 0
                    &&& final(self).mode == old(self).mode
                    &&& final(self).status == old(self).status
                } else {
                    &&& a is Nothing
                    &&& *final(self) == *old(self)
                },
                Key::Esc => {
                    &&& a is Nothing
                    &&& final(self).mode == InputMode::Normal
                    &&& final(self).status@ == NORMAL_HINT@
                    &&& final(self).buffer == old(self).buffer
                },
                Key::Backspace => {
                    &&& a is Nothing
                    &&& final(self).buffer@ == if old(self).buffer@.len() > 0 {
                        old(self).buffer@.drop_last()
                    } else {
                        old(self).buffer@
                    }
                    &&& final(self).mode == old(self).mode
                    &&& final(self).status == old(self).status
                },
                Key::Char(c) => {
                    &&& a is Nothing
                    &&& final(self).buffer@ == old(self).buffer@.push(c)
                    &&& final(self).mode == old(self).mode
                    &&& final(self).status == old(self).status
                },
                _ => {
                    &&& a is Nothing
                    &&& *final(self) == *old(self)
                },
            },
            old(self).mode == InputMode::Normal ==> {
                &&& final(self).buffer == old(self).buffer
                &&& match key {
                    Key::Char('q') => a is Quit && *final(self) == *old(self),
                    Key::Char('i') => a is Nothing && final(self).mode == InputMode::Insert
                        && final(self).status@ == INSERT_HINT@,
                    Key::Char('h') => a is Nothing && final(self).mode == old(self).mode
                        && final(self).show_help == !old(self).show_help,
                    Key::Char('c') => a is NewSession && *final(self) == *old(self),
                    Key::Char('m') => a is CycleModel && *final(self) == *old(self),
                    Key::Char('l') => a is LoadSessions && *final(self) == *old(self),
                    _ => a is Nothing && *final(self) == *old(self),
                }
            },
    {
        match self.mode {
            InputMode::Insert => match key {
                Key::Enter => {
                    let mut i: usize = 0;
                    let mut found = false;
                    while i < self.buffer.len()
                        invariant
                            i <= self.buffer@.len(),
                            found ==> has_content(self.buffer@),
                            !found ==> forall|k: int| 0 <= k < i ==> is_blank_char(#[trigger] self.buffer@[k]),
                        decreases self.buffer@.len() - i,
                    {
                        if !blank_char(self.buffer[i]) {
                            found = true;
                        }
                        i = i + 1;
                    }
                    if found {
                        let text = string_of(&self.buffer);
                        self.buffer = Vec::new();
                        UiAction::Send(text)
                    } else {
                        UiAction::Nothing
                    }
                },
                Key::Esc => {
                    self.mode = InputMode::Normal;
                    self.status = NORMAL_HINT.to_owned();
                    UiAction::Nothing
                },
                Key::Backspace => {
                    self.buffer.pop();
                    UiAction::Nothing
                },
                Key::Char(c) => {
                    self.buffer.push(c);
                    UiAction::Nothing
                },
                _ => UiAction::Nothing,
            },
            InputMode::Normal => match key {
                Key::Char('q') => UiAction::Quit,
                Key::Char('i') => {
                    self.mode = InputMode::Insert;
                    self.status = INSERT_HINT.to_owned();
                    UiAction::Nothing
                },
                Key::Char('h') => {
                    self.show_help = !self.show_help;
                    UiAction::Nothing
                },
                Key::Char('c') => UiAction::NewSession,
                Key::Char('m') => UiAction::CycleModel,
                Key::Char('l') => UiAction::LoadSessions,
                _ => UiAction::Nothing,
            },
        }
    }
}

/// Whether some model is named `selected`.
pub open spec fn is_listed(models: Seq<String>, selected: Seq<char>) -> bool {
    exists|k: int| 0 <= k < models.len() && (#[trigger] models[k])@ == selected
}

/// The first position of `selected` among the models.
pub open spec fn first_index(models: Seq<String>, selected: Seq<char>, k: int) -> bool {
    0 <= k < models.len() && models[k]@ == selected && forall|j: int|
        0 <= j < k ==> (#[trigger] models[j])@ != selected
}

/// The model after the selected one, wrapping round; the first model when
/// the selected one is not listed.
pub fn next_model(models: &Vec<String>, selected: &str) -> (r: String)
    requires
        models@.len() > 0,
    ensures
        forall|k: int| first_index(models@, selected@, k) ==> r == models@[(k + 1) % (models@.len() as int)],
        !is_listed(models@, selected@) ==> r == models@[1int % (models@.len() as int)],
{
    let n = models.len();
    let mut i: usize = 0;
    let mut found = false;
    while i < n && !found
        invariant
            n == models@.len(),
            i <= n,
            found ==> i < n && models@[i as int]@ == selected@,
            forall|j: int| 0 <= j < i ==> (#[trigger] models@[j])@ != selected@,
        decreases n - i + if found { 0int } else { 1int },
    {
        if same_text(models[i].as_str(), selected) {
            found = true;
        } else {
            i = i + 1;
        }
    }
    let next = if found {
        (i + 1) % n
    } else {
        1 % n
    };
    proof {
        if found {
            assert forall|k: int| first_index(models@, selected@, k) implies k == i by {
                if k > i {
                    assert(models@[i as int]@ == selected@);
                }
            }
        } else {
            assert(!is_listed(models@, selected@));
        }
    }
    models[next].clone()
}

} // verus!
