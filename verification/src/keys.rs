//! What a key press does in the terminal interface.

use vstd::prelude::*;

verus! {

/// A key the interface reacts to.
#[derive(Debug, Clone, Copy, PartialEq, Eq)]
pub enum Key {
    Char(char),
    Enter,
    Esc,
    Up,
    Down,
    Left,
    Right,
    Home,
    End,
    Backspace,
    Delete,
    Tab,
    Other,
}

/// What a key press asks for.
#[derive(Debug, Clone, Copy, PartialEq, Eq)]
pub enum KeyAction {
    /// Esc in the model picker: back, or close it.
    PickerBack,
    PickerUp,
    PickerDown,
    PickerAccept,
    /// A digit in the model picker: pick that row.
    PickerNumber(usize),
    /// Nothing happens.
    Ignore,
    /// Ctrl-C during a turn: stop the turn.
    Interrupt,
    /// Leave the interface.
    Quit,
    /// Esc with text typed: drop the text.
    ClearInput,
    /// Shift-Enter: a new line in the text.
    InsertNewline,
    /// Enter: send the text.
    Submit,
    Backspace,
    Delete,
    Left,
    Right,
    Home,
    End,
    /// A typed character.
    Insert(char),
    /// Tab with the command popup open: complete the selected command.
    SlashComplete,
    /// Up with the command popup open.
    SlashUp,
    /// Down with the command popup open.
    SlashDown,
    /// Enter with the command popup open: run the selected command.
    SlashAccept,
    /// Esc with the command popup open: close the popup.
    SlashDismiss,
}

/// What a key does in the translator picker.
#[derive(Debug, Clone, Copy, PartialEq, Eq)]
pub enum TranslatorKey {
    Back,
    Up,
    Down,
    Accept,
    Number(usize),
    /// A character typed into the key input.
    Type(char),
    /// Backspace in the key input.
    Erase,
    Ignore,
}

/// What a key does in the translator picker: Esc, arrows, Enter as in the
/// model picker; in the key input, characters are typed and Backspace
/// erases; on a list, digits pick a row.
pub open spec fn translator_key_spec(key: Key, control: bool, api_key_input: bool) -> TranslatorKey {
    match key {
        Key::Esc => TranslatorKey::Back,
        Key::Up => TranslatorKey::Up,
        Key::Down => TranslatorKey::Down,
        Key::Enter => TranslatorKey::Accept,
        Key::Backspace => if api_key_input {
            TranslatorKey::Erase
        } else {
            TranslatorKey::Ignore
        },
        Key::Char(c) => if api_key_input {
            if control {
                TranslatorKey::Ignore
            } else {
                TranslatorKey::Type(c)
            }
        } else {
            match digit_value(c) {
                Some(d) => TranslatorKey::Number(d),
                None => TranslatorKey::Ignore,
            }
        },
        _ => TranslatorKey::Ignore,
    }
}

/// What a key does in the translator picker.
pub fn translator_key(key: Key, control: bool, api_key_input: bool) -> (r: TranslatorKey)
    ensures
        r == translator_key_spec(key, control, api_key_input),
{
    match key {
        Key::Esc => TranslatorKey::Back,
        Key::Up => TranslatorKey::Up,
        Key::Down => TranslatorKey::Down,
        Key::Enter => TranslatorKey::Accept,
        Key::Backspace => if api_key_input {
            TranslatorKey::Erase
        } else {
            TranslatorKey::Ignore
        },
        Key::Char(c) => if api_key_input {
            if control {
                TranslatorKey::Ignore
            } else {
                TranslatorKey::Type(c)
            }
        } else if '0' <= c && c <= '9' {
            TranslatorKey::Number((c as u32 - '0' as u32) as usize)
        } else {
            TranslatorKey::Ignore
        },
        _ => TranslatorKey::Ignore,
    }
}

/// The value of a decimal digit.
pub open spec fn digit_value(c: char) -> Option<usize> {
    if '0' <= c && c <= '9' {
        Some((c as u32 - '0' as u32) as usize)
    } else {
        None
    }
}

/// What a key does.  While the model picker is open it takes every key:
/// Esc, arrows, Enter and digits act on it, the rest is ignored.  While
/// the command popup shows, Tab completes, the arrows move its selection,
/// Enter runs the selected command and Esc closes it.  Otherwise Ctrl-C
/// stops a running turn or quits, Esc quits on empty text and clears it
/// otherwise, Enter sends (Shift-Enter starts a new line), the editing
/// keys edit, and a character without Ctrl is typed.
pub open spec fn key_action_spec(
    key: Key,
    control: bool,
    shift: bool,
    model_picker_open: bool,
    slash_popup_open: bool,
    input_empty: bool,
    turn_active: bool,
) -> KeyAction {
    if model_picker_open {
        match key {
            Key::Esc => KeyAction::PickerBack,
            Key::Up => KeyAction::PickerUp,
            Key::Down => KeyAction::PickerDown,
            Key::Enter => KeyAction::PickerAccept,
            Key::Char(c) => match digit_value(c) {
                Some(d) => KeyAction::PickerNumber(d),
                None => KeyAction::Ignore,
            },
            _ => KeyAction::Ignore,
        }
    } else if slash_popup_open && (key == Key::Tab || key == Key::Up || key == Key::Down
        || key == Key::Esc || (key == Key::Enter && !shift)) {
        if key == Key::Tab {
            KeyAction::SlashComplete
        } else if key == Key::Up {
            KeyAction::SlashUp
        } else if key == Key::Down {
            KeyAction::SlashDown
        } else if key == Key::Esc {
            KeyAction::SlashDismiss
        } else {
            KeyAction::SlashAccept
        }
    } else {
        match key {
            Key::Char(c) => if c == 'c' && control {
                if turn_active {
                    KeyAction::Interrupt
                } else {
                    KeyAction::Quit
                }
            } else if !control {
                KeyAction::Insert(c)
            } else {
                KeyAction::Ignore
            },
            Key::Esc => if input_empty {
                KeyAction::Quit
            } else {
                KeyAction::ClearInput
            },
            Key::Enter => if shift {
                KeyAction::InsertNewline
            } else {
                KeyAction::Submit
            },
            Key::Backspace => KeyAction::Backspace,
            Key::Delete => KeyAction::Delete,
            Key::Left => KeyAction::Left,
            Key::Right => KeyAction::Right,
            Key::Home => KeyAction::Home,
            Key::End => KeyAction::End,
            _ => KeyAction::Ignore,
        }
    }
}

/// What a key does.
pub fn key_action(
    key: Key,
    control: bool,
    shift: bool,
    model_picker_open: bool,
    slash_popup_open: bool,
    input_empty: bool,
    turn_active: bool,
) -> (r: KeyAction)
    ensures
        r == key_action_spec(
            key,
            control,
            shift,
            model_picker_open,
            slash_popup_open,
            input_empty,
            turn_active,
        ),
{
    if model_picker_open {
        return match key {
            Key::Esc => KeyAction::PickerBack,
            Key::Up => KeyAction::PickerUp,
            Key::Down => KeyAction::PickerDown,
            Key::Enter => KeyAction::PickerAccept,
            Key::Char(c) => if '0' <= c && c <= '9' {
                KeyAction::PickerNumber((c as u32 - '0' as u32) as usize)
            } else {
                KeyAction::Ignore
            },
            _ => KeyAction::Ignore,
        };
    }
    if slash_popup_open {
        match key {
            Key::Tab => {
                return KeyAction::SlashComplete;
            },
            Key::Up => {
                return KeyAction::SlashUp;
            },
            Key::Down => {
                return KeyAction::SlashDown;
            },
            Key::Esc => {
                return KeyAction::SlashDismiss;
            },
            Key::Enter => if !shift {
                return KeyAction::SlashAccept;
            },
            _ => {},
        }
    }
    match key {
        Key::Char(c) => if c == 'c' && control {
            if turn_active {
                KeyAction::Interrupt
            } else {
                KeyAction::Quit
            }
        } else if !control {
            KeyAction::Insert(c)
        } else {
            KeyAction::Ignore
        },
        Key::Esc => if input_empty {
            KeyAction::Quit
        } else {
            KeyAction::ClearInput
        },
        Key::Enter => if shift {
            KeyAction::InsertNewline
        } else {
            KeyAction::Submit
        },
        Key::Backspace => KeyAction::Backspace,
        Key::Delete => KeyAction::Delete,
        Key::Left => KeyAction::Left,
        Key::Right => KeyAction::Right,
        Key::Home => KeyAction::Home,
        Key::End => KeyAction::End,
        _ => KeyAction::Ignore,
    }
}

/// The status after Esc in the model picker: canceled when it closes,
/// the picker's prompt when it went back a step.
pub fn picker_back_status(closed: bool) -> (r: &'static str)
    ensures
        r@ == (if closed {
            "Model selection canceled."@
        } else {
            "Select a model and effort."@
        }),
{
    if closed {
        "Model selection canceled."
    } else {
        "Select a model and effort."
    }
}

} // verus!
