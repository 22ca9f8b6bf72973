//! The keys the screen reacts to, and which of them mean what.
use vstd::prelude::*;

verus! {

/// A key read from the terminal.
#[derive(Clone, Copy, Debug, PartialEq, Eq, Structural)]
pub enum Key {
    /// A character, control characters included.
    Character(char),
    KeyUp,
    KeyDown,
    KeyLeft,
    KeyRight,
    KeyBackspace,
    /// The delete key.
    KeyDC,
    /// Any other key.
    Other,
}

/// Moves the selection up a list: the up arrow or Ctrl-P.
pub fn is_move_up(input: &Key) -> (r: bool)
    ensures
        r == (*input == Key::KeyUp || *input == Key::Character('\u{10}')),
{
    matches!(input, Key::KeyUp | Key::Character('\u{10}'))
}

/// Moves the selection down a list: the down arrow or Ctrl-N.
pub fn is_move_down(input: &Key) -> (r: bool)
    ensures
        r == (*input == Key::KeyDown || *input == Key::Character('\u{e}')),
{
    matches!(input, Key::KeyDown | Key::Character('\u{e}'))
}

/// Moves the selection up or down a list.
pub fn is_vertical_navigation(input: &Key) -> (r: bool)
    ensures
        r == (*input == Key::KeyUp || *input == Key::Character('\u{10}') || *input == Key::KeyDown
            || *input == Key::Character('\u{e}')),
{
    is_move_up(input) || is_move_down(input)
}

/// Moves the diff cursor up: `k`.
pub fn is_diff_move_up(input: &Key) -> (r: bool)
    ensures
        r == (*input == Key::Character('k')),
{
    matches!(input, Key::Character('k'))
}

/// Moves the diff cursor down: `j`.
pub fn is_diff_move_down(input: &Key) -> (r: bool)
    ensures
        r == (*input == Key::Character('j')),
{
    matches!(input, Key::Character('j'))
}

/// Scrolls the diff to the left: the left arrow.
pub fn is_horizontal_left(input: &Key) -> (r: bool)
    ensures
        r == (*input == Key::KeyLeft),
{
    matches!(input, Key::KeyLeft)
}

/// Scrolls the diff to the right: the right arrow.
pub fn is_horizontal_right(input: &Key) -> (r: bool)
    ensures
        r == (*input == Key::KeyRight),
{
    matches!(input, Key::KeyRight)
}

/// Stages or unstages: Enter or `u`.
pub fn is_stage_toggle(input: &Key) -> (r: bool)
    ensures
        r == (*input == Key::Character('\n') || *input == Key::Character('u')),
{
    matches!(input, Key::Character('\n') | Key::Character('u'))
}

/// A key as the state machine takes it: plain, or pressed with Alt.
#[derive(Clone, Copy, Debug, PartialEq, Eq, Structural)]
pub enum KeyPress {
    /// A plain key; `None` when the terminal gave nothing.
    Plain(Option<Key>),
    /// A key pressed with Alt.
    Alt(Key),
}

/// What the key read after Escape means.
#[derive(Clone, Copy, Debug, PartialEq, Eq, Structural)]
pub enum AfterEscape {
    /// `[` starts an arrow sequence: the next key decides.
    ReadMore,
    /// Alt, Escape or a key with Alt.
    Done(KeyPress),
}

/// The key read after Escape: `[` asks for one more key; any other key is
/// that key with Alt; nothing is Escape itself.
pub fn after_escape(next: Option<Key>) -> (r: AfterEscape)
    ensures
        r == match next {
            Some(Key::Character('[')) => AfterEscape::ReadMore,
            Some(k) => AfterEscape::Done(KeyPress::Alt(k)),
            None => AfterEscape::Done(KeyPress::Plain(Some(Key::Character('\u{1b}')))),
        },
{
    match next {
        Some(Key::Character('[')) => AfterEscape::ReadMore,
        Some(k) => AfterEscape::Done(KeyPress::Alt(k)),
        None => AfterEscape::Done(KeyPress::Plain(Some(Key::Character('\u{1b}')))),
    }
}

/// The key read after Escape and `[`: `A` and `B` are the up and down
/// arrows with Alt; any other key, or none, is taken plain.
pub fn after_escape_bracket(third: Option<Key>) -> (r: KeyPress)
    ensures
        r == match third {
            Some(Key::Character('A')) => KeyPress::Alt(Key::KeyUp),
            Some(Key::Character('B')) => KeyPress::Alt(Key::KeyDown),
            other => KeyPress::Plain(other),
        },
{
    match third {
        Some(Key::Character('A')) => KeyPress::Alt(Key::KeyUp),
        Some(Key::Character('B')) => KeyPress::Alt(Key::KeyDown),
        other => KeyPress::Plain(other),
    }
}

} // verus!
