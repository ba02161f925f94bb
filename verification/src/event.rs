//! The events that controls receive.
use vstd::prelude::*;

use crate::control::ControlCapability;

verus! {

/// How an event travels through the control tree.
#[derive(Clone, Copy, Debug, PartialEq, Eq)]
pub enum EventType {
    Bubble,
    Tunnel,
    Direct,
}

/// An event: its name, when it happened, how it travels, and what a control must be
/// able to do to receive it.
pub trait Event {
    fn name(&self) -> &str;

    fn timestamp(&self) -> u64;

    fn event_type(&self) -> EventType;

    /// By default an event asks for no capability.
    fn required_capabilities(&self) -> (c: Vec<ControlCapability>)
        default_ensures
            c@ == Seq::<ControlCapability>::empty(),
    {
        Vec::new()
    }
}

/// A control was resized.
pub struct CtrlResizeEvent {
    pub win_id: u32,
    pub new_size: (u32, u32),
    pub timestamp: u64,
}

impl Event for CtrlResizeEvent {
    fn name(&self) -> (n: &str)
        ensures
            n@ == "CtrlResizeEvent"@,
    {
        "CtrlResizeEvent"
    }

    fn timestamp(&self) -> (t: u64)
        ensures
            t == self.timestamp,
    {
        self.timestamp
    }

    fn event_type(&self) -> (t: EventType)
        ensures
            t == EventType::Tunnel,
    {
        EventType::Tunnel
    }
}

/// A window was resized.
pub struct WinResizeEvent {
    pub win_id: u32,
    pub new_size: (u32, u32),
    pub timestamp: u64,
}

impl Event for WinResizeEvent {
    fn name(&self) -> (n: &str)
        ensures
            n@ == "WinResizeEvent"@,
    {
        "WinResizeEvent"
    }

    fn timestamp(&self) -> (t: u64)
        ensures
            t == self.timestamp,
    {
        self.timestamp
    }

    fn event_type(&self) -> (t: EventType)
        ensures
            t == EventType::Tunnel,
    {
        EventType::Tunnel
    }
}

/// Text was typed.
pub struct TextEditEvent {
    pub text: String,
    pub timestamp: u64,
}

impl TextEditEvent {
    pub fn new(text: String, timestamp: u64) -> (e: Self)
        ensures
            e.text == text,
            e.timestamp == timestamp,
    {
        Self { text, timestamp }
    }
}

impl Event for TextEditEvent {
    fn name(&self) -> (n: &str)
        ensures
            n@ == "TextEditEvent"@,
    {
        "TextEditEvent"
    }

    fn timestamp(&self) -> (t: u64)
        ensures
            t == self.timestamp,
    {
        self.timestamp
    }

    fn event_type(&self) -> (t: EventType)
        ensures
            t == EventType::Direct,
    {
        EventType::Direct
    }

    fn required_capabilities(&self) -> (c: Vec<ControlCapability>)
        ensures
            c@ == seq![ControlCapability::TextEdit],
    {
        vec![ControlCapability::TextEdit]
    }
}

/// An input method is composing text.
pub struct ImEditEvent {
    pub text: String,
    pub start: usize,
    pub length: usize,
    pub timestamp: u64,
}

impl ImEditEvent {
    pub fn new(text: String, start: usize, length: usize, timestamp: u64) -> (e: Self)
        ensures
            e.text == text,
            e.start == start,
            e.length == length,
            e.timestamp == timestamp,
    {
        Self { timestamp, text, start, length }
    }
}

impl Event for ImEditEvent {
    fn name(&self) -> (n: &str)
        ensures
            n@ == "ImEditEvent"@,
    {
        "ImEditEvent"
    }

    fn timestamp(&self) -> (t: u64)
        ensures
            t == self.timestamp,
    {
        self.timestamp
    }

    fn event_type(&self) -> (t: EventType)
        ensures
            t == EventType::Direct,
    {
        EventType::Direct
    }

    fn required_capabilities(&self) -> (c: Vec<ControlCapability>)
        ensures
            c@ == seq![ControlCapability::TextEdit],
    {
        vec![ControlCapability::TextEdit]
    }
}

/// A control gains the focus.
pub struct GainFocusEvent;

/// A control loses the focus.
pub struct LoseFocusEvent;

impl Event for GainFocusEvent {
    fn name(&self) -> (n: &str)
        ensures
            n@ == "GainFocusEvent"@,
    {
        "GainFocusEvent"
    }

    fn timestamp(&self) -> (t: u64)
        ensures
            t == 0,
    {
        0
    }

    fn event_type(&self) -> (t: EventType)
        ensures
            t == EventType::Direct,
    {
        EventType::Direct
    }
}

impl Event for LoseFocusEvent {
    fn name(&self) -> (n: &str)
        ensures
            n@ == "LoseFocusEvent"@,
    {
        "LoseFocusEvent"
    }

    fn timestamp(&self) -> (t: u64)
        ensures
            t == 0,
    {
        0
    }

    fn event_type(&self) -> (t: EventType)
        ensures
            t == EventType::Direct,
    {
        EventType::Direct
    }
}

/// Whether a key went down or up.
#[derive(Clone, Copy, Debug, PartialEq, Eq, Hash)]
pub enum KeyState {
    Pressed,
    Released,
}

/// The keys that the controls tell apart; any other key is `Other`.
#[derive(Clone, Copy, Debug, PartialEq, Eq, Hash)]
pub enum Key {
    Backspace,
    Delete,
    Return,
    Left,
    Right,
    Up,
    Down,
    Home,
    End,
    PageUp,
    PageDown,
    Escape,
    F4,
    Other,
}

/// A key went down or up.
pub struct KeyboardEvent {
    pub keycode: Key,
    pub state: KeyState,
    pub timestamp: u64,
}

impl Event for KeyboardEvent {
    fn name(&self) -> (n: &str)
        ensures
            n@ == "keyboardEvent"@,
    {
        "keyboardEvent"
    }

    fn timestamp(&self) -> (t: u64)
        ensures
            t == self.timestamp,
    {
        self.timestamp
    }

    fn event_type(&self) -> (t: EventType)
        ensures
            t == EventType::Tunnel,
    {
        EventType::Tunnel
    }
}

/// What happened with the mouse.
pub enum MouseEventType {
    Move(u32, u32),
    Down,
    Up,
    Wheel,
}

/// Something happened with the mouse.
pub struct MouseEvent {
    pub event_type: MouseEventType,
    pub timestamp: u64,
}

impl Event for MouseEvent {
    fn name(&self) -> (n: &str)
        ensures
            n@ == "MouseEvent"@,
    {
        "MouseEvent"
    }

    fn timestamp(&self) -> (t: u64)
        ensures
            t == self.timestamp,
    {
        self.timestamp
    }

    fn event_type(&self) -> (t: EventType)
        ensures
            t == EventType::Tunnel,
    {
        EventType::Tunnel
    }

    fn required_capabilities(&self) -> (c: Vec<ControlCapability>)
        ensures
            c@ == seq![ControlCapability::Focus],
    {
        vec![ControlCapability::Focus]
    }
}

/// A cursor movement of a text editor.
#[derive(Clone, Copy, Debug, PartialEq, Eq)]
pub enum Motion {
    Left,
    Right,
    Up,
    Down,
    Home,
    End,
    PageUp,
    PageDown,
}

/// An editing action of a text editor.
#[derive(Clone, Copy, Debug, PartialEq, Eq)]
pub enum EditAction {
    Backspace,
    Delete,
    Enter,
    Motion(Motion),
}

/// The editing action that a pressed key asks of an input box: deleting for
/// Backspace and Delete, a new line for Return, a cursor motion for the arrows, Home,
/// End and the page keys. Released keys and other keys ask nothing.
pub open spec fn edit_action_of(event: KeyboardEvent) -> Option<EditAction> {
    if event.state == KeyState::Released {
        None
    } else {
        match event.keycode {
            Key::Backspace => Some(EditAction::Backspace),
            Key::Delete => Some(EditAction::Delete),
            Key::Return => Some(EditAction::Enter),
            Key::Left => Some(EditAction::Motion(Motion::Left)),
            Key::Right => Some(EditAction::Motion(Motion::Right)),
            Key::Up => Some(EditAction::Motion(Motion::Up)),
            Key::Down => Some(EditAction::Motion(Motion::Down)),
            Key::Home => Some(EditAction::Motion(Motion::Home)),
            Key::End => Some(EditAction::Motion(Motion::End)),
            Key::PageUp => Some(EditAction::Motion(Motion::PageUp)),
            Key::PageDown => Some(EditAction::Motion(Motion::PageDown)),
            _ => None,
        }
    }
}

/// The editing action that `event` asks of an input box (see [`edit_action_of`]).
pub fn key_edit_action(event: &KeyboardEvent) -> (a: Option<EditAction>)
    ensures
        a == edit_action_of(*event),
{
    match event.state {
        KeyState::Released => None,
        KeyState::Pressed => match event.keycode {
            Key::Backspace => Some(EditAction::Backspace),
            Key::Delete => Some(EditAction::Delete),
            Key::Return => Some(EditAction::Enter),
            Key::Left => Some(EditAction::Motion(Motion::Left)),
            Key::Right => Some(EditAction::Motion(Motion::Right)),
            Key::Up => Some(EditAction::Motion(Motion::Up)),
            Key::Down => Some(EditAction::Motion(Motion::Down)),
            Key::Home => Some(EditAction::Motion(Motion::Home)),
            Key::End => Some(EditAction::Motion(Motion::End)),
            Key::PageUp => Some(EditAction::Motion(Motion::PageUp)),
            Key::PageDown => Some(EditAction::Motion(Motion::PageDown)),
            _ => None,
        },
    }
}


/// An event that reaches an input box.
pub enum BoxEvent {
    CtrlResize(CtrlResizeEvent),
    ImEdit(ImEditEvent),
    TextEdit(TextEditEvent),
    GainFocus(GainFocusEvent),
    LoseFocus(LoseFocusEvent),
    Keyboard(KeyboardEvent),
    /// Any other event.
    Other,
}

/// What an input box does about an event.
pub enum BoxReaction {
    /// Resize the editor to `width` x `height`; handled.
    Resize(u32, u32),
    /// Insert the text at the cursor; handled.
    Insert(String),
    /// Take the focus; handled when the editor takes it.
    GainFocus,
    /// Give the focus up; handled when the editor gives it up.
    LoseFocus,
    /// Apply the editing action; handled.
    Edit(EditAction),
    /// Nothing to do, but handled (composed text is not shown yet).
    Accept,
    /// Not handled.
    Ignore,
}

/// What an input box does about `event`: a control resize resizes its editor, typed
/// text is inserted, the focus events take or give up the focus, a pressed key edits
/// as [`key_edit_action`] says; composed text is accepted and left alone; released
/// keys, keys that ask no action and other events are not handled.
pub fn box_reaction(event: BoxEvent) -> (r: BoxReaction)
    ensures
        match event {
            BoxEvent::CtrlResize(e) => r == BoxReaction::Resize(e.new_size.0, e.new_size.1),
            BoxEvent::ImEdit(_) => r is Accept,
            BoxEvent::TextEdit(e) => r == BoxReaction::Insert(e.text),
            BoxEvent::GainFocus(_) => r is GainFocus,
            BoxEvent::LoseFocus(_) => r is LoseFocus,
            BoxEvent::Keyboard(e) => match edit_action_of(e) {
                Some(a) => r == BoxReaction::Edit(a),
                None => r is Ignore,
            },
            BoxEvent::Other => r is Ignore,
        },
{
    match event {
        BoxEvent::CtrlResize(e) => BoxReaction::Resize(e.new_size.0, e.new_size.1),
        BoxEvent::ImEdit(_) => BoxReaction::Accept,
        BoxEvent::TextEdit(e) => BoxReaction::Insert(e.text),
        BoxEvent::GainFocus(_) => BoxReaction::GainFocus,
        BoxEvent::LoseFocus(_) => BoxReaction::LoseFocus,
        BoxEvent::Keyboard(e) => match key_edit_action(&e) {
            Some(a) => BoxReaction::Edit(a),
            None => BoxReaction::Ignore,
        },
        BoxEvent::Other => BoxReaction::Ignore,
    }
}

/// A released key asks no editing action.
pub proof fn lemma_released_key_asks_nothing(e: KeyboardEvent)
    requires
        e.state == KeyState::Released,
    ensures
        edit_action_of(e) is None,
{
}

/// Each pressed editing key asks for its own action: Backspace deletes before the
/// cursor and Delete after it, Return starts a new line, and each arrow, Home, End
/// and page key moves the cursor its own way; Escape, F4 and other keys ask nothing.
pub proof fn lemma_pressed_key_actions(e: KeyboardEvent)
    requires
        e.state == KeyState::Pressed,
    ensures
        (edit_action_of(e) == Some(EditAction::Backspace)) <==> e.keycode == Key::Backspace,
        (edit_action_of(e) == Some(EditAction::Delete)) <==> e.keycode == Key::Delete,
        (edit_action_of(e) == Some(EditAction::Enter)) <==> e.keycode == Key::Return,
        (edit_action_of(e) == Some(EditAction::Motion(Motion::Left))) <==> e.keycode == Key::Left,
        (edit_action_of(e) == Some(EditAction::Motion(Motion::Right))) <==> e.keycode == Key::Right,
        (edit_action_of(e) == Some(EditAction::Motion(Motion::Up))) <==> e.keycode == Key::Up,
        (edit_action_of(e) == Some(EditAction::Motion(Motion::Down))) <==> e.keycode == Key::Down,
        (edit_action_of(e) == Some(EditAction::Motion(Motion::Home))) <==> e.keycode == Key::Home,
        (edit_action_of(e) == Some(EditAction::Motion(Motion::End))) <==> e.keycode == Key::End,
        (edit_action_of(e) == Some(EditAction::Motion(Motion::PageUp))) <==> e.keycode == Key::PageUp,
        (edit_action_of(e) == Some(EditAction::Motion(Motion::PageDown))) <==> e.keycode == Key::PageDown,
        (edit_action_of(e) is None) <==> (e.keycode == Key::Escape || e.keycode == Key::F4 || e.keycode
            == Key::Other),
{
}

/// Two different pressed keys never ask for the same editing action.
pub proof fn lemma_distinct_keys_distinct_actions(a: KeyboardEvent, b: KeyboardEvent)
    requires
        a.state == KeyState::Pressed,
        b.state == KeyState::Pressed,
        a.keycode != b.keycode,
        edit_action_of(a) is Some,
    ensures
        edit_action_of(a) != edit_action_of(b),
{
    lemma_pressed_key_actions(a);
    lemma_pressed_key_actions(b);
}

/// An input box edits with exactly the action its pressed key asks for; a pressed
/// Delete deletes after the cursor, a pressed Backspace before it.
pub proof fn lemma_box_key_reaction(e: KeyboardEvent, r: BoxReaction)
    requires
        e.state == KeyState::Pressed,
        match edit_action_of(e) {
            Some(a) => r == BoxReaction::Edit(a),
            None => r is Ignore,
        },
    ensures
        e.keycode == Key::Delete ==> r == BoxReaction::Edit(EditAction::Delete),
        e.keycode == Key::Backspace ==> r == BoxReaction::Edit(EditAction::Backspace),
        r is Ignore <==> (e.keycode == Key::Escape || e.keycode == Key::F4 || e.keycode == Key::Other),
{
    lemma_pressed_key_actions(e);
}

} // verus!
