//! The decisions of the application's event loop: which windows are open, and what
//! each window-system event makes the loop do.
use vstd::prelude::*;

use crate::event::{CtrlResizeEvent, ImEditEvent, Key, KeyState, KeyboardEvent, TextEditEvent, WinResizeEvent};

verus! {

/// What a window's strategy answered to a request.
#[derive(Clone, Copy, Debug, PartialEq, Eq)]
pub enum StrategyAnswer {
    /// The strategy agrees (closes, minimizes).
    Accept,
    /// The strategy answered otherwise, or failed.
    Decline,
    /// The window has no strategy for the request.
    NotSet,
}

/// A window-system event, with what the window said about it where the loop asks.
pub enum SysInput {
    /// The user asked to quit.
    Quit,
    /// Closing `win` was requested; its `close_requested` strategy gave `answer`.
    CloseRequested { win: u32, answer: StrategyAnswer },
    /// `win` was minimized; its `minimize` strategy gave `answer`.
    Minimized { win: u32, answer: StrategyAnswer },
    /// `win` was resized to `width` x `height`.
    Resized { win: u32, width: i32, height: i32, timestamp: u64 },
    /// A key went down in `win` (`None`: a key without a code).
    KeyDown { win: u32, key: Option<Key>, timestamp: u64 },
    /// A key went up in `win`.
    KeyUp { win: u32, key: Option<Key>, timestamp: u64 },
    /// An input method composes `text` in `win`; `text_edit` tells whether the
    /// window's active control can edit text.
    TextEditing { win: u32, text: String, start: i32, length: i32, timestamp: u64, text_edit: bool },
    /// `text` was typed in `win`; `text_edit` as above.
    TextInput { win: u32, text: String, timestamp: u64, text_edit: bool },
    /// A window could not hand out the events queued on it.
    EventsFailed,
    /// The global hotkey `id`, registered by `win`, was pressed.
    HotKey { win: u32, id: u32 },
    /// Anything else.
    Other,
}

/// An event handed to a window's child control at once.
pub enum ChildEvent {
    WinResize(WinResizeEvent),
    CtrlResize(CtrlResizeEvent),
    Keyboard(KeyboardEvent),
}

/// An event queued on a window, for its active control.
pub enum QueuedEvent {
    ImEdit(ImEditEvent),
    TextEdit(TextEditEvent),
}

/// What the loop does about an event.
pub enum LoopAction {
    /// Leave the event loop.
    Stop,
    /// Nothing.
    Nothing,
    /// Drop the window (it has left the set of open windows).
    Close(u32),
    /// Minimize the window.
    Minimize(u32),
    /// Hand these events, in order, to the window's child control, if it has one
    /// that is free.
    Deliver(u32, Vec<ChildEvent>),
    /// Queue this event on the window.
    Queue(u32, QueuedEvent),
    /// Call the window's `hotkey` slot with the hotkey's id.
    HotKey(u32, u32),
}

/// The window an event is about, if any.
pub open spec fn input_window(input: SysInput) -> Option<u32> {
    match input {
        SysInput::Quit | SysInput::EventsFailed | SysInput::Other => None,
        SysInput::CloseRequested { win, .. } => Some(win),
        SysInput::Minimized { win, .. } => Some(win),
        SysInput::Resized { win, .. } => Some(win),
        SysInput::KeyDown { win, .. } => Some(win),
        SysInput::KeyUp { win, .. } => Some(win),
        SysInput::TextEditing { win, .. } => Some(win),
        SysInput::TextInput { win, .. } => Some(win),
        SysInput::HotKey { win, .. } => Some(win),
    }
}

/// Whether the loop looks the event's window up (and fails when it is not open):
/// all window events but F4 and Escape going down.
pub open spec fn needs_window(input: SysInput) -> bool {
    match input {
        SysInput::Quit | SysInput::EventsFailed | SysInput::Other => false,
        SysInput::KeyDown { key: Some(Key::F4), .. } => false,
        SysInput::KeyDown { key: Some(Key::Escape), .. } => false,
        _ => true,
    }
}

/// The open windows of the application, each once.
pub struct AppLoop {
    wins: Vec<u32>,
}

impl AppLoop {
    /// The open windows.
    pub closed spec fn windows(&self) -> Set<u32> {
        self.wins@.to_set()
    }

    pub closed spec fn wf(&self) -> bool {
        self.wins@.no_duplicates()
    }

    /// No window is open.
    pub fn new() -> (l: Self)
        ensures
            l.wf(),
            l.windows() == Set::<u32>::empty(),
    {
        let l = AppLoop { wins: Vec::new() };
        assert(l.wins@.to_set() =~= Set::<u32>::empty());
        l
    }

    fn position(&self, win: u32) -> (r: Option<usize>)
        ensures
            match r {
                Some(i) => i < self.wins@.len() && self.wins@[i as int] == win,
                None => !self.wins@.contains(win),
            },
    {
        let mut i: usize = 0;
        while i < self.wins.len()
            invariant
                i <= self.wins@.len(),
                forall|j: int| 0 <= j < i ==> self.wins@[j] != win,
            decreases self.wins@.len() - i,
        {
            if self.wins[i] == win {
                return Some(i);
            }
            i = i + 1;
        }
        None
    }

    /// Whether `win` is open.
    pub fn is_open(&self, win: u32) -> (b: bool)
        ensures
            b == self.windows().contains(win),
    {
        self.position(win).is_some()
    }

    /// Whether no window is open.
    pub fn is_empty(&self) -> (b: bool)
        requires
            self.wf(),
        ensures
            b == (self.windows() == Set::<u32>::empty()),
    {
        proof {
            if self.wins@.len() > 0 {
                assert(self.windows().contains(self.wins@[0]));
            } else {
                assert(self.wins@.to_set() =~= Set::<u32>::empty());
            }
        }
        self.wins.len() == 0
    }

    /// Registers the window `win` as open (again, if it already was).
    pub fn register(&mut self, win: u32)
        requires
            old(self).wf(),
        ensures
            final(self).wf(),
            final(self).windows() == old(self).windows().insert(win),
    {
        if self.position(win).is_none() {
            let ghost before = self.wins@;
            self.wins.push(win);
            proof {
                assert(self.wins@ =~= before.push(win));
                assert forall|x: u32| self.wins@.contains(x) <==> (before.contains(x) || x == win) by {
                    if x == win {
                        assert(self.wins@[before.len() as int] == win);
                    }
                    if before.contains(x) {
                        let k = choose|k: int| 0 <= k < before.len() && before[k] == x;
                        assert(self.wins@[k] == x);
                    }
                    if self.wins@.contains(x) {
                        let k = choose|k: int| 0 <= k < self.wins@.len() && self.wins@[k] == x;
                        if k < before.len() {
                            assert(before[k] == x);
                        }
                    }
                }
                assert(self.wins@.to_set() =~= before.to_set().insert(win));
            }
        } else {
            proof {
                assert(self.wins@.to_set() =~= old(self).wins@.to_set().insert(win));
            }
        }
    }

    fn remove(&mut self, win: u32)
        requires
            old(self).wf(),
        ensures
            final(self).wf(),
            final(self).windows() == old(self).windows().remove(win),
    {
        match self.position(win) {
            Some(i) => {
                let ghost before = self.wins@;
                self.wins.remove(i);
                proof {
                    assert(self.wins@ =~= before.remove(i as int));
                    assert forall|x: u32| self.wins@.contains(x) <==> (before.contains(x) && x != win) by {
                        if self.wins@.contains(x) {
                            let k = choose|k: int| 0 <= k < self.wins@.len() && self.wins@[k] == x;
                            if k < i {
                                assert(before[k] == x);
                            } else {
                                assert(before[k + 1] == x);
                            }
                        }
                        if before.contains(x) && x != win {
                            let k = choose|k: int| 0 <= k < before.len() && before[k] == x;
                            if k < i {
                                assert(self.wins@[k] == x);
                            } else {
                                assert(k != i);
                                assert(self.wins@[k - 1] == x);
                            }
                        }
                    }
                    assert(self.wins@.to_set() =~= before.to_set().remove(win));
                }
            },
            None => {
                proof {
                    assert(self.wins@.to_set() =~= old(self).wins@.to_set().remove(win));
                }
            },
        }
    }

    /// What the loop does about `input`:
    /// - quitting stops the loop only when no window is left;
    /// - a close request closes the window when its strategy agrees or has none;
    /// - a minimize event minimizes the window when its strategy agrees;
    /// - a resize hands the window's child a window resize and then a control resize,
    ///   both of the new size;
    /// - F4 going down stops the loop; Escape going down closes the window;
    /// - another key going down or up is handed to the child as pressed or released
    ///   (a key without a code is dropped);
    /// - composed and typed text is queued on the window when its active control can
    ///   edit text;
    /// - a window that cannot hand out its queued events stops the loop;
    /// - a global hotkey calls the `hotkey` slot of the window that registered it.
    pub fn step(&mut self, input: SysInput) -> (r: LoopAction)
        requires
            old(self).wf(),
            needs_window(input) ==> old(self).windows().contains(input_window(input)->0),
        ensures
            final(self).wf(),
            match r {
                LoopAction::Close(w) => final(self).windows() == old(self).windows().remove(w),
                _ => final(self).windows() == old(self).windows(),
            },
            match input {
                SysInput::Quit => if old(self).windows() == Set::<u32>::empty() {
                    r is Stop
                } else {
                    r is Nothing
                },
                SysInput::CloseRequested { win, answer } => if answer == StrategyAnswer::Decline {
                    r is Nothing
                } else {
                    r == LoopAction::Close(win)
                },
                SysInput::Minimized { win, answer } => if answer == StrategyAnswer::Accept {
                    r == LoopAction::Minimize(win)
                } else {
                    r is Nothing
                },
                SysInput::Resized { win, width, height, timestamp } => r matches LoopAction::Deliver(
                    w,
                    evs,
                ) && w == win && evs@.len() == 2 && evs@[0] == ChildEvent::WinResize(
                    WinResizeEvent { win_id: win, new_size: (width as u32, height as u32), timestamp },
                ) && evs@[1] == ChildEvent::CtrlResize(
                    CtrlResizeEvent { win_id: win, new_size: (width as u32, height as u32), timestamp },
                ),
                SysInput::KeyDown { win, key, timestamp } => match key {
                    Some(Key::F4) => r is Stop,
                    Some(Key::Escape) => r == LoopAction::Close(win),
                    Some(k) => r matches LoopAction::Deliver(w, evs) && w == win && evs@ == seq![
                        ChildEvent::Keyboard(KeyboardEvent { keycode: k, state: KeyState::Pressed, timestamp }),
                    ],
                    None => r is Nothing,
                },
                SysInput::KeyUp { win, key, timestamp } => match key {
                    Some(k) => r matches LoopAction::Deliver(w, evs) && w == win && evs@ == seq![
                        ChildEvent::Keyboard(KeyboardEvent { keycode: k, state: KeyState::Released, timestamp }),
                    ],
                    None => r is Nothing,
                },
                SysInput::TextEditing { win, text, start, length, timestamp, text_edit } => if text_edit {
                    r == LoopAction::Queue(
                        win,
                        QueuedEvent::ImEdit(
                            ImEditEvent { text, start: start as usize, length: length as usize, timestamp },
                        ),
                    )
                } else {
                    r is Nothing
                },
                SysInput::TextInput { win, text, timestamp, text_edit } => if text_edit {
                    r == LoopAction::Queue(win, QueuedEvent::TextEdit(TextEditEvent { text, timestamp }))
                } else {
                    r is Nothing
                },
                SysInput::EventsFailed => r is Stop,
                SysInput::HotKey { win, id } => r == LoopAction::HotKey(win, id),
                SysInput::Other => r is Nothing,
            },
    {
        match input {
            SysInput::Quit => {
                if self.is_empty() {
                    LoopAction::Stop
                } else {
                    LoopAction::Nothing
                }
            },
            SysInput::CloseRequested { win, answer } => {
                match answer {
                    StrategyAnswer::Decline => LoopAction::Nothing,
                    _ => {
                        self.remove(win);
                        LoopAction::Close(win)
                    },
                }
            },
            SysInput::Minimized { win, answer } => {
                match answer {
                    StrategyAnswer::Accept => LoopAction::Minimize(win),
                    _ => LoopAction::Nothing,
                }
            },
            SysInput::Resized { win, width, height, timestamp } => {
                let size = (#[verifier::truncate] (width as u32), #[verifier::truncate] (height as u32));
                let evs = vec![
                    ChildEvent::WinResize(WinResizeEvent { win_id: win, new_size: size, timestamp }),
                    ChildEvent::CtrlResize(CtrlResizeEvent { win_id: win, new_size: size, timestamp }),
                ];
                LoopAction::Deliver(win, evs)
            },
            SysInput::KeyDown { win, key, timestamp } => {
                match key {
                    Some(Key::F4) => LoopAction::Stop,
                    Some(Key::Escape) => {
                        self.remove(win);
                        LoopAction::Close(win)
                    },
                    Some(k) => LoopAction::Deliver(
                        win,
                        vec![ChildEvent::Keyboard(KeyboardEvent { keycode: k, state: KeyState::Pressed, timestamp })],
                    ),
                    None => LoopAction::Nothing,
                }
            },
            SysInput::KeyUp { win, key, timestamp } => {
                match key {
                    Some(k) => LoopAction::Deliver(
                        win,
                        vec![ChildEvent::Keyboard(KeyboardEvent { keycode: k, state: KeyState::Released, timestamp })],
                    ),
                    None => LoopAction::Nothing,
                }
            },
            SysInput::TextEditing { win, text, start, length, timestamp, text_edit } => {
                if text_edit {
                    let e = ImEditEvent::new(
                        text,
                        #[verifier::truncate] (start as usize),
                        #[verifier::truncate] (length as usize),
                        timestamp,
                    );
                    LoopAction::Queue(win, QueuedEvent::ImEdit(e))
                } else {
                    LoopAction::Nothing
                }
            },
            SysInput::TextInput { win, text, timestamp, text_edit } => {
                if text_edit {
                    LoopAction::Queue(win, QueuedEvent::TextEdit(TextEditEvent::new(text, timestamp)))
                } else {
                    LoopAction::Nothing
                }
            },
            SysInput::EventsFailed => LoopAction::Stop,
            SysInput::HotKey { win, id } => LoopAction::HotKey(win, id),
            SysInput::Other => LoopAction::Nothing,
        }
    }
}

} // verus!
