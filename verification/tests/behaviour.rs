use depot_core::app_loop::{AppLoop, ChildEvent, LoopAction, QueuedEvent, StrategyAnswer, SysInput};
use depot_core::dylib::CInvoke;
use depot_core::event::{
    box_reaction, key_edit_action, BoxEvent, BoxReaction, CtrlResizeEvent, EditAction, Event, EventType,
    GainFocusEvent, ImEditEvent, Key, KeyState, KeyboardEvent, LoseFocusEvent, Motion, MouseEvent,
    MouseEventType, TextEditEvent,
};
use depot_core::control::ControlCapability;
use depot_core::handle::{weak_handles_equal, Freed, HandleCounts};
use depot_core::input_area::{InputArea, InputAreaEvent};
use depot_core::kit::KitCore;
use depot_core::search::SearchEngine;
use depot_core::stack::Stack;

#[test]
fn quit_stops_only_without_windows() {
    let mut l = AppLoop::new();
    assert!(l.is_empty());
    assert!(matches!(l.step(SysInput::Quit), LoopAction::Stop));
    l.register(1);
    l.register(2);
    l.register(1);
    assert!(l.is_open(1) && l.is_open(2) && !l.is_open(3));
    assert!(matches!(l.step(SysInput::Quit), LoopAction::Nothing));
    assert!(matches!(l.step(SysInput::Other), LoopAction::Nothing));
    assert!(matches!(l.step(SysInput::EventsFailed), LoopAction::Stop));
    assert!(matches!(l.step(SysInput::HotKey { win: 2, id: 7 }), LoopAction::HotKey(2, 7)));
}

#[test]
fn close_and_minimize_follow_the_strategy() {
    let mut l = AppLoop::new();
    l.register(1);
    l.register(2);
    let declined = l.step(SysInput::CloseRequested { win: 1, answer: StrategyAnswer::Decline });
    assert!(matches!(declined, LoopAction::Nothing));
    assert!(l.is_open(1));
    let unset = l.step(SysInput::CloseRequested { win: 1, answer: StrategyAnswer::NotSet });
    assert!(matches!(unset, LoopAction::Close(1)));
    assert!(!l.is_open(1));
    let accepted = l.step(SysInput::Minimized { win: 2, answer: StrategyAnswer::Accept });
    assert!(matches!(accepted, LoopAction::Minimize(2)));
    let unset = l.step(SysInput::Minimized { win: 2, answer: StrategyAnswer::NotSet });
    assert!(matches!(unset, LoopAction::Nothing));
    assert!(matches!(l.step(SysInput::KeyDown { win: 2, key: Some(Key::Escape), timestamp: 1 }), LoopAction::Close(2)));
    assert!(l.is_empty());
    assert!(matches!(l.step(SysInput::Quit), LoopAction::Stop));
}

#[test]
fn window_events_reach_the_child() {
    let mut l = AppLoop::new();
    l.register(2);
    match l.step(SysInput::Resized { win: 2, width: 640, height: -1, timestamp: 7 }) {
        LoopAction::Deliver(2, evs) => {
            assert_eq!(evs.len(), 2);
            match (&evs[0], &evs[1]) {
                (ChildEvent::WinResize(a), ChildEvent::CtrlResize(b)) => {
                    assert_eq!((a.win_id, a.new_size, a.timestamp), (2, (640, u32::MAX), 7));
                    assert_eq!((b.win_id, b.new_size, b.timestamp), (2, (640, u32::MAX), 7));
                }
                _ => panic!("a window resize, then a control resize"),
            }
        }
        _ => panic!("a resize is delivered"),
    }
    match l.step(SysInput::KeyDown { win: 2, key: Some(Key::Up), timestamp: 3 }) {
        LoopAction::Deliver(2, evs) => match &evs[..] {
            [ChildEvent::Keyboard(k)] => {
                assert_eq!((k.keycode, k.state, k.timestamp), (Key::Up, KeyState::Pressed, 3));
            }
            _ => panic!("one keyboard event"),
        },
        _ => panic!("a key is delivered"),
    }
    match l.step(SysInput::KeyUp { win: 2, key: Some(Key::Other), timestamp: 4 }) {
        LoopAction::Deliver(2, evs) => match &evs[..] {
            [ChildEvent::Keyboard(k)] => assert_eq!(k.state, KeyState::Released),
            _ => panic!("one keyboard event"),
        },
        _ => panic!("a key is delivered"),
    }
    assert!(matches!(l.step(SysInput::KeyUp { win: 2, key: None, timestamp: 4 }), LoopAction::Nothing));
    assert!(matches!(l.step(SysInput::KeyDown { win: 9, key: Some(Key::F4), timestamp: 5 }), LoopAction::Stop));
    assert!(l.is_open(2));
}

#[test]
fn text_is_queued_only_for_text_controls() {
    let mut l = AppLoop::new();
    l.register(3);
    let ime = SysInput::TextEditing { win: 3, text: "ni".into(), start: 1, length: 2, timestamp: 9, text_edit: true };
    match l.step(ime) {
        LoopAction::Queue(3, QueuedEvent::ImEdit(e)) => {
            assert_eq!((e.text.as_str(), e.start, e.length, e.timestamp), ("ni", 1, 2, 9));
        }
        _ => panic!("composed text is queued"),
    }
    let typed = SysInput::TextInput { win: 3, text: "a".into(), timestamp: 1, text_edit: true };
    assert!(matches!(l.step(typed), LoopAction::Queue(3, QueuedEvent::TextEdit(e)) if e.text == "a"));
    let ignored = SysInput::TextInput { win: 3, text: "a".into(), timestamp: 1, text_edit: false };
    assert!(matches!(l.step(ignored), LoopAction::Nothing));
}

#[test]
fn handle_counts_borrow_and_free() {
    let mut c = HandleCounts::new();
    c.clone_strong();
    assert!(c.try_borrow());
    assert!(!c.try_borrow_mut());
    c.release_borrow();
    assert!(c.try_borrow_mut());
    assert!(!c.try_borrow());
    c.release_borrow_mut();
    c.borrow();
    c.release_borrow();
    c.borrow_mut();
    c.release_borrow_mut();
    c.clone_weak();
    assert_eq!(c.drop_strong(), Freed { data: false, counts: false });
    assert!(c.upgrade());
    assert_eq!(c.drop_strong(), Freed { data: false, counts: false });
    assert!(c.is_alive());
    assert_eq!(c.drop_strong(), Freed { data: true, counts: false });
    assert!(!c.is_alive());
    assert!(!c.upgrade());
    assert!(!c.weak_borrow());
    assert!(!c.weak_borrow_mut());
    assert!(!c.weak_try_borrow());
    assert!(c.drop_weak());
    let mut e = HandleCounts::empty();
    assert_eq!(e, HandleCounts { strong: 0, weak: 1, borrow: 0 });
    assert!(e.drop_weak());
}

#[test]
fn weak_handle_borrows() {
    let mut c = HandleCounts::new();
    c.clone_weak();
    assert!(c.weak_borrow());
    assert_eq!(c.borrow, 1);
    c.release_borrow();
    assert!(c.weak_borrow_mut());
    assert_eq!(c.borrow, -1);
    // The weak `try_borrow` succeeds only on a negative count, as written.
    assert!(c.weak_try_borrow());
    assert_eq!(c.borrow, 0);
    assert!(!c.weak_try_borrow());
    assert!(!c.weak_try_borrow_mut());
    c.borrow();
    assert!(c.weak_try_borrow_mut());
    assert_eq!(c.borrow, 0);
    assert_eq!(c.drop_strong(), Freed { data: true, counts: false });
}

#[test]
fn input_area_edits() {
    let mut a = InputArea::new();
    assert_eq!(a.text(), "");
    a.event(InputAreaEvent::TextInput { text: "h\u{e9}llo".into() });
    assert_eq!(a.text(), "h\u{e9}llo");
    assert_eq!(a.cursor_pos(), 6);
    a.event(InputAreaEvent::CursorMove { offset: -2 });
    assert_eq!(a.cursor_pos(), 4);
    a.event(InputAreaEvent::StartSelection);
    assert_eq!(a.selection(), Some((4, 4)));
    a.event(InputAreaEvent::CursorMove { offset: -10 });
    assert_eq!(a.cursor_pos(), 0);
    assert_eq!(a.selection(), Some((0, 4)));
    a.event(InputAreaEvent::CursorMove { offset: 100 });
    assert_eq!(a.cursor_pos(), 6);
    assert_eq!(a.selection(), Some((0, 6)));
    a.event(InputAreaEvent::EndSelection);
    assert_eq!(a.selection(), None);
    a.event(InputAreaEvent::TextEditing { text: "XY".into(), start: 0, length: 1 });
    assert_eq!(a.text(), "XY\u{e9}llo");
    assert_eq!(a.composing(), Some((0, 1)));
    assert_eq!(a.cursor_pos(), 1);
    a.event(InputAreaEvent::TextInput { text: "!".into() });
    assert_eq!(a.text(), "X!Y\u{e9}llo");
    assert_eq!(a.cursor_pos(), 2);
    assert_eq!(a.composing(), None);
}

#[test]
fn keys_ask_edit_actions() {
    let press = |k| KeyboardEvent { keycode: k, state: KeyState::Pressed, timestamp: 0 };
    assert_eq!(key_edit_action(&press(Key::Backspace)), Some(EditAction::Backspace));
    assert_eq!(key_edit_action(&press(Key::Return)), Some(EditAction::Enter));
    assert_eq!(key_edit_action(&press(Key::PageDown)), Some(EditAction::Motion(Motion::PageDown)));
    assert_eq!(key_edit_action(&press(Key::Escape)), None);
    let release = KeyboardEvent { keycode: Key::Left, state: KeyState::Released, timestamp: 0 };
    assert_eq!(key_edit_action(&release), None);
}

#[test]
fn input_box_reacts_to_events() {
    let resize = BoxEvent::CtrlResize(CtrlResizeEvent { win_id: 1, new_size: (30, 40), timestamp: 0 });
    assert!(matches!(box_reaction(resize), BoxReaction::Resize(30, 40)));
    let typed = BoxEvent::TextEdit(TextEditEvent::new("abc".into(), 5));
    assert!(matches!(box_reaction(typed), BoxReaction::Insert(t) if t == "abc"));
    let ime = BoxEvent::ImEdit(ImEditEvent::new("x".into(), 0, 1, 5));
    assert!(matches!(box_reaction(ime), BoxReaction::Accept));
    assert!(matches!(box_reaction(BoxEvent::GainFocus(GainFocusEvent)), BoxReaction::GainFocus));
    assert!(matches!(box_reaction(BoxEvent::LoseFocus(LoseFocusEvent)), BoxReaction::LoseFocus));
    let left = BoxEvent::Keyboard(KeyboardEvent { keycode: Key::Left, state: KeyState::Pressed, timestamp: 0 });
    assert!(matches!(box_reaction(left), BoxReaction::Edit(EditAction::Motion(Motion::Left))));
    let f4 = BoxEvent::Keyboard(KeyboardEvent { keycode: Key::F4, state: KeyState::Pressed, timestamp: 0 });
    assert!(matches!(box_reaction(f4), BoxReaction::Ignore));
    assert!(matches!(box_reaction(BoxEvent::Other), BoxReaction::Ignore));
}

#[test]
fn events_describe_themselves() {
    let t = TextEditEvent::new("a".into(), 12);
    assert_eq!(t.name(), "TextEditEvent");
    assert_eq!(t.timestamp(), 12);
    assert_eq!(t.event_type(), EventType::Direct);
    assert_eq!(t.required_capabilities(), vec![ControlCapability::TextEdit]);
    let m = MouseEvent { event_type: MouseEventType::Move(1, 2), timestamp: 3 };
    assert_eq!(m.event_type(), EventType::Tunnel);
    assert_eq!(m.required_capabilities(), vec![ControlCapability::Focus]);
    let r = CtrlResizeEvent { win_id: 1, new_size: (1, 1), timestamp: 8 };
    assert_eq!(r.timestamp(), 8);
    assert!(r.required_capabilities().is_empty());
    assert_eq!(CInvoke::Leave, CInvoke::Leave);
}

#[test]
fn kit_selector_saturates() {
    let mut k = KitCore::with_stack(Stack::new("hello"));
    k.selector_down();
    assert_eq!(k.selector_pos(), 0);
    k.selector_up();
    k.selector_up();
    assert_eq!(k.selector_pos(), 2);
    k.selector_down();
    assert_eq!(k.selector_pos(), 1);
    assert_eq!(k.stack().read(0).unwrap().description, "hello");
}

#[test]
fn search_ranks_matches_and_keeps_ties_in_order() {
    let mut e = SearchEngine::new();
    e.push("ab".to_string(), 1);
    e.push("zzz".to_string(), 2);
    e.push("ab".to_string(), 3);
    e.search("ab");
    assert_eq!(e.get(0), Some(&1));
    assert_eq!(e.get(1), Some(&3));
    assert_eq!(e.get(2), None);
    e.search("");
    assert_eq!(e.get(0), Some(&1));
    assert_eq!(e.get(1), Some(&2));
    assert_eq!(e.get(2), Some(&3));
    e.search("q");
    assert_eq!(e.get(0), None);
    // The same search gives the same ranking again.
    e.search("ab");
    let first: Vec<Option<i32>> = (0..3).map(|i| e.get(i).copied()).collect();
    e.search("ab");
    let second: Vec<Option<i32>> = (0..3).map(|i| e.get(i).copied()).collect();
    assert_eq!(first, second);
}

#[test]
fn weak_handles_compare_by_control() {
    let alive = HandleCounts { strong: 1, weak: 1, borrow: 0 };
    let dead = HandleCounts { strong: 0, weak: 1, borrow: 0 };
    assert!(weak_handles_equal(&alive, &alive, true));
    assert!(!weak_handles_equal(&alive, &alive, false));
    assert!(weak_handles_equal(&dead, &dead, false));
    assert!(!weak_handles_equal(&alive, &dead, true));
}
