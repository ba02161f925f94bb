use depot_core::control::{box_capability, input_box_capability, list_capability, ControlCapability};
use depot_core::focus::{FocusMgr, FocusMgrInsertFailure, FocusMgrInsertState, FocusMgrQueryFailure};
use depot_core::font::{DefaultFamily, DefaultFontTable};
use depot_core::font_mgr::FontMgr;
use depot_core::id_manager::IdManager;
use depot_core::layout::{aggregate_size, event_receiver, text_pos_at, vbox_layout, InsertPosition, LayoutChild, Placement, VBox};
use depot_core::event::Key;
use depot_core::list::{ListWidget, RichListWidget};
use depot_core::shapes::Rect;

#[test]
fn ids_are_reused_last_released_first() {
    let mut m = IdManager::new();
    assert_eq!(m.get_id(), 1);
    assert_eq!(m.get_id(), 2);
    assert_eq!(m.get_id(), 3);
    m.release_id(2);
    m.release_id(1);
    m.release_id(99);
    assert_eq!(m.get_id(), 1);
    assert_eq!(m.get_id(), 2);
    assert_eq!(m.get_id(), 4);
}

#[test]
fn focus_chain_cycles_both_ways() {
    let mut f = FocusMgr::new();
    f.insert(1);
    f.insert(2);
    f.insert(3);
    f.insert(2);
    assert_eq!(f.current(), 1);
    f.next();
    assert_eq!(f.current(), 2);
    f.next();
    f.next();
    assert_eq!(f.current(), 1);
    f.prev();
    assert_eq!(f.current(), 3);
    f.prev();
    assert_eq!(f.current(), 2);
    assert!(matches!(f.query_next(3), Ok(1)));
    assert!(matches!(f.query_prev(1), Ok(3)));
    assert!(matches!(f.query_next(1), Ok(2)));
    assert!(matches!(f.query_prev(9), Err(FocusMgrQueryFailure::NotExist)));
    assert!(matches!(f.query_next(9), Err(FocusMgrQueryFailure::NotExist)));
}

#[test]
fn focus_insert_after_keeps_the_focused_control() {
    let mut f = FocusMgr::new();
    f.insert(10);
    f.insert(20);
    f.insert(30);
    f.next();
    f.next();
    assert_eq!(f.current(), 30);
    assert!(matches!(f.insert_after(99, 5), Err(FocusMgrInsertFailure::PrevNotExist)));
    assert!(matches!(f.insert_after(10, 15), Ok(FocusMgrInsertState::InsertSuccess)));
    assert_eq!(f.current(), 30);
    assert!(matches!(f.query_next(10), Ok(15)));
    assert!(matches!(f.query_next(15), Ok(20)));
    // Moving a control that is in the chain already.
    assert!(matches!(f.insert_after(20, 10), Ok(FocusMgrInsertState::MoveOrder)));
    assert!(matches!(f.query_next(20), Ok(10)));
    assert!(matches!(f.query_prev(15), Ok(30)));
    // Removing a control before the focused one keeps the focus.
    f.remove(15);
    assert!(!f.contains(15));
    assert_eq!(f.current(), 30);
    f.remove(77);
    assert_eq!(f.current(), 30);
    // set_order adds the missing predecessor at the end first.
    f.set_order(40, 50);
    assert!(matches!(f.query_next(40), Ok(50)));
    assert!(matches!(f.query_next(50), Ok(20)));
}

#[test]
fn plain_list_inserts_where_asked() {
    let mut l = ListWidget::new();
    l.insert_item("a".to_string(), None);
    l.insert_item("b".to_string(), Some(0));
    l.insert_item("c".to_string(), Some(10));
    assert_eq!(l.item_count(), 3);
}

#[test]
fn rich_list_selection_moves_and_wraps() {
    let mut l = RichListWidget::new();
    l.select_down(true);
    assert_eq!(l.selected_item(), None);
    l.insert_item("one".into(), "1".into(), None);
    l.insert_item("zero".into(), "0".into(), Some(0));
    l.insert_item("two".into(), "2".into(), Some(7));
    let texts: Vec<String> = l.item_list_ref().iter().map(|i| i.text.clone()).collect();
    assert_eq!(texts, vec!["zero", "one", "two"]);
    l.select_up(false);
    assert_eq!(l.selected_item(), Some(0));
    l.select_up(false);
    assert_eq!(l.selected_item(), Some(0));
    l.select_up(true);
    assert_eq!(l.selected_item(), Some(2));
    l.select_down(false);
    assert_eq!(l.selected_item(), Some(2));
    l.select_down(true);
    assert_eq!(l.selected_item(), Some(0));
    l.select_down(true);
    l.select_up(true);
    assert_eq!(l.selected_item(), Some(0));
    l.select_item(5);
    assert_eq!(l.selected_item(), None);
    l.select_item(1);
    assert_eq!(l.selected_item(), Some(1));
    l.unselect_item();
    assert_eq!(l.selected_item(), None);
}

#[test]
fn rich_list_rows_and_redraw() {
    let mut l = RichListWidget::new();
    assert!(!l.refresh());
    assert_eq!(l.calc_inner_height(), 3);
    l.insert_item("a".into(), "x".into(), None);
    l.insert_item("b".into(), "y".into(), None);
    assert_eq!(l.calc_inner_height(), 89);
    l.select_item(1);
    assert!(l.refresh());
    assert_eq!(l.selected_item(), Some(1));
    assert!(!l.refresh());
    l.set_size(212, 100);
    assert!(l.refresh());
    assert_eq!(l.size(), (212, 100));
    l.set_pos(5, 6);
    assert_eq!(l.pos(), (5, 6));
    let rows = l.row_layout();
    assert_eq!(rows.len(), 2);
    assert_eq!((rows[0].x, rows[0].y, rows[0].width, rows[0].height), (3, 3, 200, 40));
    assert_eq!((rows[1].x, rows[1].y, rows[1].width, rows[1].height), (3, 46, 200, 40));
    assert!(!rows[0].highlighted);
    assert!(rows[1].highlighted);
    // Clearing the rows in place drops the selection at the next drawing.
    l.item_list_mut().clear();
    assert_eq!(l.item_count(), 0);
    assert!(l.refresh());
    assert_eq!(l.selected_item(), None);
}

#[test]
fn vbox_layout_shares_free_height() {
    let children = vec![
        LayoutChild { expand: false, height: 30, preferred_height: 20 },
        LayoutChild { expand: true, height: 0, preferred_height: 5 },
        LayoutChild { expand: true, height: 7, preferred_height: 9 },
    ];
    let r = vbox_layout(&children, 10, 100, 200);
    assert_eq!(
        r,
        vec![
            Placement { y: 10, width: 100, height: 20 },
            Placement { y: 30, width: 100, height: 85 },
            Placement { y: 115, width: 100, height: 85 },
        ]
    );
    let fixed_only = vec![LayoutChild { expand: false, height: 4, preferred_height: 6 }];
    assert_eq!(vbox_layout(&fixed_only, 0, 5, 50), vec![Placement { y: 0, width: 5, height: 6 }]);
    assert!(vbox_layout(&Vec::new(), 0, 5, 50).is_empty());
}

#[test]
fn box_size_from_children() {
    assert_eq!(aggregate_size((0, 0), &vec![(5, 3), (8, 2)]), (8, 10));
    assert_eq!(aggregate_size((0, 0), &vec![(5, 30), (8, 20)]), (8, 50));
    assert_eq!(aggregate_size((0, 0), &Vec::new()), (10, 10));
    assert_eq!(aggregate_size((7, 9), &vec![(50, 50)]), (7, 9));
    let mut b = VBox::new();
    assert_eq!(b.preferred_size(&vec![(3, 4)]), (3, 10));
    assert_eq!(b.max_size(&vec![(3, 4)]), (u32::MAX, u32::MAX));
    b.set_preferred_size((40, 41));
    assert_eq!(b.preferred_size(&vec![(3, 4)]), (40, 41));
    b.set_min_size((1, 2));
    assert_eq!(b.min_size(&Vec::new()), (1, 2));
    b.set_pos(4, 5);
    b.set_size(6, 7);
    assert_eq!(b.pos(), (4, 5));
    assert_eq!(b.size(), (6, 7));
    assert_eq!(b.geometry_rect().to_tuple(), (4, 5, 6, 7));
    b.add(Some(1), false, InsertPosition::Last);
    b.add(Some(2), true, InsertPosition::First);
    b.add(None, true, InsertPosition::First);
    b.add(Some(3), false, InsertPosition::Index(1));
    b.add(Some(4), false, InsertPosition::Index(9));
}

#[test]
fn text_cursor_goes_to_the_nearer_boundary() {
    let mids = vec![5, 15, 25];
    assert_eq!(text_pos_at(&mids, 30), 3);
    assert_eq!(text_pos_at(&mids, 25), 3);
    assert_eq!(text_pos_at(&mids, 5), 0);
    assert_eq!(text_pos_at(&mids, 3), 0);
    assert_eq!(text_pos_at(&mids, 8), 0);
    assert_eq!(text_pos_at(&mids, 10), 1);
    assert_eq!(text_pos_at(&mids, 12), 1);
    assert_eq!(text_pos_at(&mids, 21), 2);
}

#[test]
fn rect_accessors() {
    let r = Rect::new(-1, 2, 3, 4);
    assert_eq!(r.pos(), (-1, 2));
    assert_eq!(r.size(), (3, 4));
    assert_eq!(r.to_tuple(), (-1, 2, 3, 4));
}

#[test]
fn default_font_table_remembers_families() {
    let mut t = DefaultFontTable::new();
    assert!(t.default_family(DefaultFamily::Serif).is_none());
    assert_eq!(t.set_default_family(DefaultFamily::Serif, "Noto Serif".into()), None);
    assert_eq!(
        t.set_default_family(DefaultFamily::Serif, "DejaVu Serif".into()),
        Some("Noto Serif".to_string())
    );
    assert_eq!(t.default_family(DefaultFamily::Serif).unwrap(), "DejaVu Serif");
    assert!(t.default_family(DefaultFamily::Monospace).is_none());
    assert_eq!(DefaultFamily::UiFont.get_fc_family_name(), "sans-serif");
    assert_eq!(DefaultFamily::Serif.get_fc_family_name(), "serif");
    assert_eq!(DefaultFamily::TerminalFont.get_fc_family_name(), "monospace");
}

#[test]
fn control_capabilities() {
    assert!(input_box_capability(ControlCapability::TextEdit));
    assert!(input_box_capability(ControlCapability::Focus));
    assert!(!input_box_capability(ControlCapability::CanInsertChild));
    assert!(list_capability(ControlCapability::Focus));
    assert!(!list_capability(ControlCapability::TextEdit));
    assert!(box_capability(ControlCapability::CanInsertMultiChildren, &Vec::new()));
    assert!(!box_capability(ControlCapability::TextEdit, &vec![false, false]));
    assert!(box_capability(ControlCapability::TextEdit, &vec![false, true]));
}

#[test]
fn fonts_by_family_and_size() {
    let mut m: FontMgr<&str> = FontMgr::new();
    assert!(!m.has_family("DejaVuSans"));
    m.load_local_font("DejaVuSans.ttf", 12, "dv12");
    m.load_local_font("DejaVuSans.ttf", 14, "dv14");
    m.load_local_font("Noto.ttf", 12, "noto12");
    m.load_local_font("DejaVuSans.ttf", 12, "dv12b");
    assert!(m.has_family("DejaVuSans"));
    assert_eq!(m.get_font("DejaVuSans", 12), Some(&"dv12b"));
    assert_eq!(m.get_font("DejaVuSans", 14), Some(&"dv14"));
    assert_eq!(m.get_font("DejaVuSans", 16), None);
    assert_eq!(m.get_font("Noto.ttf", 12), None);
    let mut sizes = m.get_family_sizes("DejaVuSans");
    sizes.sort();
    assert_eq!(sizes, vec![12, 14]);
    assert!(m.get_family_sizes("Missing").is_empty());
    let mut names = m.get_family_names();
    names.sort();
    assert_eq!(names, vec!["DejaVuSans".to_string(), "Noto".to_string()]);
    m.remove_font("DejaVuSans", 12);
    assert_eq!(m.get_font("DejaVuSans", 12), None);
    assert!(m.has_family("DejaVuSans"));
    assert_eq!(m.get_family_sizes("DejaVuSans"), vec![14]);
    m.remove_font("Missing", 12);
    m.remove_family("Noto");
    assert!(!m.has_family("Noto"));
    m.clear_fonts();
    assert!(m.get_family_names().is_empty());
}

#[test]
fn box_hands_events_to_the_first_receiver() {
    assert_eq!(event_receiver(&vec![false, true, true]), Some(1));
    assert_eq!(event_receiver(&vec![true]), Some(0));
    assert_eq!(event_receiver(&vec![false, false]), None);
    assert_eq!(event_receiver(&Vec::new()), None);
}

#[test]
fn arrow_keys_move_the_list_selection() {
    let mut l = RichListWidget::new();
    l.select_by_key(Key::Down);
    assert_eq!(l.selected_item(), None);
    l.insert_item("a".into(), "".into(), None);
    l.insert_item("b".into(), "".into(), None);
    l.select_by_key(Key::Up);
    assert_eq!(l.selected_item(), Some(0));
    l.select_by_key(Key::Up);
    assert_eq!(l.selected_item(), Some(1));
    l.select_by_key(Key::Down);
    assert_eq!(l.selected_item(), Some(0));
    l.select_by_key(Key::Return);
    assert_eq!(l.selected_item(), Some(0));
}
