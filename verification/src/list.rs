//! The models behind the list controls: their items, where new items go, and which
//! item is selected.
use vstd::prelude::*;

use crate::event::Key;
use crate::shapes::Rect;

verus! {

/// Inserting `item` at `pos` in `items`: at that index when it is inside the list,
/// at the end otherwise or when no position is given.
pub open spec fn inserted_at<T>(items: Seq<T>, item: T, pos: Option<usize>) -> Seq<T> {
    match pos {
        Some(idx) => if idx < items.len() {
            items.insert(idx as int, item)
        } else {
            items.push(item)
        },
        None => items.push(item),
    }
}

fn insert_item_at<T>(items: &mut Vec<T>, item: T, pos: Option<usize>)
    ensures
        final(items)@ == inserted_at(old(items)@, item, pos),
{
    match pos {
        Some(idx) => {
            if idx >= items.len() {
                items.push(item);
            } else {
                items.insert(idx, item);
            }
        },
        None => {
            items.push(item);
        },
    }
}

/// A row of a plain list.
pub struct ListWidgetItem {
    pub text: String,
}

impl ListWidgetItem {
    pub fn new(text: String) -> (r: Self)
        ensures
            r.text == text,
    {
        Self { text }
    }

    pub fn set_text(&mut self, text: String)
        ensures
            final(self).text == text,
    {
        self.text = text;
    }
}

/// The rows of a plain list.
pub struct ListWidget {
    items: Vec<ListWidgetItem>,
}

impl ListWidget {
    /// The texts of the rows.
    pub closed spec fn texts(&self) -> Seq<Seq<char>> {
        self.items@.map_values(|i: ListWidgetItem| i.text@)
    }

    pub fn new() -> (l: Self)
        ensures
            l.texts() == Seq::<Seq<char>>::empty(),
    {
        ListWidget { items: Vec::new() }
    }

    /// Adds a row (see [`inserted_at`]).
    pub fn insert_item(&mut self, item: String, pos: Option<usize>)
        ensures
            final(self).texts() == inserted_at(old(self).texts(), item@, pos),
    {
        let ghost t = item@;
        insert_item_at(&mut self.items, ListWidgetItem::new(item), pos);
        proof {
            let o = old(self).items@;
            let n = ListWidgetItem { text: item };
            assert(self.texts() =~= inserted_at(old(self).texts(), t, pos)) by {
                match pos {
                    Some(idx) => if idx < o.len() {
                        assert(self.items@ == o.insert(idx as int, n));
                    } else {
                    },
                    None => {},
                }
            }
        }
    }

    pub fn item_count(&self) -> (n: usize)
        ensures
            n == self.texts().len(),
    {
        self.items.len()
    }
}

/// A row of a rich list: a text with a description under it.
#[derive(Debug, Clone)]
pub struct RichListWidgetItem {
    pub text: String,
    pub desc: String,
}

impl RichListWidgetItem {
    pub fn new(text: String, desc: String) -> (r: Self)
        ensures
            r.text == text,
            r.desc == desc,
    {
        Self { text, desc }
    }
}

/// Where a row of a rich list is drawn, inside the list's own drawing area.
pub struct RowLayout {
    pub x: i32,
    pub y: i32,
    pub width: u32,
    pub height: u32,
    pub highlighted: bool,
}

/// The rows of a rich list, the selected one, and whether they need drawing again.
pub struct RichListWidget {
    items: Vec<RichListWidgetItem>,
    geometry: Rect,
    need_redraw: bool,
    old_size: usize,
    selected: Option<usize>,
}

/// The height of the drawing area for `count` rows: 43 pixels a row and a margin of 3.
pub open spec fn inner_height(count: nat) -> nat {
    count * 43 + 3
}

/// Moving the selection up from `sel` in a list of `count` rows.
pub open spec fn selected_after_up(sel: Option<usize>, count: nat, wrap: bool) -> Option<usize> {
    if count == 0 {
        sel
    } else {
        match sel {
            None => Some(0),
            Some(idx) => if idx == 0 {
                if wrap {
                    Some((count - 1) as usize)
                } else {
                    sel
                }
            } else {
                Some((idx - 1) as usize)
            },
        }
    }
}

/// Moving the selection down from `sel` in a list of `count` rows.
pub open spec fn selected_after_down(sel: Option<usize>, count: nat, wrap: bool) -> Option<usize> {
    if count == 0 {
        sel
    } else {
        match sel {
            None => Some(0),
            Some(idx) => if idx >= count - 1 {
                if wrap {
                    Some(0)
                } else {
                    sel
                }
            } else {
                Some((idx + 1) as usize)
            },
        }
    }
}

impl RichListWidget {
    /// The rows, as (text, description).
    pub closed spec fn rows(&self) -> Seq<(Seq<char>, Seq<char>)> {
        self.items@.map_values(|i: RichListWidgetItem| (i.text@, i.desc@))
    }

    pub closed spec fn selected(&self) -> Option<usize> {
        self.selected
    }

    pub closed spec fn needs_redraw(&self) -> bool {
        self.need_redraw
    }

    /// The number of rows when the list was last drawn, counting the rows added since.
    pub closed spec fn known_size(&self) -> nat {
        self.old_size as nat
    }

    /// Where the list is and how large it is.
    pub closed spec fn geometry(&self) -> Rect {
        self.geometry
    }

    pub fn new() -> (l: Self)
        ensures
            l.rows() == Seq::<(Seq<char>, Seq<char>)>::empty(),
            l.selected() is None,
            !l.needs_redraw(),
            l.known_size() == 0,
            l.geometry() == (Rect { x: 0, y: 0, w: 0, h: 0 }),
    {
        RichListWidget {
            items: Vec::new(),
            geometry: Rect::new(0, 0, 0, 0),
            need_redraw: false,
            old_size: 0,
            selected: None,
        }
    }

    /// Adds a row (see [`inserted_at`]) and asks for drawing again.
    pub fn insert_item(&mut self, item: String, desc: String, pos: Option<usize>)
        requires
            old(self).known_size() < usize::MAX,
        ensures
            final(self).rows() == inserted_at(old(self).rows(), (item@, desc@), pos),
            final(self).needs_redraw(),
            final(self).known_size() == old(self).known_size() + 1,
            final(self).geometry() == old(self).geometry(),
            final(self).selected() == old(self).selected(),
    {
        self.need_redraw = true;
        let ghost t = (item@, desc@);
        let n = RichListWidgetItem::new(item, desc);
        insert_item_at(&mut self.items, n, pos);
        proof {
            let o = old(self).items@;
            assert(self.rows() =~= inserted_at(old(self).rows(), t, pos)) by {
                match pos {
                    Some(idx) => if idx < o.len() {
                        assert(self.items@ == o.insert(idx as int, n));
                    } else {
                    },
                    None => {},
                }
            }
        }
        self.old_size = self.old_size + 1;
    }

    pub fn item_list_ref(&self) -> (r: &Vec<RichListWidgetItem>)
        ensures
            r@.map_values(|i: RichListWidgetItem| (i.text@, i.desc@)) == self.rows(),
    {
        &self.items
    }

    /// The rows, for changing them in place; asks for drawing again.
    pub fn item_list_mut(&mut self) -> (r: &mut Vec<RichListWidgetItem>)
        ensures
            r@.map_values(|i: RichListWidgetItem| (i.text@, i.desc@)) == old(self).rows(),
            final(self).rows() == final(r)@.map_values(
                |i: RichListWidgetItem| (i.text@, i.desc@),
            ),
            final(self).needs_redraw(),
            final(self).selected() == old(self).selected(),
            final(self).known_size() == old(self).known_size(),
            final(self).geometry() == old(self).geometry(),
    {
        self.need_redraw = true;
        &mut self.items
    }

    pub fn item_count(&self) -> (n: usize)
        ensures
            n == self.rows().len(),
    {
        self.items.len()
    }

    /// Selects the row above; the first row when nothing is selected; the last row
    /// from the first when `wrap` is set.
    pub fn select_up(&mut self, wrap: bool)
        ensures
            final(self).selected() == selected_after_up(
                old(self).selected(),
                old(self).rows().len(),
                wrap,
            ),
            final(self).rows() == old(self).rows(),
            final(self).needs_redraw() == old(self).needs_redraw(),
            final(self).known_size() == old(self).known_size(),
            final(self).geometry() == old(self).geometry(),
    {
        if self.items.len() == 0 {
            return;
        }
        match self.selected {
            None => {
                self.selected = Some(0);
            },
            Some(idx) => {
                if idx == 0 {
                    if wrap {
                        self.selected = Some(self.item_count() - 1);
                    }
                } else {
                    self.selected = Some(idx - 1);
                }
            },
        }
    }

    /// Selects the row below; the first row when nothing is selected; the first row
    /// from the last when `wrap` is set.
    pub fn select_down(&mut self, wrap: bool)
        ensures
            final(self).selected() == selected_after_down(
                old(self).selected(),
                old(self).rows().len(),
                wrap,
            ),
            final(self).rows() == old(self).rows(),
            final(self).needs_redraw() == old(self).needs_redraw(),
            final(self).known_size() == old(self).known_size(),
            final(self).geometry() == old(self).geometry(),
    {
        if self.items.len() == 0 {
            return;
        }
        match self.selected {
            None => {
                self.selected = Some(0);
            },
            Some(idx) => {
                if idx >= self.item_count() - 1 {
                    if wrap {
                        self.selected = Some(0);
                    }
                } else {
                    self.selected = Some(idx + 1);
                }
            },
        }
    }

    /// Selects row `idx`, or nothing when there is no such row; asks for drawing again.
    pub fn select_item(&mut self, idx: usize)
        ensures
            final(self).selected() == if idx < old(self).rows().len() {
                Some(idx)
            } else {
                None::<usize>
            },
            final(self).rows() == old(self).rows(),
            final(self).needs_redraw(),
            final(self).known_size() == old(self).known_size(),
            final(self).geometry() == old(self).geometry(),
    {
        self.selected = if idx < self.item_count() {
            Some(idx)
        } else {
            None
        };
        self.need_redraw = true;
    }

    /// What an arrow key does to the list: with nothing selected, any key selects the
    /// first row; otherwise Up and Down move the selection, wrapping around, and
    /// other keys do nothing.
    pub fn select_by_key(&mut self, key: Key)
        ensures
            final(self).rows() == old(self).rows(),
            final(self).geometry() == old(self).geometry(),
            final(self).known_size() == old(self).known_size(),
            old(self).selected() is None ==> {
                &&& final(self).selected() == if 0 < old(self).rows().len() {
                    Some(0usize)
                } else {
                    None::<usize>
                }
                &&& final(self).needs_redraw()
            },
            old(self).selected() is Some ==> final(self).needs_redraw() == old(self).needs_redraw()
                && final(self).selected() == match key {
                Key::Up => selected_after_up(old(self).selected(), old(self).rows().len(), true),
                Key::Down => selected_after_down(old(self).selected(), old(self).rows().len(), true),
                _ => old(self).selected(),
            },
    {
        if self.selected.is_none() {
            self.select_item(0);
        } else {
            match key {
                Key::Up => self.select_up(true),
                Key::Down => self.select_down(true),
                _ => {},
            }
        }
    }

    pub fn selected_item(&self) -> (r: Option<usize>)
        ensures
            r == self.selected(),
    {
        self.selected
    }

    pub fn unselect_item(&mut self)
        ensures
            final(self).selected() is None,
            final(self).rows() == old(self).rows(),
            final(self).needs_redraw() == old(self).needs_redraw(),
            final(self).known_size() == old(self).known_size(),
            final(self).geometry() == old(self).geometry(),
    {
        self.selected = None;
    }

    /// The height of the drawing area for the rows (see [`inner_height`]).
    /// The height is taken as a `u32`, truncated.
    pub fn calc_inner_height(&self) -> (h: u32)
        requires
            inner_height(self.rows().len()) <= usize::MAX,
        ensures
            h == (inner_height(self.rows().len()) as u32),
    {
        #[verifier::truncate] ((self.items.len() * 43 + 3) as u32)
    }

    pub fn set_pos(&mut self, x: i32, y: i32)
        ensures
            final(self).geometry() == (Rect { x, y, w: old(self).geometry().w, h: old(self).geometry().h }),
            final(self).rows() == old(self).rows(),
            final(self).selected() == old(self).selected(),
            final(self).needs_redraw() == old(self).needs_redraw(),
            final(self).known_size() == old(self).known_size(),
    {
        self.geometry.x = x;
        self.geometry.y = y;
    }

    /// Resizes the list and asks for drawing again. The drawing area is 6 pixels
    /// narrower than the list, so the list is at least that wide.
    pub fn set_size(&mut self, width: u32, height: u32)
        requires
            width >= 6,
        ensures
            final(self).geometry() == (Rect { x: old(self).geometry().x, y: old(self).geometry().y, w: width, h: height }),
            final(self).rows() == old(self).rows(),
            final(self).selected() == old(self).selected(),
            final(self).needs_redraw(),
            final(self).known_size() == old(self).known_size(),
    {
        self.need_redraw = true;
        self.geometry.w = width;
        self.geometry.h = height;
    }

    /// Moves and resizes the list and asks for drawing again (see
    /// [`RichListWidget::set_size`]).
    pub fn set_geometry(&mut self, r: Rect)
        requires
            r.w >= 6,
        ensures
            final(self).geometry() == r,
            final(self).rows() == old(self).rows(),
            final(self).selected() == old(self).selected(),
            final(self).needs_redraw(),
            final(self).known_size() == old(self).known_size(),
    {
        self.need_redraw = true;
        self.geometry = r;
    }

    pub fn pos(&self) -> (p: (i32, i32))
        ensures
            p == (self.geometry().x, self.geometry().y),
    {
        (self.geometry.x, self.geometry.y)
    }

    pub fn size(&self) -> (s: (u32, u32))
        ensures
            s == (self.geometry().w, self.geometry().h),
    {
        (self.geometry.w, self.geometry.h)
    }

    /// Before drawing the rows: tells whether they need drawing; if so, drops the
    /// selection when the rows were changed in place since the last drawing, takes
    /// the row count as known and clears the request.
    pub fn refresh(&mut self) -> (draw: bool)
        ensures
            draw == old(self).needs_redraw(),
            final(self).geometry() == old(self).geometry(),
            final(self).rows() == old(self).rows(),
            !draw ==> final(self).selected() == old(self).selected() && final(self).known_size()
                == old(self).known_size() && !final(self).needs_redraw(),
            draw ==> {
                &&& final(self).selected() == if old(self).known_size() != old(
                    self,
                ).rows().len() {
                    None::<usize>
                } else {
                    old(self).selected()
                }
                &&& final(self).known_size() == old(self).rows().len()
                &&& !final(self).needs_redraw()
            },
    {
        if !self.need_redraw {
            return false;
        }
        if self.old_size != self.items.len() {
            self.selected = None;
        }
        self.old_size = self.items.len();
        self.need_redraw = false;
        true
    }

    /// Where each row is drawn in the drawing area: row `i` at (3, 3 + 43 i), 12 pixels
    /// narrower than the list and 40 high, highlighted when it is the selected one.
    pub fn row_layout(&self) -> (rows: Vec<RowLayout>)
        requires
            inner_height(self.rows().len()) <= i32::MAX,
            self.geometry().w >= 12,
        ensures
            rows@.len() == self.rows().len(),
            forall|i: int|
                #![trigger rows@[i]]
                0 <= i < rows@.len() ==> {
                    &&& rows@[i].x == 3
                    &&& rows@[i].y == 3 + 43 * i
                    &&& rows@[i].width == self.geometry().w - 12
                    &&& rows@[i].height == 40
                    &&& rows@[i].highlighted == (self.selected() == Some(i as usize))
                },
    {
        let width = self.geometry.w - 12;
        let mut rows: Vec<RowLayout> = Vec::new();
        let mut current_y: i32 = 3;
        let n = self.items.len();
        let mut idx: usize = 0;
        while idx < n
            invariant
                n == self.rows().len(),
                width == self.geometry().w - 12,
                inner_height(n as nat) <= i32::MAX,
                idx <= n,
                rows@.len() == idx,
                current_y == 3 + 43 * idx,
                forall|i: int|
                    #![trigger rows@[i]]
                    0 <= i < idx ==> {
                        &&& rows@[i].x == 3
                        &&& rows@[i].y == 3 + 43 * i
                        &&& rows@[i].width == width
                        &&& rows@[i].height == 40
                        &&& rows@[i].highlighted == (self.selected() == Some(i as usize))
                    },
            decreases n - idx,
        {
            let highlighted = match self.selected {
                Some(s) => s == idx,
                None => false,
            };
            let ghost before = rows@;
            rows.push(RowLayout { x: 3, y: current_y, width, height: 40, highlighted });
            assert forall|i: int| 0 <= i < idx implies #[trigger] rows@[i] == before[i] by {}
            assert(rows@[idx as int].highlighted == (self.selected() == Some(idx)));
            assert(43 * (idx + 1) + 3 <= 43 * n + 3) by (nonlinear_arith)
                requires
                    idx + 1 <= n,
            ;
            current_y = current_y + 43;
            idx = idx + 1;
            assert forall|i: int| #![trigger rows@[i]] 0 <= i < idx implies {
                &&& rows@[i].x == 3
                &&& rows@[i].y == 3 + 43 * i
                &&& rows@[i].width == width
                &&& rows@[i].height == 40
                &&& rows@[i].highlighted == (self.selected() == Some(i as usize))
            } by {
                if i < idx - 1 {
                    assert(rows@[i] == before[i]);
                    assert(before[i].x == 3);
                    assert(before[i].y == 3 + 43 * i);
                    assert(before[i].highlighted == (self.selected() == Some(i as usize)));
                } else {
                    assert(rows@[i].x == 3);
                    assert(rows@[i].y == 3 + 43 * i);
                    assert(rows@[i].highlighted == (self.selected() == Some(i as usize)));
                }
            }
        }
        rows
    }
}

/// With wrapping, moving the selection down and then up comes back to the same row.
pub proof fn lemma_down_then_up(sel: usize, count: nat)
    requires
        sel < count <= usize::MAX,
    ensures
        selected_after_up(selected_after_down(Some(sel), count, true), count, true) == Some(sel),
        selected_after_down(selected_after_up(Some(sel), count, true), count, true) == Some(sel),
{
}

/// A selection inside the list stays inside it when moved.
pub proof fn lemma_selection_stays_in_range(sel: Option<usize>, count: nat, wrap: bool)
    requires
        count <= usize::MAX,
        sel matches Some(i) ==> i < count,
    ensures
        selected_after_up(sel, count, wrap) matches Some(i) ==> i < count,
        selected_after_down(sel, count, wrap) matches Some(i) ==> i < count,
{
}

/// Moving the selection goes one row in the asked direction: up selects the row just
/// above and down the row just below, except that up from the first row and down from
/// the last stay, or wrap to the other end when `wrap` is set; with nothing selected
/// either selects the first row.
pub proof fn lemma_selection_moves_one_row(sel: Option<usize>, count: nat, wrap: bool)
    requires
        0 < count <= usize::MAX,
        sel matches Some(i) ==> i < count,
    ensures
        sel is None ==> selected_after_up(sel, count, wrap) == Some(0usize) && selected_after_down(
            sel,
            count,
            wrap,
        ) == Some(0usize),
        sel matches Some(i) ==> {
            &&& i > 0 ==> selected_after_up(sel, count, wrap)->0 + 1 == i
            &&& i == 0 ==> selected_after_up(sel, count, wrap) == if wrap {
                Some((count - 1) as usize)
            } else {
                sel
            }
            &&& i + 1 < count ==> selected_after_down(sel, count, wrap)->0 == i + 1
            &&& i + 1 == count ==> selected_after_down(sel, count, wrap) == if wrap {
                Some(0usize)
            } else {
                sel
            }
        },
{
}

/// A new row lands where it was asked: at the index when it lies inside the list, at
/// the end otherwise; the other rows keep their order.
pub proof fn lemma_inserted_row_placement<T>(items: Seq<T>, item: T, pos: Option<usize>)
    ensures
        inserted_at(items, item, pos).len() == items.len() + 1,
        ({
            let p = match pos {
                Some(i) => if i < items.len() {
                    i as int
                } else {
                    items.len() as int
                },
                None => items.len() as int,
            };
            &&& inserted_at(items, item, pos)[p] == item
            &&& inserted_at(items, item, pos).remove(p) == items
        }),
{
    match pos {
        Some(i) => if i < items.len() {
            assert(items.insert(i as int, item).remove(i as int) =~= items);
        } else {
            assert(items.push(item).remove(items.len() as int) =~= items);
        },
        None => {
            assert(items.push(item).remove(items.len() as int) =~= items);
        },
    }
}

/// Each row makes the drawing area 43 pixels higher, over a margin of 3.
pub proof fn lemma_inner_height_per_row(count: nat)
    ensures
        inner_height(0) == 3,
        inner_height(count + 1) == inner_height(count) + 43,
{
}

} // verus!
