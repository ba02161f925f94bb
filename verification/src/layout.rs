//! Laying out the children of a vertical box, and the sizes a box asks for.
use vstd::prelude::*;

use crate::id_manager::IdType;
use crate::shapes::Rect;

verus! {

/// Where to add a child.
pub enum InsertPosition {
    First,
    Last,
    Index(usize),
}

/// The children after adding `c` at `pos`: first, last, or at the index when it is
/// inside the list and last otherwise.
pub open spec fn added_at<T>(s: Seq<T>, c: T, pos: InsertPosition) -> Seq<T> {
    match pos {
        InsertPosition::First => s.insert(0, c),
        InsertPosition::Last => s.push(c),
        InsertPosition::Index(idx) => if idx >= s.len() {
            s.push(c)
        } else {
            s.insert(idx as int, c)
        },
    }
}

/// A child of a box: the control's id and whether it takes a share of the free space.
#[derive(Clone, Copy)]
pub struct BoxChild {
    pub id: IdType,
    pub expand: bool,
}

/// What the layout needs of a child of a vertical box.
#[derive(Clone, Copy)]
pub struct LayoutChild {
    pub expand: bool,
    /// Its current height.
    pub height: u32,
    /// The height it prefers.
    pub preferred_height: u32,
}

/// Where a child of a vertical box goes.
#[derive(Clone, Copy, Debug, PartialEq, Eq)]
pub struct Placement {
    pub y: i32,
    pub width: u32,
    pub height: u32,
}

/// The number of expanding children among the first `k`.
pub open spec fn expand_count(s: Seq<LayoutChild>, k: int) -> nat
    decreases k,
{
    if k <= 0 {
        0
    } else {
        expand_count(s, k - 1) + if s[k - 1].expand {
            1nat
        } else {
            0nat
        }
    }
}

/// The current heights of the non-expanding children among the first `k`.
pub open spec fn fixed_height(s: Seq<LayoutChild>, k: int) -> nat
    decreases k,
{
    if k <= 0 {
        0
    } else {
        fixed_height(s, k - 1) + if s[k - 1].expand {
            0nat
        } else {
            s[k - 1].height as nat
        }
    }
}

/// The share of the free height that each expanding child gets: the box height less
/// the current heights of the fixed children, divided among the expanding ones (one
/// at least, the count taken as a `u32`).
pub open spec fn expand_share(s: Seq<LayoutChild>, h: u32) -> int {
    let c = expand_count(s, s.len() as int);
    let d = ((if c == 0 {
        1nat
    } else {
        c
    }) as usize) as u32;
    (h - fixed_height(s, s.len() as int)) / (d as int)
}

/// The height a child is given: the share for an expanding one, its preferred
/// height for a fixed one.
pub open spec fn given_height(c: LayoutChild, share: int) -> int {
    if c.expand {
        share
    } else {
        c.preferred_height as int
    }
}

/// The top of child `k`: the box top plus the heights given to the children above,
/// each taken as an `i32`.
pub open spec fn child_top(s: Seq<LayoutChild>, top: i32, share: int, k: int) -> int
    decreases k,
{
    if k <= 0 {
        top as int
    } else {
        child_top(s, top, share, k - 1) + ((given_height(s[k - 1], share) as u32) as i32)
    }
}

/// The layout can be computed: the fixed heights sum up within a `u32` and fit in the
/// box, the divisor is not zero, and the tops stay within an `i32`.
pub open spec fn layout_ok(s: Seq<LayoutChild>, top: i32, h: u32) -> bool {
    let c = expand_count(s, s.len() as int);
    &&& fixed_height(s, s.len() as int) <= h
    &&& (((if c == 0 {
        1nat
    } else {
        c
    }) as usize) as u32) != 0
    &&& forall|k: int|
        0 < k <= s.len() ==> i32::MIN <= #[trigger] child_top(s, top, expand_share(s, h), k)
            <= i32::MAX
}

proof fn lemma_fixed_height_monotone(s: Seq<LayoutChild>, j: int, k: int)
    requires
        0 <= j <= k <= s.len(),
    ensures
        fixed_height(s, j) <= fixed_height(s, k),
    decreases k - j,
{
    if j < k {
        lemma_fixed_height_monotone(s, j, k - 1);
    }
}

/// Lays out the children of a vertical box at `top` that is `w` wide and `h` high:
/// each child gets the full width, the height of [`given_height`], and the top of
/// [`child_top`].
pub fn vbox_layout(children: &Vec<LayoutChild>, top: i32, w: u32, h: u32) -> (r: Vec<Placement>)
    requires
        layout_ok(children@, top, h),
    ensures
        r@.len() == children@.len(),
        forall|k: int|
            #![trigger r@[k]]
            0 <= k < r@.len() ==> {
                &&& r@[k].y == child_top(children@, top, expand_share(children@, h), k)
                &&& r@[k].width == w
                &&& r@[k].height == given_height(children@[k], expand_share(children@, h))
            },
{
    let ghost s = children@;
    let n = children.len();
    let mut count: usize = 0;
    let mut fixed: u32 = 0;
    let mut i: usize = 0;
    while i < n
        invariant
            n == s.len(),
            s == children@,
            i <= n,
            count == expand_count(s, i as int),
            count <= i,
            fixed == fixed_height(s, i as int),
            fixed_height(s, n as int) <= h,
        decreases n - i,
    {
        proof {
            lemma_fixed_height_monotone(s, i + 1, n as int);
        }
        if children[i].expand {
            count = count + 1;
        } else {
            fixed = fixed + children[i].height;
        }
        i = i + 1;
    }
    let divisor: usize = if count > 1 {
        count
    } else {
        1
    };
    let rest_height = h - fixed;
    let share = rest_height / (#[verifier::truncate] (divisor as u32));
    let mut y: i32 = top;
    let mut r: Vec<Placement> = Vec::new();
    let mut k: usize = 0;
    while k < n
        invariant
            n == s.len(),
            s == children@,
            k <= n,
            share == expand_share(s, h),
            layout_ok(s, top, h),
            y == child_top(s, top, share as int, k as int),
            r@.len() == k,
            forall|j: int|
                #![trigger r@[j]]
                0 <= j < k ==> {
                    &&& r@[j].y == child_top(s, top, share as int, j)
                    &&& r@[j].width == w
                    &&& r@[j].height == given_height(s[j], share as int)
                },
        decreases n - k,
    {
        let c = children[k];
        let new_height = if c.expand {
            share
        } else {
            c.preferred_height
        };
        let ghost before = r@;
        r.push(Placement { y, width: w, height: new_height });
        proof {
            let gh = given_height(s[k as int], share as int);
            assert(gh == new_height as int);
            assert((gh as u32) == new_height);
            assert(child_top(s, top, share as int, k + 1) == y + ((new_height as u32) as i32));
            assert(0 < k + 1 <= s.len());
            assert(i32::MIN <= child_top(s, top, expand_share(s, h), k + 1) <= i32::MAX);
        }
        y = y + (#[verifier::truncate] (new_height as i32));
        k = k + 1;
        assert forall|j: int| #![trigger r@[j]] 0 <= j < k implies {
            &&& r@[j].y == child_top(s, top, share as int, j)
            &&& r@[j].width == w
            &&& r@[j].height == given_height(s[j], share as int)
        } by {
            if j < k - 1 {
                assert(r@[j] == before[j]);
            }
        }
    }
    r
}

/// The size a box asks for: its own setting unless that is (0, 0); otherwise the widest
/// of the children's widths (10 without children) by the sum of their heights (10 at
/// least).
pub open spec fn aggregate(own: (u32, u32), children: Seq<(u32, u32)>) -> (int, int) {
    if own == (0u32, 0u32) {
        (
            if children.len() == 0 {
                10
            } else {
                max_width(children, children.len() as int)
            },
            if height_sum(children, children.len() as int) < 10 {
                10
            } else {
                height_sum(children, children.len() as int) as int
            },
        )
    } else {
        (own.0 as int, own.1 as int)
    }
}

/// The widest of the first `k` widths.
pub open spec fn max_width(s: Seq<(u32, u32)>, k: int) -> int
    decreases k,
{
    if k <= 0 {
        0
    } else if k == 1 {
        s[0].0 as int
    } else {
        let m = max_width(s, k - 1);
        if s[k - 1].0 > m {
            s[k - 1].0 as int
        } else {
            m
        }
    }
}

/// The sum of the first `k` heights.
pub open spec fn height_sum(s: Seq<(u32, u32)>, k: int) -> nat
    decreases k,
{
    if k <= 0 {
        0
    } else {
        height_sum(s, k - 1) + s[k - 1].1 as nat
    }
}

proof fn lemma_height_sum_monotone(s: Seq<(u32, u32)>, j: int, k: int)
    requires
        0 <= j <= k <= s.len(),
    ensures
        height_sum(s, j) <= height_sum(s, k),
    decreases k - j,
{
    if j < k {
        lemma_height_sum_monotone(s, j, k - 1);
    }
}

proof fn lemma_max_width_bounds(s: Seq<(u32, u32)>, k: int)
    requires
        1 <= k <= s.len(),
    ensures
        0 <= max_width(s, k) <= u32::MAX,
    decreases k,
{
    if k > 1 {
        lemma_max_width_bounds(s, k - 1);
    }
}

/// The size a box asks for (see [`aggregate`]), from the sizes of its children. The
/// heights must add up within a `u32` when the box has no setting of its own.
pub fn aggregate_size(own: (u32, u32), children: &Vec<(u32, u32)>) -> (r: (u32, u32))
    requires
        own == (0u32, 0u32) ==> height_sum(children@, children@.len() as int) <= u32::MAX,
    ensures
        r.0 == aggregate(own, children@).0,
        r.1 == aggregate(own, children@).1,
{
    if own.0 != 0 || own.1 != 0 {
        return own;
    }
    let ghost s = children@;
    let n = children.len();
    let mut widest: Option<u32> = None;
    let mut sum: u32 = 0;
    let mut i: usize = 0;
    while i < n
        invariant
            s == children@,
            n == s.len(),
            i <= n,
            sum == height_sum(s, i as int),
            height_sum(s, n as int) <= u32::MAX,
            i == 0 ==> widest is None,
            i > 0 ==> widest == Some(max_width(s, i as int) as u32),
            i > 0 ==> 0 <= max_width(s, i as int) <= u32::MAX,
        decreases n - i,
    {
        proof {
            lemma_height_sum_monotone(s, i + 1, n as int);
            lemma_max_width_bounds(s, i + 1);
        }
        let (cw, ch) = children[i];
        widest = match widest {
            None => Some(cw),
            Some(m) => if cw > m {
                Some(cw)
            } else {
                Some(m)
            },
        };
        sum = sum + ch;
        i = i + 1;
    }
    let width = match widest {
        Some(m) => m,
        None => 10,
    };
    let height = if sum < 10 {
        10
    } else {
        sum
    };
    (width, height)
}

proof fn lemma_max_width_is_widest(s: Seq<(u32, u32)>, k: int)
    requires
        1 <= k <= s.len(),
    ensures
        forall|i: int| 0 <= i < k ==> s[i].0 <= max_width(s, k),
        exists|i: int| 0 <= i < k && max_width(s, k) == s[i].0,
    decreases k,
{
    if k > 1 {
        lemma_max_width_is_widest(s, k - 1);
        let j = choose|i: int| 0 <= i < k - 1 && max_width(s, k - 1) == s[i].0;
        if s[k - 1].0 > max_width(s, k - 1) {
            assert(max_width(s, k) == s[k - 1].0);
        } else {
            assert(max_width(s, k) == s[j].0);
        }
    } else {
        assert(max_width(s, 1) == s[0].0);
    }
}

proof fn lemma_height_sum_append(a: Seq<(u32, u32)>, b: Seq<(u32, u32)>, k: int)
    requires
        0 <= k <= b.len(),
    ensures
        height_sum(a + b, a.len() + k) == height_sum(a, a.len() as int) + height_sum(b, k),
    decreases k,
{
    if k == 0 {
        assert forall|j: int| 0 <= j <= a.len() implies height_sum(a + b, j) == height_sum(a, j) by {
            lemma_height_sum_prefix(a, b, j);
        }
    } else {
        lemma_height_sum_append(a, b, k - 1);
        assert((a + b)[a.len() + k - 1] == b[k - 1]);
    }
}

proof fn lemma_height_sum_prefix(a: Seq<(u32, u32)>, b: Seq<(u32, u32)>, j: int)
    requires
        0 <= j <= a.len(),
    ensures
        height_sum(a + b, j) == height_sum(a, j),
    decreases j,
{
    if j > 0 {
        lemma_height_sum_prefix(a, b, j - 1);
        assert((a + b)[j - 1] == a[j - 1]);
    }
}

/// Without a setting of its own, a box is as wide as its widest child: no child is
/// wider, and some child is exactly that wide (10 without children).
pub proof fn lemma_box_width_is_widest_child(own: (u32, u32), children: Seq<(u32, u32)>)
    requires
        own == (0u32, 0u32),
    ensures
        children.len() == 0 ==> aggregate(own, children).0 == 10,
        forall|i: int| 0 <= i < children.len() ==> children[i].0 <= aggregate(own, children).0,
        children.len() > 0 ==> exists|i: int|
            0 <= i < children.len() && aggregate(own, children).0 == children[i].0,
{
    if children.len() > 0 {
        lemma_max_width_is_widest(children, children.len() as int);
    }
}

/// Without a setting of its own, a box is as high as its children put together, or 10
/// when that is less: stacking two lists of children adds their heights, and one
/// child counts with its own height.
pub proof fn lemma_box_height_adds_children(a: Seq<(u32, u32)>, b: Seq<(u32, u32)>, c: (u32, u32))
    ensures
        height_sum(a + b, (a + b).len() as int) == height_sum(a, a.len() as int) + height_sum(
            b,
            b.len() as int,
        ),
        height_sum(seq![c], 1) == c.1,
        height_sum(Seq::<(u32, u32)>::empty(), 0) == 0,
        aggregate((0u32, 0u32), a).1 >= 10,
        aggregate((0u32, 0u32), a).1 >= height_sum(a, a.len() as int),
        aggregate((0u32, 0u32), a).1 == 10 || aggregate((0u32, 0u32), a).1 == height_sum(a, a.len() as int),
{
    lemma_height_sum_append(a, b, b.len() as int);
    assert(height_sum(seq![c], 0) == 0);
}

/// Adding a child puts it at the asked place and keeps the others in their order:
/// first, last, or at the index when it lies inside the list and last otherwise.
pub proof fn lemma_added_child_placement<T>(s: Seq<T>, c: T, pos: InsertPosition)
    ensures
        added_at(s, c, pos).len() == s.len() + 1,
        pos is First ==> added_at(s, c, pos)[0] == c && added_at(s, c, pos).remove(0) == s,
        pos is Last ==> added_at(s, c, pos)[s.len() as int] == c && added_at(s, c, pos).remove(
            s.len() as int,
        ) == s,
        pos matches InsertPosition::Index(i) ==> {
            let p = if i < s.len() {
                i as int
            } else {
                s.len() as int
            };
            &&& added_at(s, c, pos)[p] == c
            &&& added_at(s, c, pos).remove(p) == s
        },
{
    match pos {
        InsertPosition::First => {
            assert(s.insert(0, c).remove(0) =~= s);
        },
        InsertPosition::Last => {
            assert(s.push(c).remove(s.len() as int) =~= s);
        },
        InsertPosition::Index(i) => {
            if i < s.len() {
                assert(s.insert(i as int, c).remove(i as int) =~= s);
            } else {
                assert(s.push(c).remove(s.len() as int) =~= s);
            }
        },
    }
}

/// The expanding children are counted and the others are measured: with every child
/// expanding there are as many shares as children and no fixed height; with none
/// expanding there are no shares and the fixed height is the sum of all the heights.
pub proof fn lemma_expanding_and_fixed_children(s: Seq<LayoutChild>, k: int)
    requires
        0 <= k <= s.len(),
    ensures
        expand_count(s, k) <= k,
        (forall|i: int| 0 <= i < k ==> s[i].expand) ==> expand_count(s, k) == k && fixed_height(s, k)
            == 0,
        (forall|i: int| 0 <= i < k ==> !s[i].expand) ==> expand_count(s, k) == 0 && fixed_height(s, k)
            == height_sum(s.map_values(|c: LayoutChild| (0u32, c.height)), k),
    decreases k,
{
    if k > 0 {
        lemma_expanding_and_fixed_children(s, k - 1);
        let t = s.map_values(|c: LayoutChild| (0u32, c.height));
        assert(t[k - 1].1 == s[k - 1].height);
    }
}

/// The expanding children share the free height evenly and leave less than one pixel
/// each unused: the share times their number fits in the free height, and one more
/// pixel each would not.
pub proof fn lemma_expand_share_divides_free_height(s: Seq<LayoutChild>, h: u32)
    requires
        fixed_height(s, s.len() as int) <= h,
        1 <= expand_count(s, s.len() as int) <= u32::MAX,
    ensures
        expand_share(s, h) * expand_count(s, s.len() as int) <= h - fixed_height(s, s.len() as int),
        h - fixed_height(s, s.len() as int) < (expand_share(s, h) + 1) * expand_count(s, s.len() as int),
        expand_share(s, h) >= 0,
{
    let c = expand_count(s, s.len() as int);
    let free = h - fixed_height(s, s.len() as int);
    assert(((c as usize) as u32) as int == c);
    let q = free / (c as int);
    assert(expand_share(s, h) == q);
    assert(q * c <= free && free < (q + 1) * c && q >= 0) by (nonlinear_arith)
        requires
            c >= 1,
            free >= 0,
            q == free / (c as int),
    ;
}

/// A click between two glyph middles puts the cursor at the boundary nearer to it:
/// before the glyph past the click when the click is nearer to it than to the glyph
/// before, and after the glyph before otherwise (a tie goes right).
pub proof fn lemma_click_goes_to_nearer_boundary(mids: Seq<u32>, x: u32, k: int)
    requires
        is_first_above(mids, x, k),
        0 < k,
    ensures
        nearer_boundary(mids, x, k) == k - 1 || nearer_boundary(mids, x, k) == k,
        mids[k - 1] <= x < mids[k],
        nearer_boundary(mids, x, k) == k - 1 ==> x - mids[k - 1] < mids[k] - x,
        nearer_boundary(mids, x, k) == k ==> mids[k] - x <= x - mids[k - 1],
{
}

/// The model of a vertical box: its children, its geometry and its size settings.
pub struct VBox {
    children: Vec<BoxChild>,
    geometry: Rect,
    preferred_size: (u32, u32),
    min_size: (u32, u32),
    max_size: (u32, u32),
}

impl VBox {
    pub closed spec fn children(&self) -> Seq<BoxChild> {
        self.children@
    }

    pub closed spec fn geometry(&self) -> Rect {
        self.geometry
    }

    /// The preferred, minimum and maximum size settings.
    pub closed spec fn settings(&self) -> ((u32, u32), (u32, u32), (u32, u32)) {
        (self.preferred_size, self.min_size, self.max_size)
    }

    /// An empty box at the origin, of size zero, with no preferred or minimum size
    /// and an unbounded maximum size.
    pub fn new() -> (b: Self)
        ensures
            b.children() == Seq::<BoxChild>::empty(),
            b.geometry() == (Rect { x: 0, y: 0, w: 0, h: 0 }),
            b.settings() == ((0u32, 0u32), (0u32, 0u32), (u32::MAX, u32::MAX)),
    {
        VBox {
            children: Vec::new(),
            geometry: Rect::new(0, 0, 0, 0),
            preferred_size: (0, 0),
            min_size: (0, 0),
            max_size: (u32::MAX, u32::MAX),
        }
    }

    /// Adds a child (see [`added_at`]): the control `child` names, or nothing when the
    /// control is gone (`None`).
    pub fn add(&mut self, child: Option<IdType>, expand: bool, position: InsertPosition)
        ensures
            final(self).children() == match child {
                Some(id) => added_at(old(self).children(), BoxChild { id, expand }, position),
                None => old(self).children(),
            },
            final(self).geometry() == old(self).geometry(),
            final(self).settings() == old(self).settings(),
    {
        let id = match child {
            Some(id) => id,
            None => return,
        };
        let item = BoxChild { id, expand };
        match position {
            InsertPosition::First => self.children.insert(0, item),
            InsertPosition::Last => self.children.push(item),
            InsertPosition::Index(idx) => {
                if idx >= self.children.len() {
                    self.children.push(item)
                } else {
                    self.children.insert(idx, item)
                }
            },
        }
    }

    pub fn set_pos(&mut self, x: i32, y: i32)
        ensures
            final(self).geometry() == (Rect { x, y, w: old(self).geometry().w, h: old(self).geometry().h }),
            final(self).children() == old(self).children(),
            final(self).settings() == old(self).settings(),
    {
        self.geometry.x = x;
        self.geometry.y = y;
    }

    pub fn set_size(&mut self, width: u32, height: u32)
        ensures
            final(self).geometry() == (Rect { x: old(self).geometry().x, y: old(self).geometry().y, w: width, h: height }),
            final(self).children() == old(self).children(),
            final(self).settings() == old(self).settings(),
    {
        self.geometry.w = width;
        self.geometry.h = height;
    }

    pub fn pos(&self) -> (p: (i32, i32))
        ensures
            p == (self.geometry().x, self.geometry().y),
    {
        self.geometry.pos()
    }

    pub fn size(&self) -> (s: (u32, u32))
        ensures
            s == (self.geometry().w, self.geometry().h),
    {
        self.geometry.size()
    }

    pub fn geometry_rect(&self) -> (r: Rect)
        ensures
            r == self.geometry(),
    {
        self.geometry
    }

    pub fn set_preferred_size(&mut self, preferred_size: (u32, u32))
        ensures
            final(self).settings() == (preferred_size, old(self).settings().1, old(self).settings().2),
            final(self).children() == old(self).children(),
            final(self).geometry() == old(self).geometry(),
    {
        self.preferred_size = preferred_size;
    }

    pub fn set_min_size(&mut self, min_size: (u32, u32))
        ensures
            final(self).settings() == (old(self).settings().0, min_size, old(self).settings().2),
            final(self).children() == old(self).children(),
            final(self).geometry() == old(self).geometry(),
    {
        self.min_size = min_size;
    }

    pub fn set_max_size(&mut self, max_size: (u32, u32))
        ensures
            final(self).settings() == (old(self).settings().0, old(self).settings().1, max_size),
            final(self).children() == old(self).children(),
            final(self).geometry() == old(self).geometry(),
    {
        self.max_size = max_size;
    }

    /// The preferred size, given the children's preferred sizes.
    pub fn preferred_size(&self, children: &Vec<(u32, u32)>) -> (r: (u32, u32))
        requires
            self.settings().0 == (0u32, 0u32) ==> height_sum(children@, children@.len() as int)
                <= u32::MAX,
        ensures
            r.0 == aggregate(self.settings().0, children@).0,
            r.1 == aggregate(self.settings().0, children@).1,
    {
        aggregate_size(self.preferred_size, children)
    }

    /// The minimum size, given the children's minimum sizes.
    pub fn min_size(&self, children: &Vec<(u32, u32)>) -> (r: (u32, u32))
        requires
            self.settings().1 == (0u32, 0u32) ==> height_sum(children@, children@.len() as int)
                <= u32::MAX,
        ensures
            r.0 == aggregate(self.settings().1, children@).0,
            r.1 == aggregate(self.settings().1, children@).1,
    {
        aggregate_size(self.min_size, children)
    }

    /// The maximum size, given the children's maximum sizes.
    pub fn max_size(&self, children: &Vec<(u32, u32)>) -> (r: (u32, u32))
        requires
            self.settings().2 == (0u32, 0u32) ==> height_sum(children@, children@.len() as int)
                <= u32::MAX,
        ensures
            r.0 == aggregate(self.settings().2, children@).0,
            r.1 == aggregate(self.settings().2, children@).1,
    {
        aggregate_size(self.max_size, children)
    }
}

/// The child that a box hands an event to: the first one that receives events of its
/// kind (`receives` tells, child by child); none when no child does. (A resize of the
/// box resizes the box itself first.)
pub fn event_receiver(receives: &Vec<bool>) -> (r: Option<usize>)
    ensures
        match r {
            Some(i) => i < receives@.len() && receives@[i as int] && forall|j: int| 0 <= j < i ==> !receives@[j],
            None => !receives@.contains(true),
        },
{
    let mut i: usize = 0;
    while i < receives.len()
        invariant
            i <= receives@.len(),
            forall|j: int| 0 <= j < i ==> !receives@[j],
        decreases receives@.len() - i,
    {
        if receives[i] {
            return Some(i);
        }
        i = i + 1;
    }
    None
}

/// The text position between glyphs `k - 1` and `k` for a click at `x`, given the
/// middle of each glyph (`mids`): whichever of the two boundaries is closer, the
/// right one on a tie.
pub open spec fn nearer_boundary(mids: Seq<u32>, x: u32, k: int) -> int {
    if mids[k] - x > x - mids[k - 1] {
        k - 1
    } else {
        k
    }
}

/// `k` is the first glyph whose middle lies past `x`.
pub open spec fn is_first_above(mids: Seq<u32>, x: u32, k: int) -> bool {
    &&& 0 <= k < mids.len()
    &&& mids[k] > x
    &&& forall|j: int| 0 <= j < k ==> mids[j] <= x
}

/// Where the text cursor goes for a click at `x`, given the middle of each glyph:
/// after the last glyph when the click is at or past its middle, before the first
/// when at or before its middle, and otherwise at the nearer boundary around the
/// first glyph whose middle lies past the click (see [`nearer_boundary`]).
pub fn text_pos_at(mids: &Vec<u32>, x: u32) -> (r: usize)
    requires
        mids@.len() > 0,
    ensures
        mids@[mids@.len() - 1] <= x ==> r == mids@.len(),
        mids@[mids@.len() - 1] > x && mids@[0] >= x ==> r == 0,
        mids@[mids@.len() - 1] > x && mids@[0] < x ==> exists|k: int|
            #[trigger] is_first_above(mids@, x, k) && 0 < k && r == nearer_boundary(mids@, x, k),
{
    let n = mids.len();
    if mids[n - 1] <= x {
        return n;
    } else if mids[0] >= x {
        return 0;
    }
    let mut idx: usize = 0;
    while mids[idx] <= x
        invariant
            0 <= idx < n,
            n == mids@.len(),
            mids@[n - 1] > x,
            forall|j: int| 0 <= j < idx ==> mids@[j] <= x,
        decreases n - idx,
    {
        idx = idx + 1;
    }
    assert(is_first_above(mids@, x, idx as int));
    assert(idx > 0);
    if mids[idx] - x > x - mids[idx - 1] {
        idx - 1
    } else {
        idx
    }
}

} // verus!
