//! Container widgets: groups, packs, scroll areas, tabs, tiles, wizards, the
//! colour chooser and the grid helpers built on packs.
//!
//! Every type here wraps one widget handle and shares the lifetime protocol
//! of [`crate::tracker`]; the containers additionally own the layout logic
//! that the wrapper side computes itself: a pack divides its extent evenly
//! among its children, and the grids stack packs inside packs.

use vstd::arithmetic::div_mod::lemma_div_nonincreasing;
use vstd::arithmetic::div_mod::lemma_div_pos_is_pos;
use vstd::prelude::*;

use crate::tracker::fresh_widget;
use crate::tracker::liveness_monotone;
use crate::tracker::same_widget;
use crate::tracker::same_widget_protocol;
use crate::tracker::Toolkit;
use crate::tracker::WidgetHandle;
use crate::widget::GroupExt;
use crate::widget::WidgetExt;

verus! {

/// Defines pack types
#[derive(Debug, Copy, Clone, PartialEq, Eq, Structural)]
pub enum PackType {
    /// Vertical layout pack
    Vertical,
    /// Horizontal layout pack
    Horizontal,
}

impl PackType {
    /// The integer value the native toolkit uses for this pack type.
    pub open spec fn spec_bits(self) -> i32 {
        match self {
            PackType::Vertical => 0,
            PackType::Horizontal => 1,
        }
    }

    /// The integer value the native toolkit uses for this pack type.
    pub fn bits(self) -> (r: i32)
        ensures
            r == self.spec_bits(),
    {
        match self {
            PackType::Vertical => 0,
            PackType::Horizontal => 1,
        }
    }
}

/// Defines Scroll types
#[derive(Debug, Copy, Clone, PartialEq, Eq, Structural)]
pub enum ScrollType {
    /// Never show bars
    NoBars,
    /// Show vertical bar
    Horizontal,
    /// Show vertical bar
    Vertical,
    /// Show both horizontal and vertical bars
    Both,
    /// Always show bars
    AlwaysOn,
    /// Show horizontal bar always
    HorizontalAlways,
    /// Show vertical bar always
    VerticalAlways,
    /// Always show both horizontal and vertical bars
    BothAlways,
}

impl ScrollType {
    /// The integer value the native toolkit uses for this scroll type.
    pub open spec fn spec_bits(self) -> i32 {
        match self {
            ScrollType::NoBars => 0,
            ScrollType::Horizontal => 1,
            ScrollType::Vertical => 2,
            ScrollType::Both => 3,
            ScrollType::AlwaysOn => 4,
            ScrollType::HorizontalAlways => 5,
            ScrollType::VerticalAlways => 6,
            ScrollType::BothAlways => 7,
        }
    }

    /// The integer value the native toolkit uses for this scroll type.
    pub fn bits(self) -> (r: i32)
        ensures
            r == self.spec_bits(),
    {
        match self {
            ScrollType::NoBars => 0,
            ScrollType::Horizontal => 1,
            ScrollType::Vertical => 2,
            ScrollType::Both => 3,
            ScrollType::AlwaysOn => 4,
            ScrollType::HorizontalAlways => 5,
            ScrollType::VerticalAlways => 6,
            ScrollType::BothAlways => 7,
        }
    }
}

/// Creates a widget group
pub struct Group {
    inner: WidgetHandle,
}

impl Group {
    /// Creates a new group and registers its liveness tracker.
    pub fn new(tk: &mut Toolkit, x: i32, y: i32, w: i32, h: i32, label: &str) -> (r: Group)
        requires
            old(tk).wf(),
            old(tk).num_widgets() < usize::MAX,
        ensures
            final(tk).wf(),
            liveness_monotone(*old(tk), *final(tk)),
            fresh_widget(*old(tk), *final(tk), r.wid(), x, y, w, h, label@),
    {
        Group { inner: tk.create_widget(x, y, w, h, label) }
    }
}

impl WidgetExt for Group {
    closed spec fn wid(&self) -> usize {
        self.inner.id()
    }

    fn handle(&self) -> (hd: &WidgetHandle) {
        &self.inner
    }

    fn into_handle(self) -> (hd: WidgetHandle) {
        self.inner
    }
}

impl GroupExt for Group {

}

/// Creates a widget pack
pub struct Pack {
    inner: WidgetHandle,
}

/// The extent each child receives when a pack of `n` children divides
/// `extent` pixels evenly, with `spacing` pixels between neighbours.
pub open spec fn pack_share(extent: int, spacing: int, n: int) -> int
    recommends
        n >= 1,
{
    (extent - spacing * (n - 1)) / n
}

/// Holds when the pack `p` has laid its children out: along the pack's axis
/// every child now takes an equal share of the pack's extent net of spacing,
/// across the axis it keeps its own size, and nothing else in the toolkit
/// has moved.
pub open spec fn pack_layout_post(pre: Toolkit, post: Toolkit, p: usize) -> bool {
    let rec = pre.widget(p);
    let n = rec.children@.len() as int;
    &&& post.num_widgets() == pre.num_widgets()
    &&& (n == 0 ==> post == pre)
    &&& forall|j: usize|
        pre.is_widget(j) && !rec.children@.contains(j) ==> same_widget(#[trigger] pre.widget(j),
            post.widget(j))
    &&& forall|k: int|
        0 <= k < n ==> {
            let c = #[trigger] rec.children@[k];
            let cpre = pre.widget(c);
            let cpost = post.widget(c);
            &&& same_widget_protocol(cpre, cpost)
            &&& cpost.x == cpre.x
            &&& cpost.y == cpre.y
            &&& cpost.spacing == cpre.spacing
            &&& cpost.horizontal == cpre.horizontal
            &&& cpost.red == cpre.red
            &&& cpost.green == cpre.green
            &&& cpost.blue == cpre.blue
            &&& cpost.draw_depth == cpre.draw_depth
            &&& (if rec.horizontal {
                cpost.w == pack_share(rec.w as int, rec.spacing as int, n) && cpost.h == cpre.h
            } else {
                cpost.w == cpre.w && cpost.h == pack_share(rec.h as int, rec.spacing as int, n)
            })
        }
    &&& post.spec_documents() == pre.spec_documents()
    &&& post.spec_saved_files() == pre.spec_saved_files()
}

impl Pack {
    /// Creates a new pack; it lays its children out vertically until its
    /// type is changed.
    pub fn new(tk: &mut Toolkit, x: i32, y: i32, w: i32, h: i32, label: &str) -> (r: Pack)
        requires
            old(tk).wf(),
            old(tk).num_widgets() < usize::MAX,
        ensures
            final(tk).wf(),
            liveness_monotone(*old(tk), *final(tk)),
            fresh_widget(*old(tk), *final(tk), r.wid(), x, y, w, h, label@),
    {
        Pack { inner: tk.create_widget(x, y, w, h, label) }
    }

    /// Get the spacing of the pack
    pub fn spacing(&self, tk: &Toolkit) -> (r: i32)
        requires
            tk.is_widget(self.wid()),
            !tk.widget(self.wid()).destroyed,
        ensures
            r == tk.widget(self.wid()).spacing,
    {
        tk.spacing_of(self.handle())
    }

    /// Set the spacing of the pack
    pub fn set_spacing(&self, tk: &mut Toolkit, spacing: i32)
        requires
            old(tk).wf(),
            old(tk).is_widget(self.wid()),
            !old(tk).widget(self.wid()).destroyed,
        ensures
            final(tk).wf(),
            liveness_monotone(*old(tk), *final(tk)),
            crate::tracker::others_unchanged(*old(tk), *final(tk), self.wid()),
            same_widget_protocol(old(tk).widget(self.wid()), final(tk).widget(self.wid())),
            final(tk).widget(self.wid()).spacing == spacing,
            final(tk).widget(self.wid()).x == old(tk).widget(self.wid()).x,
            final(tk).widget(self.wid()).y == old(tk).widget(self.wid()).y,
            final(tk).widget(self.wid()).w == old(tk).widget(self.wid()).w,
            final(tk).widget(self.wid()).h == old(tk).widget(self.wid()).h,
            final(tk).widget(self.wid()).horizontal == old(tk).widget(self.wid()).horizontal,
    {
        tk.set_spacing(self.handle(), spacing)
    }

    /// Sets whether the pack lays its children out horizontally or
    /// vertically.
    pub fn set_type(&self, tk: &mut Toolkit, t: PackType)
        requires
            old(tk).wf(),
            old(tk).is_widget(self.wid()),
            !old(tk).widget(self.wid()).destroyed,
        ensures
            final(tk).wf(),
            liveness_monotone(*old(tk), *final(tk)),
            crate::tracker::others_unchanged(*old(tk), *final(tk), self.wid()),
            same_widget_protocol(old(tk).widget(self.wid()), final(tk).widget(self.wid())),
            final(tk).widget(self.wid()).horizontal == (t == PackType::Horizontal),
            final(tk).widget(self.wid()).x == old(tk).widget(self.wid()).x,
            final(tk).widget(self.wid()).y == old(tk).widget(self.wid()).y,
            final(tk).widget(self.wid()).w == old(tk).widget(self.wid()).w,
            final(tk).widget(self.wid()).h == old(tk).widget(self.wid()).h,
            final(tk).widget(self.wid()).spacing == old(tk).widget(self.wid()).spacing,
    {
        let horizontal = match t {
            PackType::Horizontal => true,
            PackType::Vertical => false,
        };
        tk.set_horizontal(self.handle(), horizontal)
    }

    /// The pack's current layout direction.
    pub fn get_type(&self, tk: &Toolkit) -> (r: PackType)
        requires
            tk.is_widget(self.wid()),
            !tk.widget(self.wid()).destroyed,
        ensures
            r == (if tk.widget(self.wid()).horizontal {
                PackType::Horizontal
            } else {
                PackType::Vertical
            }),
    {
        if tk.is_horizontal(self.handle()) {
            PackType::Horizontal
        } else {
            PackType::Vertical
        }
    }

    /// Layout the children of the pack automatically: each child receives an
    /// equal share of the pack's extent along the pack's axis, net of the
    /// spacing between neighbours, and keeps its own size across the axis.
    /// Must be called on existing children.
    pub fn auto_layout(&self, tk: &mut Toolkit)
        requires
            old(tk).wf(),
            old(tk).is_widget(self.wid()),
            !old(tk).widget(self.wid()).destroyed,
            old(tk).widget(self.wid()).children@.len() <= i32::MAX,
            forall|k: int|
                0 <= k < old(tk).widget(self.wid()).children@.len() ==> !old(tk).widget(
                    #[trigger] old(tk).widget(self.wid()).children@[k]).destroyed,
            old(tk).widget(self.wid()).spacing >= 0,
            old(tk).widget(self.wid()).children@.len() > 0 ==> old(tk).widget(self.wid()).spacing
                * (old(tk).widget(self.wid()).children@.len() - 1) <= old(tk).widget(self.wid()).w,
            old(tk).widget(self.wid()).children@.len() > 0 ==> old(tk).widget(self.wid()).spacing
                * (old(tk).widget(self.wid()).children@.len() - 1) <= old(tk).widget(self.wid()).h,
        ensures
            final(tk).wf(),
            liveness_monotone(*old(tk), *final(tk)),
            pack_layout_post(*old(tk), *final(tk), self.wid()),
    {
        let hd = self.handle();
        let n = tk.children_count(hd);
        if n == 0 {
            return ;
        }
        let spacing = tk.spacing_of(hd);
        let w = tk.width_of(hd);
        let h = tk.height_of(hd);
        let horizontal = tk.is_horizontal(hd);
        let total: i64 = (spacing as i64) * ((n - 1) as i64);
        let share_w_wide: i64 = ((w as i64) - total) / (n as i64);
        let share_h_wide: i64 = ((h as i64) - total) / (n as i64);
        proof {
            lemma_div_pos_is_pos((w as int) - (total as int), n as int);
            lemma_div_nonincreasing((w as int) - (total as int), n as int);
            lemma_div_pos_is_pos((h as int) - (total as int), n as int);
            lemma_div_nonincreasing((h as int) - (total as int), n as int);
        }
        let share_w: i32 = share_w_wide as i32;
        let share_h: i32 = share_h_wide as i32;
        let ghost pid = self.wid();
        let ghost pre = *old(tk);
        let mut k: usize = 0;
        while k < n
            invariant
                pre.wf(),
                pre.is_widget(pid),
                !pre.widget(pid).destroyed,
                n == pre.widget(pid).children@.len(),
                n > 0,
                k <= n,
                forall|j: int|
                    0 <= j < n ==> !pre.widget(#[trigger] pre.widget(pid).children@[j]).destroyed,
                horizontal == pre.widget(pid).horizontal,
                share_w == pack_share(pre.widget(pid).w as int, pre.widget(pid).spacing as int,
                    n as int),
                share_h == pack_share(pre.widget(pid).h as int, pre.widget(pid).spacing as int,
                    n as int),
                self.wid() == pid,
                hd.id() == pid,
                tk.wf(),
                tk.num_widgets() == pre.num_widgets(),
                tk.is_widget(pid),
                tk.widget(pid).children@ == pre.widget(pid).children@,
                !tk.widget(pid).destroyed,
                liveness_monotone(pre, *tk),
                tk.spec_documents() == pre.spec_documents(),
                tk.spec_saved_files() == pre.spec_saved_files(),
                forall|j: usize|
                    pre.is_widget(j) && !pre.widget(pid).children@.contains(j) ==> same_widget(
                        #[trigger] pre.widget(j), tk.widget(j)),
                forall|j: int|
                    0 <= j < k ==> {
                        let c = #[trigger] pre.widget(pid).children@[j];
                        let cpre = pre.widget(c);
                        let cpost = tk.widget(c);
                        &&& same_widget_protocol(cpre, cpost)
                        &&& cpost.x == cpre.x
                        &&& cpost.y == cpre.y
                        &&& cpost.spacing == cpre.spacing
                        &&& cpost.horizontal == cpre.horizontal
                        &&& cpost.red == cpre.red
                        &&& cpost.green == cpre.green
                        &&& cpost.blue == cpre.blue
                        &&& cpost.draw_depth == cpre.draw_depth
                        &&& (if pre.widget(pid).horizontal {
                            cpost.w == share_w && cpost.h == cpre.h
                        } else {
                            cpost.w == cpre.w && cpost.h == share_h
                        })
                    },
                forall|j: int|
                    k <= j < n ==> same_widget(#[trigger] pre.widget(pre.widget(
                        pid).children@[j]), tk.widget(pre.widget(pid).children@[j])),
            decreases n - k,
        {
            let ghost tk0 = *tk;
            let c = tk.child_id(hd, k);
            proof {
                assert(pre.widget_ok(pid));
                assert(same_widget(pre.widget(pre.widget(pid).children@[k as int]), tk0.widget(
                    c)));
            }
            let cw = tk.width_of_id(c);
            let ch = tk.height_of_id(c);
            if horizontal {
                tk.set_size_id(c, share_w, ch);
            } else {
                tk.set_size_id(c, cw, share_h);
            }
            proof {
                assert forall|j: int|
                    0 <= j < k + 1 implies {
                    let cj = #[trigger] pre.widget(pid).children@[j];
                    let cpre = pre.widget(cj);
                    let cpost = tk.widget(cj);
                    &&& same_widget_protocol(cpre, cpost)
                    &&& cpost.x == cpre.x
                    &&& cpost.y == cpre.y
                    &&& cpost.spacing == cpre.spacing
                    &&& cpost.horizontal == cpre.horizontal
                    &&& cpost.red == cpre.red
                    &&& cpost.green == cpre.green
                    &&& cpost.blue == cpre.blue
                    &&& cpost.draw_depth == cpre.draw_depth
                    &&& (if pre.widget(pid).horizontal {
                        cpost.w == share_w && cpost.h == cpre.h
                    } else {
                        cpost.w == cpre.w && cpost.h == share_h
                    })
                } by {
                    let cj = pre.widget(pid).children@[j];
                    if j < k {
                        assert(pre.widget_ok(pid));
                        assert(cj != c);
                        assert(same_widget(tk0.widget(cj), tk.widget(cj)));
                    }
                }
                assert forall|j: usize|
                    pre.is_widget(j) && !pre.widget(pid).children@.contains(j) implies same_widget(
                    #[trigger] pre.widget(j), tk.widget(j)) by {
                    assert(pre.widget(pid).children@[k as int] == c);
                    assert(j != c);
                    assert(same_widget(pre.widget(j), tk0.widget(j)));
                    assert(same_widget(tk0.widget(j), tk.widget(j)));
                }
                assert forall|j: int|
                    k + 1 <= j < n implies same_widget(#[trigger] pre.widget(pre.widget(
                    pid).children@[j]), tk.widget(pre.widget(pid).children@[j])) by {
                    let cj = pre.widget(pid).children@[j];
                    assert(pre.widget_ok(pid));
                    assert(cj != c);
                    assert(same_widget(tk0.widget(cj), tk.widget(cj)));
                }
            }
            k = k + 1;
        }
    }
}

impl WidgetExt for Pack {
    closed spec fn wid(&self) -> usize {
        self.inner.id()
    }

    fn handle(&self) -> (hd: &WidgetHandle) {
        &self.inner
    }

    fn into_handle(self) -> (hd: WidgetHandle) {
        self.inner
    }
}

impl GroupExt for Pack {

}

/// Creates a scroll group
pub struct Scroll {
    inner: WidgetHandle,
}

impl Scroll {
    /// Creates a new scroll group and registers its liveness tracker.
    pub fn new(tk: &mut Toolkit, x: i32, y: i32, w: i32, h: i32, label: &str) -> (r: Scroll)
        requires
            old(tk).wf(),
            old(tk).num_widgets() < usize::MAX,
        ensures
            final(tk).wf(),
            liveness_monotone(*old(tk), *final(tk)),
            fresh_widget(*old(tk), *final(tk), r.wid(), x, y, w, h, label@),
    {
        Scroll { inner: tk.create_widget(x, y, w, h, label) }
    }
}

impl WidgetExt for Scroll {
    closed spec fn wid(&self) -> usize {
        self.inner.id()
    }

    fn handle(&self) -> (hd: &WidgetHandle) {
        &self.inner
    }

    fn into_handle(self) -> (hd: WidgetHandle) {
        self.inner
    }
}

impl GroupExt for Scroll {

}

/// Creates a tab which can contain widgets
pub struct Tabs {
    inner: WidgetHandle,
}

impl Tabs {
    /// Creates a new tab group and registers its liveness tracker.
    pub fn new(tk: &mut Toolkit, x: i32, y: i32, w: i32, h: i32, label: &str) -> (r: Tabs)
        requires
            old(tk).wf(),
            old(tk).num_widgets() < usize::MAX,
        ensures
            final(tk).wf(),
            liveness_monotone(*old(tk), *final(tk)),
            fresh_widget(*old(tk), *final(tk), r.wid(), x, y, w, h, label@),
    {
        Tabs { inner: tk.create_widget(x, y, w, h, label) }
    }
}

impl WidgetExt for Tabs {
    closed spec fn wid(&self) -> usize {
        self.inner.id()
    }

    fn handle(&self) -> (hd: &WidgetHandle) {
        &self.inner
    }

    fn into_handle(self) -> (hd: WidgetHandle) {
        self.inner
    }
}

impl GroupExt for Tabs {

}

/// Creates a tile which can contain widgets
pub struct Tile {
    inner: WidgetHandle,
}

impl Tile {
    /// Creates a new tile and registers its liveness tracker.
    pub fn new(tk: &mut Toolkit, x: i32, y: i32, w: i32, h: i32, label: &str) -> (r: Tile)
        requires
            old(tk).wf(),
            old(tk).num_widgets() < usize::MAX,
        ensures
            final(tk).wf(),
            liveness_monotone(*old(tk), *final(tk)),
            fresh_widget(*old(tk), *final(tk), r.wid(), x, y, w, h, label@),
    {
        Tile { inner: tk.create_widget(x, y, w, h, label) }
    }
}

impl WidgetExt for Tile {
    closed spec fn wid(&self) -> usize {
        self.inner.id()
    }

    fn handle(&self) -> (hd: &WidgetHandle) {
        &self.inner
    }

    fn into_handle(self) -> (hd: WidgetHandle) {
        self.inner
    }
}

impl GroupExt for Tile {

}

/// Creates a wizard widget
pub struct Wizard {
    inner: WidgetHandle,
}

impl Wizard {
    /// Creates a new wizard and registers its liveness tracker.
    pub fn new(tk: &mut Toolkit, x: i32, y: i32, w: i32, h: i32, label: &str) -> (r: Wizard)
        requires
            old(tk).wf(),
            old(tk).num_widgets() < usize::MAX,
        ensures
            final(tk).wf(),
            liveness_monotone(*old(tk), *final(tk)),
            fresh_widget(*old(tk), *final(tk), r.wid(), x, y, w, h, label@),
    {
        Wizard { inner: tk.create_widget(x, y, w, h, label) }
    }
}

impl WidgetExt for Wizard {
    closed spec fn wid(&self) -> usize {
        self.inner.id()
    }

    fn handle(&self) -> (hd: &WidgetHandle) {
        &self.inner
    }

    fn into_handle(self) -> (hd: WidgetHandle) {
        self.inner
    }
}

impl GroupExt for Wizard {

}

/// The colour value the native toolkit reports for the given components:
/// red in the third byte, green in the second, blue in the lowest.
pub open spec fn rgb2hex(red: u8, green: u8, blue: u8) -> int {
    (red as u32) * 0x10000 + (green as u32) * 0x100 + (blue as u32)
}

/// Creates a color chooser widget
pub struct ColorChooser {
    inner: WidgetHandle,
}

impl ColorChooser {
    /// Creates a new colour chooser and registers its liveness tracker.  The
    /// chooser starts out black; the native side updates its value when the
    /// user picks a colour.
    pub fn new(tk: &mut Toolkit, x: i32, y: i32, w: i32, h: i32, label: &str) -> (r: ColorChooser)
        requires
            old(tk).wf(),
            old(tk).num_widgets() < usize::MAX,
        ensures
            final(tk).wf(),
            liveness_monotone(*old(tk), *final(tk)),
            fresh_widget(*old(tk), *final(tk), r.wid(), x, y, w, h, label@),
    {
        ColorChooser { inner: tk.create_widget(x, y, w, h, label) }
    }

    /// Return the rgb color
    pub fn rgb_color(&self, tk: &Toolkit) -> (r: (u8, u8, u8))
        requires
            tk.is_widget(self.wid()),
            !tk.widget(self.wid()).destroyed,
        ensures
            r.0 == tk.widget(self.wid()).red,
            r.1 == tk.widget(self.wid()).green,
            r.2 == tk.widget(self.wid()).blue,
    {
        tk.rgb_of(self.handle())
    }

    /// Return the hex color
    pub fn hex_color(&self, tk: &Toolkit) -> (r: u32)
        requires
            tk.is_widget(self.wid()),
            !tk.widget(self.wid()).destroyed,
        ensures
            r == rgb2hex(tk.widget(self.wid()).red, tk.widget(self.wid()).green, tk.widget(
                self.wid()).blue),
    {
        let (red, green, blue) = self.rgb_color(tk);
        (red as u32) * 0x10000 + (green as u32) * 0x100 + (blue as u32)
    }
}

impl WidgetExt for ColorChooser {
    closed spec fn wid(&self) -> usize {
        self.inner.id()
    }

    fn handle(&self) -> (hd: &WidgetHandle) {
        &self.inner
    }

    fn into_handle(self) -> (hd: WidgetHandle) {
        self.inner
    }
}

impl GroupExt for ColorChooser {

}

/// A grid dimension request clamped to at least one row or column.
pub open spec fn clamp_dim(v: int) -> int {
    if v < 1 {
        1
    } else {
        v
    }
}

/// Holds of a freshly created grid row (or column) pack: a live, childless
/// pack attached to the grid's outer pack `pid`, with the given spacing,
/// orientation and size.
pub open spec fn grid_row_rec(
    post: Toolkit,
    c: usize,
    pid: usize,
    spacing: i32,
    horizontal: bool,
    w: i32,
    h: i32,
) -> bool {
    &&& post.is_widget(c)
    &&& post.widget(c).destroyed == false
    &&& post.widget(c).parent == pid
    &&& post.widget(c).handles == 1
    &&& post.widget(c).delete_requests == 0
    &&& post.widget(c).x == 0
    &&& post.widget(c).y == 0
    &&& post.widget(c).w == w
    &&& post.widget(c).h == h
    &&& post.widget(c).spacing == spacing
    &&& post.widget(c).horizontal == horizontal
    &&& post.widget(c).children@ == Seq::<usize>::empty()
}

/// Holds when a grid has set its parameters on the outer pack `pid`:
/// `count` fresh row (or column) packs were created and attached in order,
/// the outer pack's spacing was set, and nothing else in the toolkit moved.
pub open spec fn grid_params_post(
    pre: Toolkit,
    post: Toolkit,
    pid: usize,
    count: int,
    spacing: i32,
    horizontal: bool,
    roww: i32,
    rowh: i32,
) -> bool {
    let prec = pre.widget(pid);
    let postc = post.widget(pid);
    &&& post.num_widgets() == pre.num_widgets() + count
    &&& postc.children@.len() == prec.children@.len() + count
    &&& postc.children@.subrange(0, prec.children@.len() as int) == prec.children@
    &&& (forall|t: int|
        0 <= t < count ==> #[trigger] postc.children@[prec.children@.len() + t]
            == pre.num_widgets() + 1 + t)
    &&& (forall|t: int|
        0 <= t < count ==> grid_row_rec(post, #[trigger] (pre.num_widgets() + 1 + t) as usize,
            pid, spacing, horizontal, roww, rowh))
    &&& postc.spacing == spacing
    &&& postc.destroyed == prec.destroyed
    &&& postc.parent == prec.parent
    &&& postc.handles == prec.handles
    &&& postc.delete_requests == prec.delete_requests
    &&& postc.x == prec.x
    &&& postc.y == prec.y
    &&& postc.w == prec.w
    &&& postc.h == prec.h
    &&& postc.horizontal == prec.horizontal
    &&& postc.shown == prec.shown
    &&& postc.label@ == prec.label@
    &&& postc.items@ == prec.items@
    &&& (forall|j: usize|
        pre.is_widget(j) && j != pid ==> same_widget(#[trigger] pre.widget(j), post.widget(j)))
    &&& post.spec_documents() == pre.spec_documents()
    &&& post.spec_saved_files() == pre.spec_saved_files()
}

/// Creates `count` fresh packs and attaches them, in order, as children of
/// the given pack: the rows of a vertical grid or the columns of a
/// horizontal one.
fn grid_fill(pack: &Pack, tk: &mut Toolkit, count: i32, spacing: i32, horizontal: bool, w: i32, h:
    i32)
    requires
        old(tk).wf(),
        old(tk).is_widget(pack.wid()),
        !old(tk).widget(pack.wid()).destroyed,
        count >= 0,
        old(tk).num_widgets() + count <= usize::MAX,
        old(tk).widget(pack.wid()).children@.len() + count <= usize::MAX,
    ensures
        final(tk).wf(),
        liveness_monotone(*old(tk), *final(tk)),
        final(tk).num_widgets() == old(tk).num_widgets() + count,
        final(tk).widget(pack.wid()).children@.len() == old(tk).widget(
            pack.wid()).children@.len() + count,
        final(tk).widget(pack.wid()).children@.subrange(0, old(tk).widget(
            pack.wid()).children@.len() as int) == old(tk).widget(pack.wid()).children@,
        forall|t: int|
            0 <= t < count ==> #[trigger] final(tk).widget(pack.wid()).children@[old(tk).widget(
                pack.wid()).children@.len() + t] == old(tk).num_widgets() + 1 + t,
        forall|t: int|
            0 <= t < count ==> grid_row_rec(*final(tk), #[trigger] (old(tk).num_widgets() + 1
                + t) as usize, pack.wid(), spacing, horizontal, w, h),
        final(tk).widget(pack.wid()).spacing == old(tk).widget(pack.wid()).spacing,
        final(tk).widget(pack.wid()).destroyed == old(tk).widget(pack.wid()).destroyed,
        final(tk).widget(pack.wid()).parent == old(tk).widget(pack.wid()).parent,
        final(tk).widget(pack.wid()).handles == old(tk).widget(pack.wid()).handles,
        final(tk).widget(pack.wid()).delete_requests == old(tk).widget(
            pack.wid()).delete_requests,
        final(tk).widget(pack.wid()).x == old(tk).widget(pack.wid()).x,
        final(tk).widget(pack.wid()).y == old(tk).widget(pack.wid()).y,
        final(tk).widget(pack.wid()).w == old(tk).widget(pack.wid()).w,
        final(tk).widget(pack.wid()).h == old(tk).widget(pack.wid()).h,
        final(tk).widget(pack.wid()).horizontal == old(tk).widget(pack.wid()).horizontal,
        final(tk).widget(pack.wid()).shown == old(tk).widget(pack.wid()).shown,
        final(tk).widget(pack.wid()).label@ == old(tk).widget(pack.wid()).label@,
        final(tk).widget(pack.wid()).items@ == old(tk).widget(pack.wid()).items@,
        forall|j: usize|
            old(tk).is_widget(j) && j != pack.wid() ==> same_widget(#[trigger] old(tk).widget(j),
                final(tk).widget(j)),
        final(tk).spec_documents() == old(tk).spec_documents(),
        final(tk).spec_saved_files() == old(tk).spec_saved_files(),
    {
        let ghost pre = *old(tk);
        let ghost pid = pack.wid();
        let ghost base_children = pre.widget(pid).children@.len() as int;
        let mut t: i32 = 0;
        while t < count
            invariant
                pre.wf(),
                pre.is_widget(pid),
                !pre.widget(pid).destroyed,
                count >= 0,
                0 <= t <= count,
                pre.num_widgets() + count <= usize::MAX,
                pre.widget(pid).children@.len() + count <= usize::MAX,
                base_children == pre.widget(pid).children@.len() as int,
                pack.wid() == pid,
                tk.wf(),
                liveness_monotone(pre, *tk),
                tk.num_widgets() == pre.num_widgets() + t,
                tk.is_widget(pid),
                tk.widget(pid).children@.len() == base_children + t,
                tk.widget(pid).children@.subrange(0, base_children) == pre.widget(pid).children@,
                forall|s: int|
                    0 <= s < t ==> #[trigger] tk.widget(pid).children@[base_children + s]
                        == pre.num_widgets() + 1 + s,
                forall|s: int|
                    0 <= s < t ==> grid_row_rec(*tk, #[trigger] (pre.num_widgets() + 1
                        + s) as usize, pid, spacing, horizontal, w, h),
                tk.widget(pid).spacing == pre.widget(pid).spacing,
                tk.widget(pid).destroyed == pre.widget(pid).destroyed,
                tk.widget(pid).parent == pre.widget(pid).parent,
                tk.widget(pid).handles == pre.widget(pid).handles,
                tk.widget(pid).delete_requests == pre.widget(pid).delete_requests,
                tk.widget(pid).x == pre.widget(pid).x,
                tk.widget(pid).y == pre.widget(pid).y,
                tk.widget(pid).w == pre.widget(pid).w,
                tk.widget(pid).h == pre.widget(pid).h,
                tk.widget(pid).horizontal == pre.widget(pid).horizontal,
                tk.widget(pid).shown == pre.widget(pid).shown,
                tk.widget(pid).label@ == pre.widget(pid).label@,
                tk.widget(pid).items@ == pre.widget(pid).items@,
                forall|j: usize|
                    pre.is_widget(j) && j != pid ==> same_widget(#[trigger] pre.widget(j),
                        tk.widget(j)),
                tk.spec_documents() == pre.spec_documents(),
                tk.spec_saved_files() == pre.spec_saved_files(),
            decreases count - t,
        {
            let ghost tk0 = *tk;
            let p = Pack::new(tk, 0, 0, w, h, "");
            let ghost tk1 = *tk;
            p.set_type(
                tk,
                if horizontal {
                    PackType::Horizontal
                } else {
                    PackType::Vertical
                },
            );
            let ghost tk2 = *tk;
            p.set_spacing(tk, spacing);
            let ghost tk3 = *tk;
            pack.add(tk, &p);
            proof {
                let c = p.wid();
                assert(c == pre.num_widgets() + 1 + t);
                assert(grid_row_rec(*tk, c, pid, spacing, horizontal, w, h));
                assert(tk.widget(pid).children@ == tk0.widget(pid).children@.push(c));
                assert forall|s: int|
                    0 <= s < t + 1 implies grid_row_rec(*tk, #[trigger] (pre.num_widgets() + 1
                    + s) as usize, pid, spacing, horizontal, w, h) by {
                    if s < t {
                        let cs = (pre.num_widgets() + 1 + s) as usize;
                        assert(grid_row_rec(tk0, cs, pid, spacing, horizontal, w, h));
                        assert(cs != c);
                        assert(same_widget(tk0.widget(cs), tk1.widget(cs)));
                        assert(same_widget(tk1.widget(cs), tk2.widget(cs)));
                        assert(same_widget(tk2.widget(cs), tk3.widget(cs)));
                        assert(same_widget(tk3.widget(cs), tk.widget(cs)));
                    }
                }
                assert forall|j: usize|
                    pre.is_widget(j) && j != pid implies same_widget(#[trigger] pre.widget(j),
                    tk.widget(j)) by {
                    assert(same_widget(pre.widget(j), tk0.widget(j)));
                    assert(j != c);
                    assert(same_widget(tk0.widget(j), tk1.widget(j)));
                    assert(same_widget(tk1.widget(j), tk2.widget(j)));
                    assert(same_widget(tk2.widget(j), tk3.widget(j)));
                    assert(same_widget(tk3.widget(j), tk.widget(j)));
                }
                assert(tk.widget(pid).children@.subrange(0, base_children) =~= pre.widget(
                    pid).children@);
            }
            t = t + 1;
        }
    }

/// Defines a Vertical Grid (custom widget).
/// Requires setting the params manually using the set_params method, which
/// takes the rows, columns and spacing; the rows are horizontal packs
/// stacked inside the grid's vertical pack.
pub struct VGrid {
    vpack: Pack,
    rows: i32,
    cols: i32,
    current: i32,
}

impl VGrid {
    /// The identifier of the grid's outer pack.
    pub closed spec fn wid(self) -> usize {
        self.vpack.wid()
    }

    /// The number of rows the grid was configured with.
    pub closed spec fn spec_rows(self) -> i32 {
        self.rows
    }

    /// The number of columns the grid was configured with.
    pub closed spec fn spec_cols(self) -> i32 {
        self.cols
    }

    /// How many widgets have been placed in the grid.
    pub closed spec fn spec_current(self) -> i32 {
        self.current
    }

    /// Creates a new vertical grid around a fresh vertical pack, configured
    /// for one row and one column.
    pub fn new(tk: &mut Toolkit, x: i32, y: i32, w: i32, h: i32, label: &str) -> (r: VGrid)
        requires
            old(tk).wf(),
            old(tk).num_widgets() < usize::MAX,
        ensures
            final(tk).wf(),
            liveness_monotone(*old(tk), *final(tk)),
            fresh_widget(*old(tk), *final(tk), r.wid(), x, y, w, h, label@),
            r.spec_rows() == 1,
            r.spec_cols() == 1,
            r.spec_current() == 0,
    {
        let vpack = Pack::new(tk, x, y, w, h, label);
        VGrid { vpack, rows: 1, cols: 1, current: 0 }
    }

    /// Borrows the grid's outer pack.
    pub fn pack(&self) -> (r: &Pack)
        ensures
            r.wid() == self.wid(),
    {
        &self.vpack
    }

    /// Reads the configured number of rows.
    pub fn rows(&self) -> (r: i32)
        ensures
            r == self.spec_rows(),
    {
        self.rows
    }

    /// Reads the configured number of columns.
    pub fn cols(&self) -> (r: i32)
        ensures
            r == self.spec_cols(),
    {
        self.cols
    }

    /// Sets the params for the grid: stores the row and column counts, each
    /// clamped to at least one, sets the pack's spacing and creates one
    /// horizontal row pack per row, attached to the grid's vertical pack.
    pub fn set_params(&mut self, tk: &mut Toolkit, rows: i32, cols: i32, spacing: i32)
        requires
            old(tk).wf(),
            old(tk).is_widget(old(self).wid()),
            !old(tk).widget(old(self).wid()).destroyed,
            old(tk).num_widgets() + clamp_dim(rows as int) <= usize::MAX,
            old(tk).widget(old(self).wid()).children@.len() + clamp_dim(rows as int)
                <= usize::MAX,
        ensures
            final(tk).wf(),
            liveness_monotone(*old(tk), *final(tk)),
            final(self).wid() == old(self).wid(),
            final(self).spec_rows() == clamp_dim(rows as int),
            final(self).spec_cols() == clamp_dim(cols as int),
            final(self).spec_current() == old(self).spec_current(),
            grid_params_post(*old(tk), *final(tk), old(self).wid(), clamp_dim(rows as int),
                spacing, true, old(tk).widget(old(self).wid()).w, 0),
    {
        self.vpack.set_spacing(tk, spacing);
        let rows = if rows < 1 {
            1
        } else {
            rows
        };
        let cols = if cols < 1 {
            1
        } else {
            cols
        };
        self.rows = rows;
        self.cols = cols;
        let width = self.vpack.width(tk);
        grid_fill(&self.vpack, tk, rows, spacing, true, width, 0);
    }
}

/// Defines a Horizontal Grid (custom widget).
/// Requires setting the params manually using the set_params method, which
/// takes the rows, columns and spacing; the columns are vertical packs
/// stacked inside the grid's horizontal pack.
pub struct HGrid {
    hpack: Pack,
    rows: i32,
    cols: i32,
    current: i32,
}

impl HGrid {
    /// The identifier of the grid's outer pack.
    pub closed spec fn wid(self) -> usize {
        self.hpack.wid()
    }

    /// The number of rows the grid was configured with.
    pub closed spec fn spec_rows(self) -> i32 {
        self.rows
    }

    /// The number of columns the grid was configured with.
    pub closed spec fn spec_cols(self) -> i32 {
        self.cols
    }

    /// How many widgets have been placed in the grid.
    pub closed spec fn spec_current(self) -> i32 {
        self.current
    }

    /// Creates a new horizontal grid around a fresh pack laid out
    /// horizontally, configured for one row and one column.
    pub fn new(tk: &mut Toolkit, x: i32, y: i32, w: i32, h: i32, label: &str) -> (r: HGrid)
        requires
            old(tk).wf(),
            old(tk).num_widgets() < usize::MAX,
        ensures
            final(tk).wf(),
            liveness_monotone(*old(tk), *final(tk)),
            final(tk).num_widgets() == old(tk).num_widgets() + 1,
            r.wid() == final(tk).num_widgets(),
            final(tk).is_widget(r.wid()),
            !old(tk).is_widget(r.wid()),
            final(tk).widget(r.wid()).destroyed == false,
            final(tk).widget(r.wid()).parent == 0,
            final(tk).widget(r.wid()).handles == 1,
            final(tk).widget(r.wid()).delete_requests == 0,
            final(tk).widget(r.wid()).x == x,
            final(tk).widget(r.wid()).y == y,
            final(tk).widget(r.wid()).w == w,
            final(tk).widget(r.wid()).h == h,
            final(tk).widget(r.wid()).spacing == 0,
            final(tk).widget(r.wid()).horizontal == true,
            final(tk).widget(r.wid()).label@ == label@,
            final(tk).widget(r.wid()).children@ == Seq::<usize>::empty(),
            forall|j: usize|
                old(tk).is_widget(j) ==> same_widget(#[trigger] old(tk).widget(j),
                    final(tk).widget(j)),
            final(tk).spec_documents() == old(tk).spec_documents(),
            final(tk).spec_saved_files() == old(tk).spec_saved_files(),
            r.spec_rows() == 1,
            r.spec_cols() == 1,
            r.spec_current() == 0,
    {
        let hpack = Pack::new(tk, x, y, w, h, label);
        hpack.set_type(tk, PackType::Horizontal);
        HGrid { hpack, rows: 1, cols: 1, current: 0 }
    }

    /// Borrows the grid's outer pack.
    pub fn pack(&self) -> (r: &Pack)
        ensures
            r.wid() == self.wid(),
    {
        &self.hpack
    }

    /// Reads the configured number of rows.
    pub fn rows(&self) -> (r: i32)
        ensures
            r == self.spec_rows(),
    {
        self.rows
    }

    /// Reads the configured number of columns.
    pub fn cols(&self) -> (r: i32)
        ensures
            r == self.spec_cols(),
    {
        self.cols
    }

    /// Sets the params for the grid: stores the row and column counts, each
    /// clamped to at least one, sets the pack's spacing and creates one
    /// vertical column pack per column, attached to the grid's horizontal
    /// pack.
    pub fn set_params(&mut self, tk: &mut Toolkit, rows: i32, cols: i32, spacing: i32)
        requires
            old(tk).wf(),
            old(tk).is_widget(old(self).wid()),
            !old(tk).widget(old(self).wid()).destroyed,
            old(tk).num_widgets() + clamp_dim(cols as int) <= usize::MAX,
            old(tk).widget(old(self).wid()).children@.len() + clamp_dim(cols as int)
                <= usize::MAX,
        ensures
            final(tk).wf(),
            liveness_monotone(*old(tk), *final(tk)),
            final(self).wid() == old(self).wid(),
            final(self).spec_rows() == clamp_dim(rows as int),
            final(self).spec_cols() == clamp_dim(cols as int),
            final(self).spec_current() == old(self).spec_current(),
            grid_params_post(*old(tk), *final(tk), old(self).wid(), clamp_dim(cols as int),
                spacing, false, 0, old(tk).widget(old(self).wid()).h),
    {
        self.hpack.set_spacing(tk, spacing);
        let rows = if rows < 1 {
            1
        } else {
            rows
        };
        let cols = if cols < 1 {
            1
        } else {
            cols
        };
        self.rows = rows;
        self.cols = cols;
        let height = self.hpack.height(tk);
        grid_fill(&self.hpack, tk, cols, spacing, false, 0, height);
    }
}

} // verus!
