//! The behaviour every concrete widget wrapper shares.
//!
//! Each widget type in this crate is a thin wrapper around one
//! [`WidgetHandle`].  The [`WidgetExt`] trait gives them all the same
//! lifetime discipline: every operation that touches the native object first
//! requires the liveness check to pass, and the liveness flag itself is read
//! through the shared tracker, never copied per wrapper.  [`GroupExt`] adds
//! the container operations: attaching a child hands its ownership to the
//! native tree, and fetching a child by index mints a handle that observes
//! the same liveness flag as every other handle of that child.

use vstd::prelude::*;

use crate::tracker::attach_post;
use crate::tracker::fresh_widget;
use crate::tracker::liveness_monotone;
use crate::tracker::others_unchanged;
use crate::tracker::same_widget;
use crate::tracker::same_widget_but_handles;
use crate::tracker::same_widget_but_shown;
use crate::tracker::same_widget_protocol;
use crate::tracker::Toolkit;
use crate::tracker::WidgetHandle;

verus! {

/// Operations shared by every widget wrapper.
pub trait WidgetExt: Sized {
    /// The identifier of the native widget this wrapper refers to.
    spec fn wid(&self) -> usize;

    /// Borrows the underlying handle.
    fn handle(&self) -> (hd: &WidgetHandle)
        ensures
            hd.id() == self.wid(),
    ;

    /// Gives the wrapper up, yielding the raw handle; dispose of it through
    /// [`Toolkit::drop_handle`].
    fn into_handle(self) -> (hd: WidgetHandle)
        ensures
            hd.id() == self.wid(),
    ;

    /// Whether the native widget has already been destroyed by its
    /// native-side owner.  Every wrapper and handle naming the same widget
    /// observes the same flag.
    fn was_deleted(&self, tk: &Toolkit) -> (r: bool)
        requires
            tk.is_widget(self.wid()),
        ensures
            r == tk.widget(self.wid()).destroyed,
    {
        tk.was_deleted(self.handle())
    }

    /// The widget's width; the widget must still be alive.
    fn width(&self, tk: &Toolkit) -> (r: i32)
        requires
            tk.is_widget(self.wid()),
            !tk.widget(self.wid()).destroyed,
        ensures
            r == tk.widget(self.wid()).w,
    {
        tk.width_of(self.handle())
    }

    /// The widget's height; the widget must still be alive.
    fn height(&self, tk: &Toolkit) -> (r: i32)
        requires
            tk.is_widget(self.wid()),
            !tk.widget(self.wid()).destroyed,
        ensures
            r == tk.widget(self.wid()).h,
    {
        tk.height_of(self.handle())
    }

    /// The widget's horizontal position; the widget must still be alive.
    fn x(&self, tk: &Toolkit) -> (r: i32)
        requires
            tk.is_widget(self.wid()),
            !tk.widget(self.wid()).destroyed,
        ensures
            r == tk.widget(self.wid()).x,
    {
        tk.x_of(self.handle())
    }

    /// The widget's vertical position; the widget must still be alive.
    fn y(&self, tk: &Toolkit) -> (r: i32)
        requires
            tk.is_widget(self.wid()),
            !tk.widget(self.wid()).destroyed,
        ensures
            r == tk.widget(self.wid()).y,
    {
        tk.y_of(self.handle())
    }

    /// Shows the widget.  A shown top-level window is held by the
    /// platform: the wrapper will not request its deletion while it stays
    /// shown.
    fn show(&self, tk: &mut Toolkit)
        requires
            old(tk).wf(),
            old(tk).is_widget(self.wid()),
            !old(tk).widget(self.wid()).destroyed,
        ensures
            final(tk).wf(),
            liveness_monotone(*old(tk), *final(tk)),
            others_unchanged(*old(tk), *final(tk), self.wid()),
            final(tk).widget(self.wid()).shown == true,
            same_widget_but_shown(old(tk).widget(self.wid()), final(tk).widget(self.wid())),
    {
        tk.set_shown(self.handle(), true)
    }

    /// Hides the widget.  A hidden, never-attached top-level widget is the
    /// wrapper's own again: dropping its last handle requests native
    /// deletion.
    fn hide_widget(&self, tk: &mut Toolkit)
        requires
            old(tk).wf(),
            old(tk).is_widget(self.wid()),
            !old(tk).widget(self.wid()).destroyed,
        ensures
            final(tk).wf(),
            liveness_monotone(*old(tk), *final(tk)),
            others_unchanged(*old(tk), *final(tk), self.wid()),
            final(tk).widget(self.wid()).shown == false,
            same_widget_but_shown(old(tk).widget(self.wid()), final(tk).widget(self.wid())),
    {
        tk.set_shown(self.handle(), false)
    }

    /// Whether the widget is currently shown.
    fn shown(&self, tk: &Toolkit) -> (r: bool)
        requires
            tk.is_widget(self.wid()),
            !tk.widget(self.wid()).destroyed,
        ensures
            r == tk.widget(self.wid()).shown,
    {
        tk.is_shown(self.handle())
    }

    /// Resizes the widget; it must still be alive.
    fn set_size(&self, tk: &mut Toolkit, w: i32, h: i32)
        requires
            old(tk).wf(),
            old(tk).is_widget(self.wid()),
            !old(tk).widget(self.wid()).destroyed,
        ensures
            final(tk).wf(),
            liveness_monotone(*old(tk), *final(tk)),
            others_unchanged(*old(tk), *final(tk), self.wid()),
            same_widget_protocol(old(tk).widget(self.wid()), final(tk).widget(self.wid())),
            final(tk).widget(self.wid()).w == w,
            final(tk).widget(self.wid()).h == h,
            final(tk).widget(self.wid()).x == old(tk).widget(self.wid()).x,
            final(tk).widget(self.wid()).y == old(tk).widget(self.wid()).y,
            final(tk).widget(self.wid()).spacing == old(tk).widget(self.wid()).spacing,
            final(tk).widget(self.wid()).horizontal == old(tk).widget(self.wid()).horizontal,
            final(tk).widget(self.wid()).red == old(tk).widget(self.wid()).red,
            final(tk).widget(self.wid()).green == old(tk).widget(self.wid()).green,
            final(tk).widget(self.wid()).blue == old(tk).widget(self.wid()).blue,
            final(tk).widget(self.wid()).draw_depth == old(tk).widget(self.wid()).draw_depth,
    {
        tk.set_size(self.handle(), w, h)
    }

    /// Moves and resizes the widget; it must still be alive.
    fn resize(&self, tk: &mut Toolkit, x: i32, y: i32, w: i32, h: i32)
        requires
            old(tk).wf(),
            old(tk).is_widget(self.wid()),
            !old(tk).widget(self.wid()).destroyed,
        ensures
            final(tk).wf(),
            liveness_monotone(*old(tk), *final(tk)),
            others_unchanged(*old(tk), *final(tk), self.wid()),
            same_widget_protocol(old(tk).widget(self.wid()), final(tk).widget(self.wid())),
            final(tk).widget(self.wid()).x == x,
            final(tk).widget(self.wid()).y == y,
            final(tk).widget(self.wid()).w == w,
            final(tk).widget(self.wid()).h == h,
            final(tk).widget(self.wid()).spacing == old(tk).widget(self.wid()).spacing,
            final(tk).widget(self.wid()).horizontal == old(tk).widget(self.wid()).horizontal,
            final(tk).widget(self.wid()).red == old(tk).widget(self.wid()).red,
            final(tk).widget(self.wid()).green == old(tk).widget(self.wid()).green,
            final(tk).widget(self.wid()).blue == old(tk).widget(self.wid()).blue,
            final(tk).widget(self.wid()).draw_depth == old(tk).widget(self.wid()).draw_depth,
    {
        tk.resize(self.handle(), x, y, w, h)
    }
}

/// Operations shared by the container widgets.
pub trait GroupExt: WidgetExt {
    /// Attaches `child` to this container.  From here on the native-side
    /// tree owns the child: the wrapper will never request its deletion, and
    /// the container's teardown destroys it.  The model keeps the tree in
    /// creation order, so a container only takes widgets created after it.
    fn add<W: WidgetExt>(&self, tk: &mut Toolkit, child: &W)
        requires
            old(tk).wf(),
            old(tk).is_widget(self.wid()),
            old(tk).is_widget(child.wid()),
            !old(tk).widget(self.wid()).destroyed,
            !old(tk).widget(child.wid()).destroyed,
            old(tk).widget(child.wid()).parent == 0,
            self.wid() < child.wid(),
            old(tk).widget(self.wid()).children@.len() < usize::MAX,
        ensures
            final(tk).wf(),
            liveness_monotone(*old(tk), *final(tk)),
            attach_post(*old(tk), *final(tk), self.wid(), child.wid()),
    {
        tk.attach(self.handle(), child.handle())
    }

    /// How many children the container currently holds; it must be alive.
    fn children(&self, tk: &Toolkit) -> (r: usize)
        requires
            tk.is_widget(self.wid()),
            !tk.widget(self.wid()).destroyed,
        ensures
            r == tk.widget(self.wid()).children@.len(),
    {
        tk.children_count(self.handle())
    }

    /// Fetches the `i`-th child as a fresh handle sharing that child's
    /// liveness tracker, or `None` when the index is out of range.
    fn child(&self, tk: &mut Toolkit, i: usize) -> (r: Option<WidgetHandle>)
        requires
            old(tk).wf(),
            old(tk).is_widget(self.wid()),
            !old(tk).widget(self.wid()).destroyed,
            i < old(tk).widget(self.wid()).children@.len() ==> old(tk).widget(
                old(tk).widget(self.wid()).children@[i as int]).handles < u64::MAX,
        ensures
            final(tk).wf(),
            liveness_monotone(*old(tk), *final(tk)),
            i >= old(tk).widget(self.wid()).children@.len() ==> r is None && *final(tk) == *old(
                tk),
            i < old(tk).widget(self.wid()).children@.len() ==> {
                let c = old(tk).widget(self.wid()).children@[i as int];
                &&& r matches Some(hd2)
                &&& hd2.id() == c
                &&& final(tk).num_widgets() == old(tk).num_widgets()
                &&& final(tk).widget(c).handles == old(tk).widget(c).handles + 1
                &&& same_widget_but_handles(old(tk).widget(c), final(tk).widget(c))
                &&& forall|j: usize|
                    old(tk).is_widget(j) && j != c ==> same_widget(#[trigger] old(tk).widget(j),
                        final(tk).widget(j))
                &&& final(tk).spec_documents() == old(tk).spec_documents()
                &&& final(tk).spec_saved_files() == old(tk).spec_saved_files()
            },
    {
        let n = tk.children_count(self.handle());
        if i >= n {
            None
        } else {
            let c = tk.child_id(self.handle(), i);
            proof {
                assert(tk.widget_ok(self.wid()));
            }
            tk.wrap_raw(c)
        }
    }
}

} // verus!
