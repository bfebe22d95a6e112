//! Widget handle and liveness tracking.
//!
//! Every native widget is owned by the native side of the toolkit: a parent
//! container, or the platform for a top-level window.  The wrapper layer only
//! ever holds *handles*.  This module keeps, per native widget, a liveness
//! flag that the native destruction callback flips from `false` to `true`
//! exactly once, a count of the wrapper handles that share that flag, and the
//! number of native deletion requests the wrapper has issued.  The central
//! safety contract is that a deletion request is issued at most once per
//! widget, and only for a widget the wrapper still owns: top-level and never
//! attached to a container.
//!
//! The whole native object model is carried by one explicit [`Toolkit`]
//! value: all handles into the same `Toolkit` that name the same widget read
//! the same liveness flag, which is what makes the flag shared rather than
//! per-copy.

use vstd::prelude::*;

verus! {

/// The model state of one native widget.
///
/// The native side owns the real object; this record keeps what the wrapper
/// protocol needs to know about it: whether it has been destroyed, where it
/// hangs in the widget tree, how many wrapper handles refer to it, and how
/// many native deletion requests the wrapper has issued for it.  Geometry,
/// spacing, orientation, colour and the child list are the attributes the
/// layout helpers in the widget modules read and write.
#[allow(non_camel_case_types)]
pub struct Fl_Widget {
    /// Liveness flag: set once by the native destruction callback.
    pub destroyed: bool,
    /// Identifier of the owning container, or 0 for a top-level widget.
    pub parent: usize,
    /// Number of live wrapper handles sharing this widget's tracker.
    pub handles: u64,
    /// Native deletion requests issued by the wrapper for this widget.
    pub delete_requests: u64,
    /// Horizontal position.
    pub x: i32,
    /// Vertical position.
    pub y: i32,
    /// Width.
    pub w: i32,
    /// Height.
    pub h: i32,
    /// Spacing between children, for container widgets that lay them out.
    pub spacing: i32,
    /// Whether a layout container arranges its children horizontally.
    pub horizontal: bool,
    /// Whether the widget is currently shown; a shown top-level window is
    /// held by the platform, not by the wrapper.
    pub shown: bool,
    /// Red component of the widget's current colour value.
    pub red: u8,
    /// Green component of the widget's current colour value.
    pub green: u8,
    /// Blue component of the widget's current colour value.
    pub blue: u8,
    /// Colour depth of a framebuffer installed by a draw helper, 0 if none.
    pub draw_depth: u8,
    /// The label the widget was created with.
    pub label: String,
    /// Identifiers of the children attached to this widget, in order.
    pub children: Vec<usize>,
    /// The list items a browser widget holds: text and checked state.
    pub items: Vec<(String, bool)>,
}

/// A non-owning reference to a native widget.
///
/// Handles are deliberately neither `Copy` nor `Clone`: every copy must go
/// through [`Toolkit::clone_handle`] so that the tracker knows how many
/// handles exist, and every disposal through [`Toolkit::drop_handle`] so that
/// wrapper-side teardown runs exactly once, when the last handle goes away.
pub struct WidgetHandle {
    id: usize,
}

impl WidgetHandle {
    /// The identifier of the widget this handle refers to.
    pub closed spec fn id(self) -> usize {
        self.id
    }

    /// Reads the identifier of the widget this handle refers to.
    pub fn widget_id(&self) -> (id: usize)
        ensures
            id == self.id(),
    {
        self.id
    }
}

/// The explicit model of the native toolkit.
///
/// Widgets are identified by the order of their creation, starting at 1;
/// identifier 0 plays the role of the null pointer and never names a widget.
pub struct Toolkit {
    widgets: Vec<Fl_Widget>,
    documents: Vec<String>,
    saved_files: Vec<String>,
}

/// True when the two records agree on every attribute other than the
/// protocol bookkeeping (liveness flag, handle count, deletion requests).
pub open spec fn same_widget_attrs(a: Fl_Widget, b: Fl_Widget) -> bool {
    &&& a.parent == b.parent
    &&& a.x == b.x
    &&& a.y == b.y
    &&& a.w == b.w
    &&& a.h == b.h
    &&& a.spacing == b.spacing
    &&& a.horizontal == b.horizontal
    &&& a.shown == b.shown
    &&& a.red == b.red
    &&& a.green == b.green
    &&& a.blue == b.blue
    &&& a.draw_depth == b.draw_depth
    &&& a.label@ == b.label@
    &&& a.children@ == b.children@
    &&& a.items@ == b.items@
}

/// True when the two records agree on everything but the liveness flag.
pub open spec fn same_widget_but_liveness(a: Fl_Widget, b: Fl_Widget) -> bool {
    &&& same_widget_attrs(a, b)
    &&& a.handles == b.handles
    &&& a.delete_requests == b.delete_requests
}

/// True when the two records agree on everything but the handle count.
pub open spec fn same_widget_but_handles(a: Fl_Widget, b: Fl_Widget) -> bool {
    &&& same_widget_attrs(a, b)
    &&& a.destroyed == b.destroyed
    &&& a.delete_requests == b.delete_requests
}

/// True when the two records agree on every attribute.
pub open spec fn same_widget(a: Fl_Widget, b: Fl_Widget) -> bool {
    &&& same_widget_but_liveness(a, b)
    &&& a.destroyed == b.destroyed
}

impl Toolkit {
    /// How many widgets have ever been created in this toolkit.
    pub closed spec fn num_widgets(self) -> nat {
        self.widgets@.len()
    }

    /// Whether `id` names a widget of this toolkit.
    pub open spec fn is_widget(self, id: usize) -> bool {
        1 <= id && id <= self.num_widgets()
    }

    /// The model record of widget `id`.
    pub closed spec fn widget(self, id: usize) -> Fl_Widget
        recommends
            self.is_widget(id),
    {
        self.widgets@[id as int - 1]
    }

    /// The documents the native help viewer can load, as character sequences.
    pub closed spec fn spec_documents(self) -> Seq<Seq<char>> {
        self.documents@.map(|i: int, d: String| d@)
    }

    /// The file names handed to the native image writer, in order.
    pub closed spec fn spec_saved_files(self) -> Seq<Seq<char>> {
        self.saved_files@.map(|i: int, d: String| d@)
    }

    /// The per-widget part of the toolkit invariant.
    pub open spec fn widget_ok(self, id: usize) -> bool {
        let rec = self.widget(id);
        &&& rec.delete_requests <= 1
        &&& (rec.delete_requests == 1 ==> rec.destroyed)
        &&& (rec.parent != 0 ==> self.is_widget(rec.parent) && rec.parent < id)
        &&& (rec.parent != 0 && self.widget(rec.parent).destroyed ==> rec.destroyed)
        &&& (forall|k: int|
            0 <= k < rec.children@.len() ==> self.is_widget(#[trigger] rec.children@[k])
                && self.widget(rec.children@[k]).parent == id)
        &&& (forall|k1: int, k2: int|
            0 <= k1 < k2 < rec.children@.len() ==> rec.children@[k1] != rec.children@[k2])
    }

    /// The toolkit invariant: deletion requested at most once per widget and
    /// only for already-destroyed widgets, parents created before their
    /// children, destruction closed downwards over the tree, and child lists
    /// consistent with the parent links.
    pub open spec fn wf(self) -> bool {
        forall|id: usize| self.is_widget(id) ==> #[trigger] self.widget_ok(id)
    }

    /// Whether `w` lies in the subtree rooted at `root`, following parent
    /// links upwards from `w`.
    pub open spec fn in_subtree(self, root: usize, w: usize) -> bool
        decreases w,
    {
        w == root || (self.is_widget(w) && {
            let p = self.widget(w).parent;
            p != 0 && p < w && self.in_subtree(root, p)
        })
    }

    /// A widget created before `root` cannot lie in `root`'s subtree:
    /// parent links only point at earlier widgets.
    pub proof fn lemma_subtree_below(self, root: usize, w: usize)
        requires
            w < root,
        ensures
            !self.in_subtree(root, w),
        decreases w,
    {
        if self.is_widget(w) {
            let p = self.widget(w).parent;
            if p != 0 && p < w {
                self.lemma_subtree_below(root, p);
            }
        }
    }

    /// Starts a toolkit with no widgets.
    pub fn new() -> (tk: Toolkit)
        ensures
            tk.wf(),
            tk.num_widgets() == 0,
            tk.spec_documents() == Seq::<Seq<char>>::empty(),
            tk.spec_saved_files() == Seq::<Seq<char>>::empty(),
    {
        let tk = Toolkit { widgets: Vec::new(), documents: Vec::new(), saved_files: Vec::new() };
        proof {
            assert(tk.spec_documents() =~= Seq::<Seq<char>>::empty());
            assert(tk.spec_saved_files() =~= Seq::<Seq<char>>::empty());
        }
        tk
    }

    /// Constructs a native widget and registers a fresh liveness tracker for
    /// it, returning the first handle.  The native allocation is assumed
    /// infallible, so construction always succeeds.
    pub fn create_widget(&mut self, x: i32, y: i32, w: i32, h: i32, label: &str) -> (hd:
        WidgetHandle)
        requires
            old(self).wf(),
            old(self).num_widgets() < usize::MAX,
        ensures
            final(self).wf(),
            liveness_monotone(*old(self), *final(self)),
            fresh_widget(*old(self), *final(self), hd.id(), x, y, w, h, label@),
    {
        let rec = Fl_Widget {
            destroyed: false,
            parent: 0,
            handles: 1,
            delete_requests: 0,
            x: x,
            y: y,
            w: w,
            h: h,
            spacing: 0,
            horizontal: false,
            shown: false,
            red: 0,
            green: 0,
            blue: 0,
            draw_depth: 0,
            label: label.to_owned(),
            children: Vec::new(),
            items: Vec::new(),
        };
        self.widgets.push(rec);
        let id = self.widgets.len();
        proof {
            assert(forall|j: usize|
                old(self).is_widget(j) ==> same_widget(#[trigger] old(self).widget(j),
                    self.widget(j)));
            assert forall|j: usize| self.is_widget(j) implies #[trigger] self.widget_ok(j) by {
                if j != id {
                    assert(old(self).widget_ok(j));
                }
            }
        }
        WidgetHandle { id }
    }

    /// Whether the native widget behind the handle has already been
    /// destroyed.  Every handle naming the same widget reads the same flag.
    pub fn was_deleted(&self, hd: &WidgetHandle) -> (r: bool)
        requires
            self.is_widget(hd.id()),
        ensures
            r == self.widget(hd.id()).destroyed,
    {
        self.widgets[hd.id - 1].destroyed
    }

    /// Produces one more handle to the same native widget, sharing its
    /// liveness tracker.
    pub fn clone_handle(&mut self, hd: &WidgetHandle) -> (hd2: WidgetHandle)
        requires
            old(self).wf(),
            old(self).is_widget(hd.id()),
            old(self).widget(hd.id()).handles < u64::MAX,
        ensures
            final(self).wf(),
            liveness_monotone(*old(self), *final(self)),
            hd2.id() == hd.id(),
            final(self).num_widgets() == old(self).num_widgets(),
            final(self).widget(hd.id()).handles == old(self).widget(hd.id()).handles + 1,
            same_widget_but_handles(old(self).widget(hd.id()), final(self).widget(hd.id())),
            forall|j: usize|
                old(self).is_widget(j) && j != hd.id() ==> same_widget(
                    #[trigger] old(self).widget(j), final(self).widget(j)),
            final(self).spec_documents() == old(self).spec_documents(),
            final(self).spec_saved_files() == old(self).spec_saved_files(),
    {
        let idx = hd.id - 1;
        let n = self.widgets[idx].handles;
        self.widgets[idx].handles = n + 1;
        proof {
            assert forall|j: usize| self.is_widget(j) implies #[trigger] self.widget_ok(j) by {
                assert(old(self).widget_ok(j));
            }
        }
        WidgetHandle { id: hd.id }
    }
}

/// Holds when widget `id` has just been created: it is the newest widget,
/// alive, top-level, childless, with one handle and no deletion request, and
/// everything else in the toolkit is exactly as before.
pub open spec fn fresh_widget(
    pre: Toolkit,
    post: Toolkit,
    id: usize,
    x: i32,
    y: i32,
    w: i32,
    h: i32,
    label: Seq<char>,
) -> bool {
    &&& post.num_widgets() == pre.num_widgets() + 1
    &&& id == post.num_widgets()
    &&& post.is_widget(id)
    &&& !pre.is_widget(id)
    &&& post.widget(id).destroyed == false
    &&& post.widget(id).parent == 0
    &&& post.widget(id).handles == 1
    &&& post.widget(id).delete_requests == 0
    &&& post.widget(id).x == x
    &&& post.widget(id).y == y
    &&& post.widget(id).w == w
    &&& post.widget(id).h == h
    &&& post.widget(id).spacing == 0
    &&& post.widget(id).horizontal == false
    &&& post.widget(id).shown == false
    &&& post.widget(id).red == 0
    &&& post.widget(id).green == 0
    &&& post.widget(id).blue == 0
    &&& post.widget(id).draw_depth == 0
    &&& post.widget(id).label@ == label
    &&& post.widget(id).children@ == Seq::<usize>::empty()
    &&& post.widget(id).items@ == Seq::<(String, bool)>::empty()
    &&& forall|j: usize|
        pre.is_widget(j) ==> same_widget(#[trigger] pre.widget(j), post.widget(j))
    &&& post.spec_documents() == pre.spec_documents()
    &&& post.spec_saved_files() == pre.spec_saved_files()
}

/// Holds when widget `child` has just been attached to the container
/// `parent`: the child's parent link is set, it stands last in the parent's
/// child list, and nothing else in the toolkit has moved.  From this moment
/// on, ownership of the child belongs to the native-side tree.
pub open spec fn attach_post(pre: Toolkit, post: Toolkit, parent: usize, child: usize) -> bool {
    &&& post.num_widgets() == pre.num_widgets()
    &&& post.widget(child).parent == parent
    &&& post.widget(parent).children@ == pre.widget(parent).children@.push(child)
    &&& forall|j: usize|
        pre.is_widget(j) && j != parent && j != child ==> same_widget(#[trigger] pre.widget(j),
            post.widget(j))
    &&& post.widget(child).destroyed == pre.widget(child).destroyed
    &&& post.widget(child).handles == pre.widget(child).handles
    &&& post.widget(child).delete_requests == pre.widget(child).delete_requests
    &&& post.widget(child).x == pre.widget(child).x
    &&& post.widget(child).y == pre.widget(child).y
    &&& post.widget(child).w == pre.widget(child).w
    &&& post.widget(child).h == pre.widget(child).h
    &&& post.widget(child).spacing == pre.widget(child).spacing
    &&& post.widget(child).horizontal == pre.widget(child).horizontal
    &&& post.widget(child).shown == pre.widget(child).shown
    &&& post.widget(child).label@ == pre.widget(child).label@
    &&& post.widget(child).children@ == pre.widget(child).children@
    &&& post.widget(child).items@ == pre.widget(child).items@
    &&& post.widget(parent).items@ == pre.widget(parent).items@
    &&& post.widget(parent).parent == pre.widget(parent).parent
    &&& post.widget(parent).destroyed == pre.widget(parent).destroyed
    &&& post.widget(parent).handles == pre.widget(parent).handles
    &&& post.widget(parent).delete_requests == pre.widget(parent).delete_requests
    &&& post.widget(parent).x == pre.widget(parent).x
    &&& post.widget(parent).y == pre.widget(parent).y
    &&& post.widget(parent).w == pre.widget(parent).w
    &&& post.widget(parent).h == pre.widget(parent).h
    &&& post.widget(parent).spacing == pre.widget(parent).spacing
    &&& post.widget(parent).horizontal == pre.widget(parent).horizontal
    &&& post.widget(parent).shown == pre.widget(parent).shown
    &&& post.widget(parent).label@ == pre.widget(parent).label@
    &&& post.spec_documents() == pre.spec_documents()
    &&& post.spec_saved_files() == pre.spec_saved_files()
}

/// Liveness only ever moves from alive to destroyed: every widget destroyed
/// in `pre` is still destroyed in `post`.  Every operation of the toolkit
/// preserves this, which is what lets one handle's observation of
/// `was_deleted` speak for every other copy from that point on.
pub open spec fn liveness_monotone(pre: Toolkit, post: Toolkit) -> bool {
    forall|j: usize|
        pre.is_widget(j) && (#[trigger] pre.widget(j)).destroyed ==> post.is_widget(j)
            && post.widget(j).destroyed
}

/// Holds when the native side has destroyed the subtree rooted at `root`:
/// every widget of that subtree is marked destroyed, no other liveness flag
/// changes, and — decisively — no widget's deletion-request count moves,
/// because a native teardown is not the wrapper's doing.
pub open spec fn destroy_post(pre: Toolkit, post: Toolkit, root: usize) -> bool {
    &&& post.num_widgets() == pre.num_widgets()
    &&& forall|j: usize|
        pre.is_widget(j) ==> same_widget_but_liveness(#[trigger] pre.widget(j), post.widget(j))
    &&& forall|j: usize|
        pre.is_widget(j) ==> (#[trigger] post.widget(j)).destroyed == (pre.widget(j).destroyed
            || pre.in_subtree(root, j))
    &&& post.spec_documents() == pre.spec_documents()
    &&& post.spec_saved_files() == pre.spec_saved_files()
}

/// Holds when one wrapper handle for widget `id` has been disposed of.
///
/// If it was the last handle and the widget was top-level, not currently
/// shown, never attached to a container and still alive, the wrapper owned
/// it outright: exactly one native deletion request goes out and the
/// widget's subtree is destroyed.  In every other case — copies remain,
/// ownership went to a container or to the platform while the widget is
/// shown, or the native side already destroyed the widget — no deletion
/// request is issued and no liveness flag moves.
pub open spec fn drop_post(pre: Toolkit, post: Toolkit, id: usize) -> bool {
    let rec = pre.widget(id);
    let last = rec.handles == 1;
    let owned = rec.parent == 0 && !rec.shown && !rec.destroyed;
    &&& post.num_widgets() == pre.num_widgets()
    &&& same_widget_attrs(rec, post.widget(id))
    &&& post.widget(id).handles == rec.handles - 1
    &&& if last && owned {
        &&& post.widget(id).delete_requests == rec.delete_requests + 1
        &&& post.widget(id).destroyed
        &&& forall|j: usize|
            pre.is_widget(j) && j != id ==> same_widget_but_liveness(#[trigger] pre.widget(j),
                post.widget(j))
        &&& forall|j: usize|
            pre.is_widget(j) ==> (#[trigger] post.widget(j)).destroyed == (pre.widget(j).destroyed
                || pre.in_subtree(id, j))
    } else {
        &&& post.widget(id).delete_requests == rec.delete_requests
        &&& post.widget(id).destroyed == rec.destroyed
        &&& forall|j: usize|
            pre.is_widget(j) && j != id ==> same_widget(#[trigger] pre.widget(j), post.widget(j))
    }
    &&& post.spec_documents() == pre.spec_documents()
    &&& post.spec_saved_files() == pre.spec_saved_files()
}

/// Two toolkit states with equally many widgets and the same parent links
/// agree on which widgets lie in which subtree.
pub proof fn lemma_in_subtree_agrees(a: Toolkit, b: Toolkit, root: usize, w: usize)
    requires
        a.num_widgets() == b.num_widgets(),
        forall|j: usize| a.is_widget(j) ==> (#[trigger] a.widget(j)).parent == b.widget(j).parent,
    ensures
        a.in_subtree(root, w) == b.in_subtree(root, w),
    decreases w,
{
    if w != root && a.is_widget(w) {
        let p = a.widget(w).parent;
        if p != 0 && p < w {
            lemma_in_subtree_agrees(a, b, root, p);
        }
    }
}

impl Toolkit {
    /// Marks the widget `root` and every widget of its subtree destroyed.
    /// Children are created after their parents, so one ascending sweep
    /// reaches every descendant.
    fn destroy_tree(&mut self, root: usize)
        requires
            old(self).wf(),
            old(self).is_widget(root),
        ensures
            final(self).wf(),
            destroy_post(*old(self), *final(self), root),
    {
        let n = self.widgets.len();
        self.widgets[root - 1].destroyed = true;
        proof {
            assert forall|j: usize| 1 <= j <= root implies (#[trigger] self.widget(j)).destroyed
                == (old(self).widget(j).destroyed || old(self).in_subtree(root, j)) by {
                if j < root {
                    old(self).lemma_subtree_below(root, j);
                }
            }
        }
        let mut i: usize = root;
        while i < n
            invariant
                old(self).wf(),
                old(self).is_widget(root),
                root <= i <= n,
                n == old(self).num_widgets(),
                self.num_widgets() == n,
                self.spec_documents() == old(self).spec_documents(),
                self.spec_saved_files() == old(self).spec_saved_files(),
                forall|j: usize|
                    old(self).is_widget(j) ==> same_widget_but_liveness(
                        #[trigger] old(self).widget(j), self.widget(j)),
                forall|j: usize|
                    1 <= j <= i ==> (#[trigger] self.widget(j)).destroyed == (old(self).widget(
                        j).destroyed || old(self).in_subtree(root, j)),
                forall|j: usize|
                    i < j <= n ==> (#[trigger] self.widget(j)).destroyed == old(self).widget(
                        j).destroyed,
            decreases n - i,
        {
            let ghost prev = *self;
            let ghost id: usize = (i + 1) as usize;
            proof {
                assert(old(self).widget_ok(id));
                assert(same_widget_but_liveness(old(self).widget(id), self.widget(id)));
            }
            let p = self.widgets[i].parent;
            if p != 0 && self.widgets[p - 1].destroyed {
                proof {
                    assert(p < id && old(self).is_widget(p));
                    if !old(self).widget(id).destroyed {
                        assert(self.widget(p).destroyed);
                        if old(self).widget(p).destroyed {
                            assert(old(self).widget(id).destroyed);
                        }
                        assert(old(self).in_subtree(root, p));
                        assert(old(self).in_subtree(root, id));
                    }
                }
                self.widgets[i].destroyed = true;
                proof {
                    assert(self.widget(id).destroyed == (old(self).widget(id).destroyed || old(
                        self).in_subtree(root, id)));
                }
            } else {
                proof {
                    if p == 0 {
                        assert(!old(self).in_subtree(root, id));
                    } else {
                        assert(p < id && old(self).is_widget(p));
                        assert(!self.widget(p).destroyed);
                        assert(!old(self).in_subtree(root, p));
                        assert(!old(self).in_subtree(root, id));
                    }
                    assert(self.widget(id).destroyed == (old(self).widget(id).destroyed || old(
                        self).in_subtree(root, id)));
                }
            }
            proof {
                assert forall|j: usize|
                    1 <= j <= i + 1 implies (#[trigger] self.widget(j)).destroyed == (old(
                    self).widget(j).destroyed || old(self).in_subtree(root, j)) by {
                    if j != id {
                        assert(prev.widget(j) == self.widget(j));
                        assert(prev.widget(j).destroyed == (old(self).widget(j).destroyed || old(
                            self).in_subtree(root, j)));
                    }
                }
                assert forall|j: usize|
                    i + 1 < j <= n implies (#[trigger] self.widget(j)).destroyed == old(
                    self).widget(j).destroyed by {
                    assert(prev.widget(j) == self.widget(j));
                    assert(prev.widget(j).destroyed == old(self).widget(j).destroyed);
                }
            }
            i = i + 1;
        }
        proof {
            assert forall|j: usize| self.is_widget(j) implies #[trigger] self.widget_ok(j) by {
                assert(old(self).widget_ok(j));
                let rec = self.widget(j);
                if rec.parent != 0 && self.widget(rec.parent).destroyed {
                    assert(old(self).widget_ok(rec.parent));
                    if !old(self).widget(rec.parent).destroyed {
                        assert(old(self).in_subtree(root, rec.parent));
                        assert(old(self).in_subtree(root, j));
                    }
                }
            }
        }
    }

    /// The native destruction callback: the native side has deleted this
    /// widget — for example a parent container tearing down its children —
    /// and notifies the trackers of the whole subtree.  The wrapper issues no
    /// deletion request of its own here.
    pub fn native_destroy(&mut self, hd: &WidgetHandle)
        requires
            old(self).wf(),
            old(self).is_widget(hd.id()),
            !old(self).widget(hd.id()).destroyed,
        ensures
            final(self).wf(),
            liveness_monotone(*old(self), *final(self)),
            destroy_post(*old(self), *final(self), hd.id()),
            final(self).widget(hd.id()).destroyed,
    {
        self.destroy_tree(hd.widget_id());
        proof {
            assert(old(self).in_subtree(hd.id(), hd.id()));
        }
    }

    /// Disposes of one wrapper handle.  When the last handle of a widget the
    /// wrapper still owns outright goes away, exactly one native deletion
    /// request is issued and the widget (with its subtree) is destroyed;
    /// otherwise the tracker bookkeeping alone is released.
    pub fn drop_handle(&mut self, hd: WidgetHandle)
        requires
            old(self).wf(),
            old(self).is_widget(hd.id()),
            old(self).widget(hd.id()).handles >= 1,
        ensures
            final(self).wf(),
            liveness_monotone(*old(self), *final(self)),
            drop_post(*old(self), *final(self), hd.id()),
    {
        let idx = hd.id - 1;
        let n = self.widgets[idx].handles;
        self.widgets[idx].handles = n - 1;
        proof {
            assert forall|j: usize| self.is_widget(j) implies #[trigger] self.widget_ok(j) by {
                assert(old(self).widget_ok(j));
            }
        }
        if n == 1 && !self.widgets[idx].destroyed && self.widgets[idx].parent == 0
            && !self.widgets[idx].shown {
            let ghost mid = *self;
            let r = self.widgets[idx].delete_requests;
            proof {
                assert(old(self).widget_ok(hd.id()));
                assert(r == 0);
            }
            self.destroy_tree(hd.id);
            let ghost mid2 = *self;
            self.widgets[idx].delete_requests = r + 1;
            proof {
                assert(same_widget_but_liveness(mid.widget(hd.id()), mid2.widget(hd.id())));
                assert(mid.in_subtree(hd.id(), hd.id()));
                assert(same_widget_attrs(old(self).widget(hd.id()), self.widget(hd.id())));
                assert forall|j: usize|
                    old(self).is_widget(j) implies (#[trigger] self.widget(j)).destroyed == (old(
                    self).widget(j).destroyed || old(self).in_subtree(hd.id(), j)) by {
                    assert(same_widget_but_liveness(mid.widget(j), mid2.widget(j)));
                    lemma_in_subtree_agrees(mid, *old(self), hd.id(), j);
                }
                assert forall|j: usize|
                    old(self).is_widget(j) && j != hd.id() implies same_widget_but_liveness(
                    #[trigger] old(self).widget(j), self.widget(j)) by {
                    assert(same_widget_but_liveness(mid.widget(j), mid2.widget(j)));
                }
                assert forall|j: usize| self.is_widget(j) implies #[trigger] self.widget_ok(j) by {
                    assert(mid2.widget_ok(j));
                }
            }
        }
    }

    /// The wrapper explicitly requests native deletion of a still-alive
    /// widget, handing its last interest in it over: one deletion request
    /// goes out and the widget's subtree is destroyed.
    pub fn delete_widget(&mut self, hd: WidgetHandle)
        requires
            old(self).wf(),
            old(self).is_widget(hd.id()),
            !old(self).widget(hd.id()).destroyed,
            old(self).widget(hd.id()).handles >= 1,
        ensures
            final(self).wf(),
            liveness_monotone(*old(self), *final(self)),
            final(self).num_widgets() == old(self).num_widgets(),
            same_widget_attrs(old(self).widget(hd.id()), final(self).widget(hd.id())),
            final(self).widget(hd.id()).handles == old(self).widget(hd.id()).handles - 1,
            final(self).widget(hd.id()).delete_requests == old(self).widget(
                hd.id()).delete_requests + 1,
            final(self).widget(hd.id()).destroyed,
            forall|j: usize|
                old(self).is_widget(j) && j != hd.id() ==> same_widget_but_liveness(
                    #[trigger] old(self).widget(j), final(self).widget(j)),
            forall|j: usize|
                old(self).is_widget(j) ==> (#[trigger] final(self).widget(j)).destroyed == (old(
                    self).widget(j).destroyed || old(self).in_subtree(hd.id(), j)),
            final(self).spec_documents() == old(self).spec_documents(),
            final(self).spec_saved_files() == old(self).spec_saved_files(),
    {
        let idx = hd.id - 1;
        self.destroy_tree(hd.id);
        let ghost mid = *self;
        let n = self.widgets[idx].handles;
        self.widgets[idx].handles = n - 1;
        let r = self.widgets[idx].delete_requests;
        proof {
            assert(old(self).widget_ok(hd.id()));
            assert(r == 0);
        }
        self.widgets[idx].delete_requests = r + 1;
        proof {
            assert forall|j: usize| self.is_widget(j) implies #[trigger] self.widget_ok(j) by {
                assert(mid.widget_ok(j));
            }
        }
    }

    /// Registers the widget `child` as a child of the container `parent`:
    /// ownership of the child passes to the native-side tree.  The model
    /// keeps the tree in creation order, so a container only takes widgets
    /// created after it.
    pub fn attach(&mut self, parent: &WidgetHandle, child: &WidgetHandle)
        requires
            old(self).wf(),
            old(self).is_widget(parent.id()),
            old(self).is_widget(child.id()),
            !old(self).widget(parent.id()).destroyed,
            !old(self).widget(child.id()).destroyed,
            old(self).widget(child.id()).parent == 0,
            parent.id() < child.id(),
            old(self).widget(parent.id()).children@.len() < usize::MAX,
        ensures
            final(self).wf(),
            liveness_monotone(*old(self), *final(self)),
            attach_post(*old(self), *final(self), parent.id(), child.id()),
    {
        let pidx = parent.id - 1;
        let cidx = child.id - 1;
        self.widgets[pidx].children.push(child.id);
        self.widgets[cidx].parent = parent.id;
        proof {
            assert forall|j: usize| self.is_widget(j) implies #[trigger] self.widget_ok(j) by {
                assert(old(self).widget_ok(j));
                assert(old(self).widget_ok(parent.id()));
                let rec = self.widget(j);
                assert forall|k: int|
                    0 <= k < rec.children@.len() implies self.is_widget(
                    #[trigger] rec.children@[k]) && self.widget(rec.children@[k]).parent == j by {
                    if j == parent.id() && k == rec.children@.len() - 1 {
                        assert(rec.children@[k] == child.id());
                    } else {
                        assert(old(self).widget(j).children@[k] == rec.children@[k]);
                        assert(old(self).widget(rec.children@[k]).parent == j);
                        assert(rec.children@[k] != child.id());
                    }
                }
                assert forall|k1: int, k2: int|
                    0 <= k1 < k2 < rec.children@.len() implies rec.children@[k1]
                    != rec.children@[k2] by {
                    if j == parent.id() && k2 == rec.children@.len() - 1 {
                        assert(old(self).widget(old(self).widget(j).children@[k1]).parent == j);
                    }
                }
            }
        }
    }

    /// Captures a raw foreign pointer coming back from the native side as a
    /// handle.  The null pointer, or a value that names no widget of this
    /// toolkit, can never become a live handle; a known widget yields one
    /// more handle sharing that widget's liveness tracker.
    pub fn wrap_raw(&mut self, raw: usize) -> (r: Option<WidgetHandle>)
        requires
            old(self).wf(),
            old(self).is_widget(raw) ==> old(self).widget(raw).handles < u64::MAX,
        ensures
            final(self).wf(),
            liveness_monotone(*old(self), *final(self)),
            raw == 0 ==> r is None,
            !old(self).is_widget(raw) ==> r is None && *final(self) == *old(self),
            old(self).is_widget(raw) ==> {
                &&& r matches Some(h2)
                &&& h2.id() == raw
                &&& final(self).num_widgets() == old(self).num_widgets()
                &&& final(self).widget(raw).handles == old(self).widget(raw).handles + 1
                &&& same_widget_but_handles(old(self).widget(raw), final(self).widget(raw))
                &&& forall|j: usize|
                    old(self).is_widget(j) && j != raw ==> same_widget(
                        #[trigger] old(self).widget(j), final(self).widget(j))
                &&& final(self).spec_documents() == old(self).spec_documents()
                &&& final(self).spec_saved_files() == old(self).spec_saved_files()
            },
    {
        if raw == 0 || raw > self.widgets.len() {
            None
        } else {
            let idx = raw - 1;
            let n = self.widgets[idx].handles;
            self.widgets[idx].handles = n + 1;
            proof {
                assert forall|j: usize| self.is_widget(j) implies #[trigger] self.widget_ok(j) by {
                    assert(old(self).widget_ok(j));
                }
            }
            Some(WidgetHandle { id: raw })
        }
    }
}

/// Holds when only the attribute fields of widget `id` may have moved: every
/// other widget, and the toolkit environment, is exactly as before.
pub open spec fn others_unchanged(pre: Toolkit, post: Toolkit, id: usize) -> bool {
    &&& post.num_widgets() == pre.num_widgets()
    &&& forall|j: usize|
        pre.is_widget(j) && j != id ==> same_widget(#[trigger] pre.widget(j), post.widget(j))
    &&& post.spec_documents() == pre.spec_documents()
    &&& post.spec_saved_files() == pre.spec_saved_files()
}

/// True when the two records agree on everything but the browser items.
pub open spec fn same_widget_but_items(a: Fl_Widget, b: Fl_Widget) -> bool {
    &&& a.destroyed == b.destroyed
    &&& a.parent == b.parent
    &&& a.handles == b.handles
    &&& a.delete_requests == b.delete_requests
    &&& a.x == b.x
    &&& a.y == b.y
    &&& a.w == b.w
    &&& a.h == b.h
    &&& a.spacing == b.spacing
    &&& a.horizontal == b.horizontal
    &&& a.shown == b.shown
    &&& a.red == b.red
    &&& a.green == b.green
    &&& a.blue == b.blue
    &&& a.draw_depth == b.draw_depth
    &&& a.label@ == b.label@
    &&& a.children@ == b.children@
}

/// True when the two records agree on everything but the shown flag.
pub open spec fn same_widget_but_shown(a: Fl_Widget, b: Fl_Widget) -> bool {
    &&& a.destroyed == b.destroyed
    &&& a.parent == b.parent
    &&& a.handles == b.handles
    &&& a.delete_requests == b.delete_requests
    &&& a.x == b.x
    &&& a.y == b.y
    &&& a.w == b.w
    &&& a.h == b.h
    &&& a.spacing == b.spacing
    &&& a.horizontal == b.horizontal
    &&& a.red == b.red
    &&& a.green == b.green
    &&& a.blue == b.blue
    &&& a.draw_depth == b.draw_depth
    &&& a.label@ == b.label@
    &&& a.children@ == b.children@
    &&& a.items@ == b.items@
}

/// True when the two records agree on the whole protocol state and tree
/// position: liveness, handle count, deletion requests, parent and children.
pub open spec fn same_widget_protocol(a: Fl_Widget, b: Fl_Widget) -> bool {
    &&& a.destroyed == b.destroyed
    &&& a.parent == b.parent
    &&& a.handles == b.handles
    &&& a.delete_requests == b.delete_requests
    &&& a.shown == b.shown
    &&& a.children@ == b.children@
    &&& a.label@ == b.label@
    &&& a.items@ == b.items@
}

impl Toolkit {
    /// Reads the width of a live widget.
    pub fn width_of(&self, hd: &WidgetHandle) -> (r: i32)
        requires
            self.is_widget(hd.id()),
            !self.widget(hd.id()).destroyed,
        ensures
            r == self.widget(hd.id()).w,
    {
        self.widgets[hd.id - 1].w
    }

    /// Reads the height of a live widget.
    pub fn height_of(&self, hd: &WidgetHandle) -> (r: i32)
        requires
            self.is_widget(hd.id()),
            !self.widget(hd.id()).destroyed,
        ensures
            r == self.widget(hd.id()).h,
    {
        self.widgets[hd.id - 1].h
    }

    /// Reads the horizontal position of a live widget.
    pub fn x_of(&self, hd: &WidgetHandle) -> (r: i32)
        requires
            self.is_widget(hd.id()),
            !self.widget(hd.id()).destroyed,
        ensures
            r == self.widget(hd.id()).x,
    {
        self.widgets[hd.id - 1].x
    }

    /// Reads the vertical position of a live widget.
    pub fn y_of(&self, hd: &WidgetHandle) -> (r: i32)
        requires
            self.is_widget(hd.id()),
            !self.widget(hd.id()).destroyed,
        ensures
            r == self.widget(hd.id()).y,
    {
        self.widgets[hd.id - 1].y
    }

    /// Reads the child spacing of a live container widget.
    pub fn spacing_of(&self, hd: &WidgetHandle) -> (r: i32)
        requires
            self.is_widget(hd.id()),
            !self.widget(hd.id()).destroyed,
        ensures
            r == self.widget(hd.id()).spacing,
    {
        self.widgets[hd.id - 1].spacing
    }

    /// Whether a live layout container arranges its children horizontally.
    pub fn is_horizontal(&self, hd: &WidgetHandle) -> (r: bool)
        requires
            self.is_widget(hd.id()),
            !self.widget(hd.id()).destroyed,
        ensures
            r == self.widget(hd.id()).horizontal,
    {
        self.widgets[hd.id - 1].horizontal
    }

    /// Reads the colour components of a live widget.
    pub fn rgb_of(&self, hd: &WidgetHandle) -> (r: (u8, u8, u8))
        requires
            self.is_widget(hd.id()),
            !self.widget(hd.id()).destroyed,
        ensures
            r.0 == self.widget(hd.id()).red,
            r.1 == self.widget(hd.id()).green,
            r.2 == self.widget(hd.id()).blue,
    {
        let rec = &self.widgets[hd.id - 1];
        (rec.red, rec.green, rec.blue)
    }

    /// Reads the colour depth of the framebuffer installed on a widget, 0
    /// when none has been installed.
    pub fn draw_depth_of(&self, hd: &WidgetHandle) -> (r: u8)
        requires
            self.is_widget(hd.id()),
        ensures
            r == self.widget(hd.id()).draw_depth,
    {
        self.widgets[hd.id - 1].draw_depth
    }

    /// How many children are attached to a live container widget.
    pub fn children_count(&self, hd: &WidgetHandle) -> (r: usize)
        requires
            self.is_widget(hd.id()),
            !self.widget(hd.id()).destroyed,
        ensures
            r == self.widget(hd.id()).children@.len(),
    {
        self.widgets[hd.id - 1].children.len()
    }

    /// The identifier of the `i`-th child of a live container widget.
    pub fn child_id(&self, hd: &WidgetHandle, i: usize) -> (r: usize)
        requires
            self.is_widget(hd.id()),
            !self.widget(hd.id()).destroyed,
            i < self.widget(hd.id()).children@.len(),
        ensures
            r == self.widget(hd.id()).children@[i as int],
    {
        self.widgets[hd.id - 1].children[i]
    }

    /// The number of live wrapper handles sharing the widget's tracker.
    pub fn handle_count(&self, hd: &WidgetHandle) -> (r: u64)
        requires
            self.is_widget(hd.id()),
        ensures
            r == self.widget(hd.id()).handles,
    {
        self.widgets[hd.id - 1].handles
    }

    /// How many native deletion requests the wrapper has issued for the
    /// widget.  Under the protocol this never exceeds one.
    pub fn deletion_requests(&self, hd: &WidgetHandle) -> (r: u64)
        requires
            self.is_widget(hd.id()),
        ensures
            r == self.widget(hd.id()).delete_requests,
    {
        self.widgets[hd.id - 1].delete_requests
    }

    /// The identifier of the widget's owning container, 0 when top-level.
    pub fn parent_of(&self, hd: &WidgetHandle) -> (r: usize)
        requires
            self.is_widget(hd.id()),
        ensures
            r == self.widget(hd.id()).parent,
    {
        self.widgets[hd.id - 1].parent
    }

    /// Reads the width of a live widget named by its identifier.
    pub(crate) fn width_of_id(&self, id: usize) -> (r: i32)
        requires
            self.is_widget(id),
            !self.widget(id).destroyed,
        ensures
            r == self.widget(id).w,
    {
        self.widgets[id - 1].w
    }

    /// Reads the height of a live widget named by its identifier.
    pub(crate) fn height_of_id(&self, id: usize) -> (r: i32)
        requires
            self.is_widget(id),
            !self.widget(id).destroyed,
        ensures
            r == self.widget(id).h,
    {
        self.widgets[id - 1].h
    }

    /// Resizes a live widget named by its identifier.
    pub(crate) fn set_size_id(&mut self, id: usize, w: i32, h: i32)
        requires
            old(self).wf(),
            old(self).is_widget(id),
            !old(self).widget(id).destroyed,
        ensures
            final(self).wf(),
            liveness_monotone(*old(self), *final(self)),
            others_unchanged(*old(self), *final(self), id),
            same_widget_protocol(old(self).widget(id), final(self).widget(id)),
            final(self).widget(id).w == w,
            final(self).widget(id).h == h,
            final(self).widget(id).x == old(self).widget(id).x,
            final(self).widget(id).y == old(self).widget(id).y,
            final(self).widget(id).spacing == old(self).widget(id).spacing,
            final(self).widget(id).horizontal == old(self).widget(id).horizontal,
            final(self).widget(id).red == old(self).widget(id).red,
            final(self).widget(id).green == old(self).widget(id).green,
            final(self).widget(id).blue == old(self).widget(id).blue,
            final(self).widget(id).draw_depth == old(self).widget(id).draw_depth,
    {
        let idx = id - 1;
        self.widgets[idx].w = w;
        self.widgets[idx].h = h;
        proof {
            assert forall|j: usize| self.is_widget(j) implies #[trigger] self.widget_ok(j) by {
                assert(old(self).widget_ok(j));
            }
        }
    }

    /// Resizes a live widget.
    pub fn set_size(&mut self, hd: &WidgetHandle, w: i32, h: i32)
        requires
            old(self).wf(),
            old(self).is_widget(hd.id()),
            !old(self).widget(hd.id()).destroyed,
        ensures
            final(self).wf(),
            liveness_monotone(*old(self), *final(self)),
            others_unchanged(*old(self), *final(self), hd.id()),
            same_widget_protocol(old(self).widget(hd.id()), final(self).widget(hd.id())),
            final(self).widget(hd.id()).w == w,
            final(self).widget(hd.id()).h == h,
            final(self).widget(hd.id()).x == old(self).widget(hd.id()).x,
            final(self).widget(hd.id()).y == old(self).widget(hd.id()).y,
            final(self).widget(hd.id()).spacing == old(self).widget(hd.id()).spacing,
            final(self).widget(hd.id()).horizontal == old(self).widget(hd.id()).horizontal,
            final(self).widget(hd.id()).red == old(self).widget(hd.id()).red,
            final(self).widget(hd.id()).green == old(self).widget(hd.id()).green,
            final(self).widget(hd.id()).blue == old(self).widget(hd.id()).blue,
            final(self).widget(hd.id()).draw_depth == old(self).widget(hd.id()).draw_depth,
    {
        let idx = hd.id - 1;
        self.widgets[idx].w = w;
        self.widgets[idx].h = h;
        proof {
            assert forall|j: usize| self.is_widget(j) implies #[trigger] self.widget_ok(j) by {
                assert(old(self).widget_ok(j));
            }
        }
    }

    /// Moves and resizes a live widget.
    pub fn resize(&mut self, hd: &WidgetHandle, x: i32, y: i32, w: i32, h: i32)
        requires
            old(self).wf(),
            old(self).is_widget(hd.id()),
            !old(self).widget(hd.id()).destroyed,
        ensures
            final(self).wf(),
            liveness_monotone(*old(self), *final(self)),
            others_unchanged(*old(self), *final(self), hd.id()),
            same_widget_protocol(old(self).widget(hd.id()), final(self).widget(hd.id())),
            final(self).widget(hd.id()).x == x,
            final(self).widget(hd.id()).y == y,
            final(self).widget(hd.id()).w == w,
            final(self).widget(hd.id()).h == h,
            final(self).widget(hd.id()).spacing == old(self).widget(hd.id()).spacing,
            final(self).widget(hd.id()).horizontal == old(self).widget(hd.id()).horizontal,
            final(self).widget(hd.id()).red == old(self).widget(hd.id()).red,
            final(self).widget(hd.id()).green == old(self).widget(hd.id()).green,
            final(self).widget(hd.id()).blue == old(self).widget(hd.id()).blue,
            final(self).widget(hd.id()).draw_depth == old(self).widget(hd.id()).draw_depth,
    {
        let idx = hd.id - 1;
        self.widgets[idx].x = x;
        self.widgets[idx].y = y;
        self.widgets[idx].w = w;
        self.widgets[idx].h = h;
        proof {
            assert forall|j: usize| self.is_widget(j) implies #[trigger] self.widget_ok(j) by {
                assert(old(self).widget_ok(j));
            }
        }
    }

    /// Sets the child spacing of a live container widget.
    pub fn set_spacing(&mut self, hd: &WidgetHandle, spacing: i32)
        requires
            old(self).wf(),
            old(self).is_widget(hd.id()),
            !old(self).widget(hd.id()).destroyed,
        ensures
            final(self).wf(),
            liveness_monotone(*old(self), *final(self)),
            others_unchanged(*old(self), *final(self), hd.id()),
            same_widget_protocol(old(self).widget(hd.id()), final(self).widget(hd.id())),
            final(self).widget(hd.id()).spacing == spacing,
            final(self).widget(hd.id()).x == old(self).widget(hd.id()).x,
            final(self).widget(hd.id()).y == old(self).widget(hd.id()).y,
            final(self).widget(hd.id()).w == old(self).widget(hd.id()).w,
            final(self).widget(hd.id()).h == old(self).widget(hd.id()).h,
            final(self).widget(hd.id()).horizontal == old(self).widget(hd.id()).horizontal,
            final(self).widget(hd.id()).red == old(self).widget(hd.id()).red,
            final(self).widget(hd.id()).green == old(self).widget(hd.id()).green,
            final(self).widget(hd.id()).blue == old(self).widget(hd.id()).blue,
            final(self).widget(hd.id()).draw_depth == old(self).widget(hd.id()).draw_depth,
    {
        let idx = hd.id - 1;
        self.widgets[idx].spacing = spacing;
        proof {
            assert forall|j: usize| self.is_widget(j) implies #[trigger] self.widget_ok(j) by {
                assert(old(self).widget_ok(j));
            }
        }
    }

    /// Sets whether a live layout container arranges its children
    /// horizontally.
    pub fn set_horizontal(&mut self, hd: &WidgetHandle, horizontal: bool)
        requires
            old(self).wf(),
            old(self).is_widget(hd.id()),
            !old(self).widget(hd.id()).destroyed,
        ensures
            final(self).wf(),
            liveness_monotone(*old(self), *final(self)),
            others_unchanged(*old(self), *final(self), hd.id()),
            same_widget_protocol(old(self).widget(hd.id()), final(self).widget(hd.id())),
            final(self).widget(hd.id()).horizontal == horizontal,
            final(self).widget(hd.id()).x == old(self).widget(hd.id()).x,
            final(self).widget(hd.id()).y == old(self).widget(hd.id()).y,
            final(self).widget(hd.id()).w == old(self).widget(hd.id()).w,
            final(self).widget(hd.id()).h == old(self).widget(hd.id()).h,
            final(self).widget(hd.id()).spacing == old(self).widget(hd.id()).spacing,
            final(self).widget(hd.id()).red == old(self).widget(hd.id()).red,
            final(self).widget(hd.id()).green == old(self).widget(hd.id()).green,
            final(self).widget(hd.id()).blue == old(self).widget(hd.id()).blue,
            final(self).widget(hd.id()).draw_depth == old(self).widget(hd.id()).draw_depth,
    {
        let idx = hd.id - 1;
        self.widgets[idx].horizontal = horizontal;
        proof {
            assert forall|j: usize| self.is_widget(j) implies #[trigger] self.widget_ok(j) by {
                assert(old(self).widget_ok(j));
            }
        }
    }

    /// Shows or hides a live widget.  While a top-level widget is shown the
    /// platform holds it, and the wrapper will not request its deletion.
    pub fn set_shown(&mut self, hd: &WidgetHandle, shown: bool)
        requires
            old(self).wf(),
            old(self).is_widget(hd.id()),
            !old(self).widget(hd.id()).destroyed,
        ensures
            final(self).wf(),
            liveness_monotone(*old(self), *final(self)),
            others_unchanged(*old(self), *final(self), hd.id()),
            final(self).widget(hd.id()).shown == shown,
            final(self).widget(hd.id()).destroyed == old(self).widget(hd.id()).destroyed,
            final(self).widget(hd.id()).parent == old(self).widget(hd.id()).parent,
            final(self).widget(hd.id()).handles == old(self).widget(hd.id()).handles,
            final(self).widget(hd.id()).delete_requests == old(self).widget(
                hd.id()).delete_requests,
            final(self).widget(hd.id()).children@ == old(self).widget(hd.id()).children@,
            final(self).widget(hd.id()).items@ == old(self).widget(hd.id()).items@,
            final(self).widget(hd.id()).label@ == old(self).widget(hd.id()).label@,
            final(self).widget(hd.id()).x == old(self).widget(hd.id()).x,
            final(self).widget(hd.id()).y == old(self).widget(hd.id()).y,
            final(self).widget(hd.id()).w == old(self).widget(hd.id()).w,
            final(self).widget(hd.id()).h == old(self).widget(hd.id()).h,
            final(self).widget(hd.id()).spacing == old(self).widget(hd.id()).spacing,
            final(self).widget(hd.id()).horizontal == old(self).widget(hd.id()).horizontal,
            final(self).widget(hd.id()).red == old(self).widget(hd.id()).red,
            final(self).widget(hd.id()).green == old(self).widget(hd.id()).green,
            final(self).widget(hd.id()).blue == old(self).widget(hd.id()).blue,
            final(self).widget(hd.id()).draw_depth == old(self).widget(hd.id()).draw_depth,
    {
        let idx = hd.id - 1;
        self.widgets[idx].shown = shown;
        proof {
            assert forall|j: usize| self.is_widget(j) implies #[trigger] self.widget_ok(j) by {
                assert(old(self).widget_ok(j));
            }
        }
    }

    /// Whether a live widget is currently shown.
    pub fn is_shown(&self, hd: &WidgetHandle) -> (r: bool)
        requires
            self.is_widget(hd.id()),
            !self.widget(hd.id()).destroyed,
        ensures
            r == self.widget(hd.id()).shown,
    {
        self.widgets[hd.id - 1].shown
    }

    /// A native-side event: the user picked a colour in the widget, for
    /// example in a colour chooser.  The wrapper only ever reads it back.
    pub fn native_set_rgb(&mut self, hd: &WidgetHandle, red: u8, green: u8, blue: u8)
        requires
            old(self).wf(),
            old(self).is_widget(hd.id()),
            !old(self).widget(hd.id()).destroyed,
        ensures
            final(self).wf(),
            liveness_monotone(*old(self), *final(self)),
            others_unchanged(*old(self), *final(self), hd.id()),
            same_widget_protocol(old(self).widget(hd.id()), final(self).widget(hd.id())),
            final(self).widget(hd.id()).red == red,
            final(self).widget(hd.id()).green == green,
            final(self).widget(hd.id()).blue == blue,
            final(self).widget(hd.id()).x == old(self).widget(hd.id()).x,
            final(self).widget(hd.id()).y == old(self).widget(hd.id()).y,
            final(self).widget(hd.id()).w == old(self).widget(hd.id()).w,
            final(self).widget(hd.id()).h == old(self).widget(hd.id()).h,
            final(self).widget(hd.id()).spacing == old(self).widget(hd.id()).spacing,
            final(self).widget(hd.id()).horizontal == old(self).widget(hd.id()).horizontal,
            final(self).widget(hd.id()).draw_depth == old(self).widget(hd.id()).draw_depth,
    {
        let idx = hd.id - 1;
        self.widgets[idx].red = red;
        self.widgets[idx].green = green;
        self.widgets[idx].blue = blue;
        proof {
            assert forall|j: usize| self.is_widget(j) implies #[trigger] self.widget_ok(j) by {
                assert(old(self).widget_ok(j));
            }
        }
    }

    /// Installs a framebuffer of the given colour depth as the widget's draw
    /// routine.
    pub fn install_draw_image(&mut self, hd: &WidgetHandle, depth: u8)
        requires
            old(self).wf(),
            old(self).is_widget(hd.id()),
            !old(self).widget(hd.id()).destroyed,
        ensures
            final(self).wf(),
            liveness_monotone(*old(self), *final(self)),
            others_unchanged(*old(self), *final(self), hd.id()),
            same_widget_protocol(old(self).widget(hd.id()), final(self).widget(hd.id())),
            final(self).widget(hd.id()).draw_depth == depth,
            final(self).widget(hd.id()).x == old(self).widget(hd.id()).x,
            final(self).widget(hd.id()).y == old(self).widget(hd.id()).y,
            final(self).widget(hd.id()).w == old(self).widget(hd.id()).w,
            final(self).widget(hd.id()).h == old(self).widget(hd.id()).h,
            final(self).widget(hd.id()).spacing == old(self).widget(hd.id()).spacing,
            final(self).widget(hd.id()).horizontal == old(self).widget(hd.id()).horizontal,
            final(self).widget(hd.id()).red == old(self).widget(hd.id()).red,
            final(self).widget(hd.id()).green == old(self).widget(hd.id()).green,
            final(self).widget(hd.id()).blue == old(self).widget(hd.id()).blue,
    {
        let idx = hd.id - 1;
        self.widgets[idx].draw_depth = depth;
        proof {
            assert forall|j: usize| self.is_widget(j) implies #[trigger] self.widget_ok(j) by {
                assert(old(self).widget_ok(j));
            }
        }
    }

    /// How many list items a live browser widget holds.
    pub(crate) fn item_count(&self, hd: &WidgetHandle) -> (r: usize)
        requires
            self.is_widget(hd.id()),
            !self.widget(hd.id()).destroyed,
        ensures
            r == self.widget(hd.id()).items@.len(),
    {
        self.widgets[hd.id - 1].items.len()
    }

    /// Reads one list item of a live browser widget.
    pub(crate) fn item_at(&self, hd: &WidgetHandle, i: usize) -> (r: (String, bool))
        requires
            self.is_widget(hd.id()),
            !self.widget(hd.id()).destroyed,
            i < self.widget(hd.id()).items@.len(),
        ensures
            r.0@ == self.widget(hd.id()).items@[i as int].0@,
            r.1 == self.widget(hd.id()).items@[i as int].1,
    {
        let rec = &self.widgets[hd.id - 1];
        (rec.items[i].0.clone(), rec.items[i].1)
    }

    /// Appends a list item to a live browser widget.
    pub(crate) fn push_item(&mut self, hd: &WidgetHandle, s: &str, checked: bool)
        requires
            old(self).wf(),
            old(self).is_widget(hd.id()),
            !old(self).widget(hd.id()).destroyed,
            old(self).widget(hd.id()).items@.len() < usize::MAX,
        ensures
            final(self).wf(),
            liveness_monotone(*old(self), *final(self)),
            others_unchanged(*old(self), *final(self), hd.id()),
            same_widget_but_items(old(self).widget(hd.id()), final(self).widget(hd.id())),
            final(self).widget(hd.id()).items@.len() == old(self).widget(hd.id()).items@.len()
                + 1,
            final(self).widget(hd.id()).items@.subrange(0, old(self).widget(
                hd.id()).items@.len() as int) == old(self).widget(hd.id()).items@,
            final(self).widget(hd.id()).items@.last().0@ == s@,
            final(self).widget(hd.id()).items@.last().1 == checked,
    {
        let idx = hd.id - 1;
        self.widgets[idx].items.push((s.to_owned(), checked));
        proof {
            assert(self.widget(hd.id()).items@.subrange(0, old(self).widget(
                hd.id()).items@.len() as int) =~= old(self).widget(hd.id()).items@);
            assert forall|j: usize| self.is_widget(j) implies #[trigger] self.widget_ok(j) by {
                assert(old(self).widget_ok(j));
            }
        }
    }

    /// Removes one list item of a live browser widget.
    pub(crate) fn remove_item(&mut self, hd: &WidgetHandle, i: usize)
        requires
            old(self).wf(),
            old(self).is_widget(hd.id()),
            !old(self).widget(hd.id()).destroyed,
            i < old(self).widget(hd.id()).items@.len(),
        ensures
            final(self).wf(),
            liveness_monotone(*old(self), *final(self)),
            others_unchanged(*old(self), *final(self), hd.id()),
            same_widget_but_items(old(self).widget(hd.id()), final(self).widget(hd.id())),
            final(self).widget(hd.id()).items@ == old(self).widget(hd.id()).items@.remove(
                i as int),
    {
        let idx = hd.id - 1;
        self.widgets[idx].items.remove(i);
        proof {
            assert forall|j: usize| self.is_widget(j) implies #[trigger] self.widget_ok(j) by {
                assert(old(self).widget_ok(j));
            }
        }
    }

    /// Sets the checked state of one list item of a live browser widget.
    pub(crate) fn set_item_checked(&mut self, hd: &WidgetHandle, i: usize, checked: bool)
        requires
            old(self).wf(),
            old(self).is_widget(hd.id()),
            !old(self).widget(hd.id()).destroyed,
            i < old(self).widget(hd.id()).items@.len(),
        ensures
            final(self).wf(),
            liveness_monotone(*old(self), *final(self)),
            others_unchanged(*old(self), *final(self), hd.id()),
            same_widget_but_items(old(self).widget(hd.id()), final(self).widget(hd.id())),
            final(self).widget(hd.id()).items@ == old(self).widget(hd.id()).items@.update(
                i as int, (old(self).widget(hd.id()).items@[i as int].0, checked)),
    {
        let idx = hd.id - 1;
        self.widgets[idx].items[i].1 = checked;
        proof {
            assert(self.widget(hd.id()).items@ =~= old(self).widget(hd.id()).items@.update(
                i as int, (old(self).widget(hd.id()).items@[i as int].0, checked)));
            assert forall|j: usize| self.is_widget(j) implies #[trigger] self.widget_ok(j) by {
                assert(old(self).widget_ok(j));
            }
        }
    }

    /// Removes every list item of a live browser widget.
    pub(crate) fn clear_items(&mut self, hd: &WidgetHandle)
        requires
            old(self).wf(),
            old(self).is_widget(hd.id()),
            !old(self).widget(hd.id()).destroyed,
        ensures
            final(self).wf(),
            liveness_monotone(*old(self), *final(self)),
            others_unchanged(*old(self), *final(self), hd.id()),
            same_widget_but_items(old(self).widget(hd.id()), final(self).widget(hd.id())),
            final(self).widget(hd.id()).items@ == Seq::<(String, bool)>::empty(),
    {
        let idx = hd.id - 1;
        self.widgets[idx].items.clear();
        proof {
            assert forall|j: usize| self.is_widget(j) implies #[trigger] self.widget_ok(j) by {
                assert(old(self).widget_ok(j));
            }
        }
    }

    /// Makes a document available to the native help viewer.
    pub fn register_document(&mut self, path: &str)
        requires
            old(self).wf(),
        ensures
            final(self).wf(),
            liveness_monotone(*old(self), *final(self)),
            final(self).spec_documents() == old(self).spec_documents().push(path@),
            final(self).spec_saved_files() == old(self).spec_saved_files(),
            final(self).num_widgets() == old(self).num_widgets(),
            forall|j: usize|
                old(self).is_widget(j) ==> same_widget(#[trigger] old(self).widget(j),
                    final(self).widget(j)),
    {
        self.documents.push(path.to_owned());
        proof {
            assert(self.spec_documents() =~= old(self).spec_documents().push(path@));
            assert forall|j: usize| self.is_widget(j) implies #[trigger] self.widget_ok(j) by {
                assert(old(self).widget_ok(j));
            }
        }
    }

    /// Whether the native help viewer can load the given document.
    pub fn has_document(&self, path: &str) -> (r: bool)
        ensures
            r == self.spec_documents().contains(path@),
    {
        let p = path.to_owned();
        let n = self.documents.len();
        let mut i: usize = 0;
        let mut found = false;
        while i < n
            invariant
                n == self.documents@.len(),
                i <= n,
                p@ == path@,
                found == exists|k: int| 0 <= k < i && #[trigger] self.documents@[k]@ == path@,
            decreases n - i,
        {
            if self.documents[i] == p {
                found = true;
            }
            i = i + 1;
        }
        proof {
            if found {
                let k = choose|k: int| 0 <= k < n && #[trigger] self.documents@[k]@ == path@;
                assert(self.spec_documents()[k] == path@);
            } else {
                if self.spec_documents().contains(path@) {
                    let k = choose|k: int|
                        0 <= k < self.spec_documents().len() && #[trigger] self.spec_documents()[k]
                            == path@;
                    assert(self.documents@[k]@ == path@);
                }
            }
        }
        found
    }

    /// How many files have been handed to the native image writer.
    pub fn saved_file_count(&self) -> (r: usize)
        ensures
            r == self.spec_saved_files().len(),
    {
        self.saved_files.len()
    }

    /// Whether the native image writer was handed a file under this name.
    pub fn has_saved_file(&self, path: &str) -> (r: bool)
        ensures
            r == self.spec_saved_files().contains(path@),
    {
        let p = path.to_owned();
        let n = self.saved_files.len();
        let mut i: usize = 0;
        let mut found = false;
        while i < n
            invariant
                n == self.saved_files@.len(),
                i <= n,
                p@ == path@,
                found == exists|k: int| 0 <= k < i && #[trigger] self.saved_files@[k]@ == path@,
            decreases n - i,
        {
            if self.saved_files[i] == p {
                found = true;
            }
            i = i + 1;
        }
        proof {
            if found {
                let k = choose|k: int|
                    0 <= k < n && #[trigger] self.saved_files@[k]@ == path@;
                assert(self.spec_saved_files()[k] == path@);
            } else {
                if self.spec_saved_files().contains(path@) {
                    let k = choose|k: int|
                        0 <= k < self.spec_saved_files().len()
                            && #[trigger] self.spec_saved_files()[k] == path@;
                    assert(self.saved_files@[k]@ == path@);
                }
            }
        }
        found
    }

    /// Records that the native image writer stored a file under this name.
    pub fn record_saved_file(&mut self, path: &str)
        requires
            old(self).wf(),
        ensures
            final(self).wf(),
            liveness_monotone(*old(self), *final(self)),
            final(self).spec_saved_files() == old(self).spec_saved_files().push(path@),
            final(self).spec_documents() == old(self).spec_documents(),
            final(self).num_widgets() == old(self).num_widgets(),
            forall|j: usize|
                old(self).is_widget(j) ==> same_widget(#[trigger] old(self).widget(j),
                    final(self).widget(j)),
    {
        self.saved_files.push(path.to_owned());
        proof {
            assert(self.spec_saved_files() =~= old(self).spec_saved_files().push(path@));
            assert forall|j: usize| self.is_widget(j) implies #[trigger] self.widget_ok(j) by {
                assert(old(self).widget_ok(j));
            }
        }
    }
}

/// Two handles naming the same widget always observe the same liveness flag:
/// the flag lives with the widget, not with any one handle copy.
pub proof fn lemma_liveness_is_shared(tk: Toolkit, h1: WidgetHandle, h2: WidgetHandle)
    requires
        h1.id() == h2.id(),
    ensures
        tk.widget(h1.id()).destroyed == tk.widget(h2.id()).destroyed,
{
}

/// Once any handle has observed `was_deleted`, every handle of that widget
/// observes it from that point on, across any state change that respects
/// [`liveness_monotone`] — which every toolkit operation does.
pub proof fn lemma_deleted_stays_deleted(pre: Toolkit, post: Toolkit, hd: WidgetHandle)
    requires
        liveness_monotone(pre, post),
        pre.is_widget(hd.id()),
        pre.widget(hd.id()).destroyed,
    ensures
        post.widget(hd.id()).destroyed,
{
}

/// The wrapper never requests deletion of the same native widget twice: in
/// every well-formed toolkit state at most one request has gone out per
/// widget, whatever order handles were dropped in.
pub proof fn lemma_no_double_delete_request(tk: Toolkit, hd: WidgetHandle)
    requires
        tk.wf(),
        tk.is_widget(hd.id()),
    ensures
        tk.widget(hd.id()).delete_requests <= 1,
{
    assert(tk.widget_ok(hd.id()));
}

/// Dropping the last handle of a top-level widget that is not shown, was
/// never attached to a container and was never destroyed issues exactly one
/// native deletion request, and the widget ends up destroyed.
pub proof fn lemma_top_level_drop_deletes_once(pre: Toolkit, post: Toolkit, id: usize)
    requires
        pre.wf(),
        pre.is_widget(id),
        pre.widget(id).parent == 0,
        !pre.widget(id).shown,
        !pre.widget(id).destroyed,
        pre.widget(id).handles == 1,
        drop_post(pre, post, id),
    ensures
        post.widget(id).delete_requests == 1,
        post.widget(id).destroyed,
{
    assert(pre.widget_ok(id));
}

/// Dropping a handle of a widget that is, or ever became, a child of a
/// container — or that the native side already destroyed — never issues a
/// deletion request: the native-side owner's teardown is authoritative.
pub proof fn lemma_unowned_drop_requests_nothing(pre: Toolkit, post: Toolkit, id: usize)
    requires
        pre.is_widget(id),
        pre.widget(id).parent != 0 || pre.widget(id).destroyed,
        drop_post(pre, post, id),
    ensures
        post.widget(id).delete_requests == pre.widget(id).delete_requests,
        post.widget(id).destroyed == pre.widget(id).destroyed,
{
}

/// When the native side tears a container down, every attached child's
/// tracker transitions to destroyed, and the wrapper issues no deletion
/// request for any widget.
pub proof fn lemma_container_teardown_destroys_child(
    pre: Toolkit,
    post: Toolkit,
    container: usize,
    child: usize,
)
    requires
        pre.wf(),
        pre.is_widget(container),
        pre.is_widget(child),
        pre.widget(child).parent == container,
        destroy_post(pre, post, container),
    ensures
        post.widget(child).destroyed,
        post.widget(child).delete_requests == pre.widget(child).delete_requests,
{
    assert(pre.widget_ok(child));
    assert(pre.in_subtree(container, child));
}

} // verus!
