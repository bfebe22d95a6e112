//! Browser widgets: scrolling lists of lines in their several selection
//! modes, the file browser and the check browser.
//!
//! The list contents live on the native side; what the wrapper owns, and
//! what is verified here, is the lifetime discipline these widgets share
//! with every other widget: creation registers a tracker, handles share one
//! liveness flag, and teardown follows the ownership rule of
//! [`crate::tracker`].

use vstd::prelude::*;

use crate::tracker::fresh_widget;
use crate::tracker::liveness_monotone;
use crate::tracker::Toolkit;
use crate::tracker::WidgetHandle;
use crate::widget::GroupExt;
use crate::widget::WidgetExt;

verus! {

/// Defines the browser type, which can be changed dynamically using the set_type function().
#[derive(Debug, Copy, Clone, PartialEq, Eq, Structural)]
pub enum BrowserType {
    /// Normal browser
    Normal,
    /// Enable select
    Select,
    /// Enable holding
    Hold,
    /// Multi selection
    Multi,
}

impl BrowserType {
    /// The integer value the native toolkit uses for this type.
    pub open spec fn spec_bits(self) -> i32 {
        match self {
            BrowserType::Normal => 0,
            BrowserType::Select => 1,
            BrowserType::Hold => 2,
            BrowserType::Multi => 3,
        }
    }

    /// The integer value the native toolkit uses for this type.
    pub fn bits(self) -> (r: i32)
        ensures
            r == self.spec_bits(),
    {
        match self {
            BrowserType::Normal => 0,
            BrowserType::Select => 1,
            BrowserType::Hold => 2,
            BrowserType::Multi => 3,
        }
    }
}

/// Defines the type of Scrollbar associated with the browser
#[derive(Debug, Copy, Clone, PartialEq, Eq, Structural)]
pub enum BrowserScrollbar {
    /// Never show bars
    NoBars,
    /// Show vertical bar
    Horizontal,
    /// Show vertical bar
    Vertical,
    /// Show both horizontal and vertical bars
    Both,
    /// Always show bars
    AlwaysOn,
    /// Show horizontal bar always
    HorizontalAlways,
    /// Show vertical bar always
    VerticalAlways,
    /// Always show both horizontal and vertical bars
    BothAlways,
}

impl BrowserScrollbar {
    /// The integer value the native toolkit uses for this type.
    pub open spec fn spec_bits(self) -> i32 {
        match self {
            BrowserScrollbar::NoBars => 0,
            BrowserScrollbar::Horizontal => 1,
            BrowserScrollbar::Vertical => 2,
            BrowserScrollbar::Both => 3,
            BrowserScrollbar::AlwaysOn => 4,
            BrowserScrollbar::HorizontalAlways => 5,
            BrowserScrollbar::VerticalAlways => 6,
            BrowserScrollbar::BothAlways => 7,
        }
    }

    /// The integer value the native toolkit uses for this type.
    pub fn bits(self) -> (r: i32)
        ensures
            r == self.spec_bits(),
    {
        match self {
            BrowserScrollbar::NoBars => 0,
            BrowserScrollbar::Horizontal => 1,
            BrowserScrollbar::Vertical => 2,
            BrowserScrollbar::Both => 3,
            BrowserScrollbar::AlwaysOn => 4,
            BrowserScrollbar::HorizontalAlways => 5,
            BrowserScrollbar::VerticalAlways => 6,
            BrowserScrollbar::BothAlways => 7,
        }
    }
}

/// File types for the FileBrowser
#[derive(Debug, Copy, Clone, PartialEq, Eq, Structural)]
pub enum FileType {
    /// Show files
    Files,
    /// Show dirs
    Dirs,
}

impl FileType {
    /// The integer value the native toolkit uses for this type.
    pub open spec fn spec_bits(self) -> i32 {
        match self {
            FileType::Files => 0,
            FileType::Dirs => 1,
        }
    }

    /// The integer value the native toolkit uses for this type.
    pub fn bits(self) -> (r: i32)
        ensures
            r == self.spec_bits(),
    {
        match self {
            FileType::Files => 0,
            FileType::Dirs => 1,
        }
    }
}

/// Creates a normal browser
pub struct Browser {
    inner: WidgetHandle,
}

impl Browser {
    /// Creates the browser and registers its liveness tracker.
    pub fn new(tk: &mut Toolkit, x: i32, y: i32, w: i32, h: i32, label: &str) -> (r: Browser)
        requires
            old(tk).wf(),
            old(tk).num_widgets() < usize::MAX,
        ensures
            final(tk).wf(),
            liveness_monotone(*old(tk), *final(tk)),
            fresh_widget(*old(tk), *final(tk), r.wid(), x, y, w, h, label@),
    {
        Browser { inner: tk.create_widget(x, y, w, h, label) }
    }
}

impl WidgetExt for Browser {
    closed spec fn wid(&self) -> usize {
        self.inner.id()
    }

    fn handle(&self) -> (hd: &WidgetHandle) {
        &self.inner
    }

    fn into_handle(self) -> (hd: WidgetHandle) {
        self.inner
    }
}

impl GroupExt for Browser {

}

/// Creates a select browser
pub struct SelectBrowser {
    inner: WidgetHandle,
}

impl SelectBrowser {
    /// Creates the browser and registers its liveness tracker.
    pub fn new(tk: &mut Toolkit, x: i32, y: i32, w: i32, h: i32, label: &str) -> (r: SelectBrowser)
        requires
            old(tk).wf(),
            old(tk).num_widgets() < usize::MAX,
        ensures
            final(tk).wf(),
            liveness_monotone(*old(tk), *final(tk)),
            fresh_widget(*old(tk), *final(tk), r.wid(), x, y, w, h, label@),
    {
        SelectBrowser { inner: tk.create_widget(x, y, w, h, label) }
    }
}

impl WidgetExt for SelectBrowser {
    closed spec fn wid(&self) -> usize {
        self.inner.id()
    }

    fn handle(&self) -> (hd: &WidgetHandle) {
        &self.inner
    }

    fn into_handle(self) -> (hd: WidgetHandle) {
        self.inner
    }
}

impl GroupExt for SelectBrowser {

}

/// Creates a multi-browser
pub struct MultiBrowser {
    inner: WidgetHandle,
}

impl MultiBrowser {
    /// Creates the browser and registers its liveness tracker.
    pub fn new(tk: &mut Toolkit, x: i32, y: i32, w: i32, h: i32, label: &str) -> (r: MultiBrowser)
        requires
            old(tk).wf(),
            old(tk).num_widgets() < usize::MAX,
        ensures
            final(tk).wf(),
            liveness_monotone(*old(tk), *final(tk)),
            fresh_widget(*old(tk), *final(tk), r.wid(), x, y, w, h, label@),
    {
        MultiBrowser { inner: tk.create_widget(x, y, w, h, label) }
    }
}

impl WidgetExt for MultiBrowser {
    closed spec fn wid(&self) -> usize {
        self.inner.id()
    }

    fn handle(&self) -> (hd: &WidgetHandle) {
        &self.inner
    }

    fn into_handle(self) -> (hd: WidgetHandle) {
        self.inner
    }
}

impl GroupExt for MultiBrowser {

}

/// Creates a hold browser
pub struct HoldBrowser {
    inner: WidgetHandle,
}

impl HoldBrowser {
    /// Creates the browser and registers its liveness tracker.
    pub fn new(tk: &mut Toolkit, x: i32, y: i32, w: i32, h: i32, label: &str) -> (r: HoldBrowser)
        requires
            old(tk).wf(),
            old(tk).num_widgets() < usize::MAX,
        ensures
            final(tk).wf(),
            liveness_monotone(*old(tk), *final(tk)),
            fresh_widget(*old(tk), *final(tk), r.wid(), x, y, w, h, label@),
    {
        HoldBrowser { inner: tk.create_widget(x, y, w, h, label) }
    }
}

impl WidgetExt for HoldBrowser {
    closed spec fn wid(&self) -> usize {
        self.inner.id()
    }

    fn handle(&self) -> (hd: &WidgetHandle) {
        &self.inner
    }

    fn into_handle(self) -> (hd: WidgetHandle) {
        self.inner
    }
}

impl GroupExt for HoldBrowser {

}

/// Creates a file browser
pub struct FileBrowser {
    inner: WidgetHandle,
}

impl FileBrowser {
    /// Creates the browser and registers its liveness tracker.
    pub fn new(tk: &mut Toolkit, x: i32, y: i32, w: i32, h: i32, label: &str) -> (r: FileBrowser)
        requires
            old(tk).wf(),
            old(tk).num_widgets() < usize::MAX,
        ensures
            final(tk).wf(),
            liveness_monotone(*old(tk), *final(tk)),
            fresh_widget(*old(tk), *final(tk), r.wid(), x, y, w, h, label@),
    {
        FileBrowser { inner: tk.create_widget(x, y, w, h, label) }
    }
}

impl WidgetExt for FileBrowser {
    closed spec fn wid(&self) -> usize {
        self.inner.id()
    }

    fn handle(&self) -> (hd: &WidgetHandle) {
        &self.inner
    }

    fn into_handle(self) -> (hd: WidgetHandle) {
        self.inner
    }
}

impl GroupExt for FileBrowser {

}

/// Creates a CheckBrowser widget
pub struct CheckBrowser {
    inner: WidgetHandle,
}

impl CheckBrowser {
    /// Creates the browser and registers its liveness tracker.
    pub fn new(tk: &mut Toolkit, x: i32, y: i32, w: i32, h: i32, label: &str) -> (r: CheckBrowser)
        requires
            old(tk).wf(),
            old(tk).num_widgets() < usize::MAX,
        ensures
            final(tk).wf(),
            liveness_monotone(*old(tk), *final(tk)),
            fresh_widget(*old(tk), *final(tk), r.wid(), x, y, w, h, label@),
    {
        CheckBrowser { inner: tk.create_widget(x, y, w, h, label) }
    }
}

impl WidgetExt for CheckBrowser {
    closed spec fn wid(&self) -> usize {
        self.inner.id()
    }

    fn handle(&self) -> (hd: &WidgetHandle) {
        &self.inner
    }

    fn into_handle(self) -> (hd: WidgetHandle) {
        self.inner
    }
}

/// How many of the items are checked.
pub open spec fn count_checked(items: Seq<(String, bool)>) -> nat
    decreases items.len(),
{
    if items.len() == 0 {
        0
    } else {
        count_checked(items.drop_last()) + (if items.last().1 {
            1nat
        } else {
            0nat
        })
    }
}

impl CheckBrowser {
    /// Add an item, returns the number of current items
    pub fn add(&self, tk: &mut Toolkit, s: &str, checked: bool) -> (r: i32)
        requires
            old(tk).wf(),
            old(tk).is_widget(self.wid()),
            !old(tk).widget(self.wid()).destroyed,
            old(tk).widget(self.wid()).items@.len() < i32::MAX,
        ensures
            final(tk).wf(),
            liveness_monotone(*old(tk), *final(tk)),
            crate::tracker::others_unchanged(*old(tk), *final(tk), self.wid()),
            crate::tracker::same_widget_but_items(old(tk).widget(self.wid()), final(tk).widget(
                self.wid())),
            final(tk).widget(self.wid()).items@.len() == old(tk).widget(self.wid()).items@.len()
                + 1,
            final(tk).widget(self.wid()).items@.subrange(0, old(tk).widget(
                self.wid()).items@.len() as int) == old(tk).widget(self.wid()).items@,
            final(tk).widget(self.wid()).items@.last().0@ == s@,
            final(tk).widget(self.wid()).items@.last().1 == checked,
            r == final(tk).widget(self.wid()).items@.len(),
    {
        tk.push_item(self.handle(), s, checked);
        tk.item_count(self.handle()) as i32
    }

    /// Remove item at index (numbered from 1), returns the number of
    /// current items
    pub fn remove(&self, tk: &mut Toolkit, item: usize) -> (r: i32)
        requires
            old(tk).wf(),
            old(tk).is_widget(self.wid()),
            !old(tk).widget(self.wid()).destroyed,
            1 <= item <= old(tk).widget(self.wid()).items@.len(),
            old(tk).widget(self.wid()).items@.len() <= i32::MAX,
        ensures
            final(tk).wf(),
            liveness_monotone(*old(tk), *final(tk)),
            crate::tracker::others_unchanged(*old(tk), *final(tk), self.wid()),
            crate::tracker::same_widget_but_items(old(tk).widget(self.wid()), final(tk).widget(
                self.wid())),
            final(tk).widget(self.wid()).items@ == old(tk).widget(self.wid()).items@.remove(
                item - 1),
            r == final(tk).widget(self.wid()).items@.len(),
    {
        tk.remove_item(self.handle(), item - 1);
        tk.item_count(self.handle()) as i32
    }

    /// Clear the browser
    pub fn clear(&self, tk: &mut Toolkit)
        requires
            old(tk).wf(),
            old(tk).is_widget(self.wid()),
            !old(tk).widget(self.wid()).destroyed,
        ensures
            final(tk).wf(),
            liveness_monotone(*old(tk), *final(tk)),
            crate::tracker::others_unchanged(*old(tk), *final(tk), self.wid()),
            crate::tracker::same_widget_but_items(old(tk).widget(self.wid()), final(tk).widget(
                self.wid())),
            final(tk).widget(self.wid()).items@ == Seq::<(String, bool)>::empty(),
    {
        tk.clear_items(self.handle())
    }

    /// Return the number of items
    pub fn nitems(&self, tk: &Toolkit) -> (r: usize)
        requires
            tk.is_widget(self.wid()),
            !tk.widget(self.wid()).destroyed,
        ensures
            r == tk.widget(self.wid()).items@.len(),
    {
        tk.item_count(self.handle())
    }

    /// Get the number of checked items
    pub fn nchecked(&self, tk: &Toolkit) -> (r: usize)
        requires
            tk.is_widget(self.wid()),
            !tk.widget(self.wid()).destroyed,
        ensures
            r == count_checked(tk.widget(self.wid()).items@),
    {
        let n = tk.item_count(self.handle());
        let ghost items = tk.widget(self.wid()).items@;
        let mut count: usize = 0;
        let mut i: usize = 0;
        while i < n
            invariant
                tk.is_widget(self.wid()),
                !tk.widget(self.wid()).destroyed,
                items == tk.widget(self.wid()).items@,
                n == items.len(),
                i <= n,
                count <= i,
                count == count_checked(items.subrange(0, i as int)),
            decreases n - i,
        {
            let item = tk.item_at(self.handle(), i);
            if item.1 {
                count = count + 1;
            }
            proof {
                assert(items.subrange(0, i + 1).drop_last() =~= items.subrange(0, i as int));
                assert(items.subrange(0, i + 1).last() == items[i as int]);
            }
            i = i + 1;
        }
        proof {
            assert(items.subrange(0, n as int) =~= items);
        }
        count
    }

    /// Returns whether an item (numbered from 1) is checked; an item
    /// outside the list counts as unchecked.
    pub fn checked(&self, tk: &Toolkit, item: i32) -> (r: bool)
        requires
            tk.is_widget(self.wid()),
            !tk.widget(self.wid()).destroyed,
        ensures
            r == (1 <= item <= tk.widget(self.wid()).items@.len() && tk.widget(
                self.wid()).items@[item - 1].1),
    {
        if item < 1 {
            return false;
        }
        let n = tk.item_count(self.handle());
        if (item as usize) > n {
            return false;
        }
        let entry = tk.item_at(self.handle(), (item as usize) - 1);
        entry.1
    }

    /// Check the item numbered from 1.
    pub fn set_checked(&self, tk: &mut Toolkit, item: i32)
        requires
            old(tk).wf(),
            old(tk).is_widget(self.wid()),
            !old(tk).widget(self.wid()).destroyed,
            1 <= item <= old(tk).widget(self.wid()).items@.len(),
        ensures
            final(tk).wf(),
            liveness_monotone(*old(tk), *final(tk)),
            crate::tracker::others_unchanged(*old(tk), *final(tk), self.wid()),
            crate::tracker::same_widget_but_items(old(tk).widget(self.wid()), final(tk).widget(
                self.wid())),
            final(tk).widget(self.wid()).items@ == old(tk).widget(self.wid()).items@.update(
                item - 1, (old(tk).widget(self.wid()).items@[item - 1].0, true)),
    {
        tk.set_item_checked(self.handle(), (item as usize) - 1, true)
    }

    /// Check all of the items
    pub fn check_all(&self, tk: &mut Toolkit)
        requires
            old(tk).wf(),
            old(tk).is_widget(self.wid()),
            !old(tk).widget(self.wid()).destroyed,
        ensures
            final(tk).wf(),
            liveness_monotone(*old(tk), *final(tk)),
            crate::tracker::others_unchanged(*old(tk), *final(tk), self.wid()),
            crate::tracker::same_widget_but_items(old(tk).widget(self.wid()), final(tk).widget(
                self.wid())),
            final(tk).widget(self.wid()).items@.len() == old(tk).widget(self.wid()).items@.len(),
            forall|k: int|
                0 <= k < old(tk).widget(self.wid()).items@.len() ==> final(tk).widget(
                    self.wid()).items@[k] == ((#[trigger] old(tk).widget(self.wid()).items@[k]).0,
                true),
    {
        self.set_all(tk, true)
    }

    /// Check none of the items
    pub fn check_none(&self, tk: &mut Toolkit)
        requires
            old(tk).wf(),
            old(tk).is_widget(self.wid()),
            !old(tk).widget(self.wid()).destroyed,
        ensures
            final(tk).wf(),
            liveness_monotone(*old(tk), *final(tk)),
            crate::tracker::others_unchanged(*old(tk), *final(tk), self.wid()),
            crate::tracker::same_widget_but_items(old(tk).widget(self.wid()), final(tk).widget(
                self.wid())),
            final(tk).widget(self.wid()).items@.len() == old(tk).widget(self.wid()).items@.len(),
            forall|k: int|
                0 <= k < old(tk).widget(self.wid()).items@.len() ==> final(tk).widget(
                    self.wid()).items@[k] == ((#[trigger] old(tk).widget(self.wid()).items@[k]).0,
                false),
    {
        self.set_all(tk, false)
    }

    /// Sets the checked state of every item at once.
    fn set_all(&self, tk: &mut Toolkit, checked: bool)
        requires
            old(tk).wf(),
            old(tk).is_widget(self.wid()),
            !old(tk).widget(self.wid()).destroyed,
        ensures
            final(tk).wf(),
            liveness_monotone(*old(tk), *final(tk)),
            crate::tracker::others_unchanged(*old(tk), *final(tk), self.wid()),
            crate::tracker::same_widget_but_items(old(tk).widget(self.wid()), final(tk).widget(
                self.wid())),
            final(tk).widget(self.wid()).items@.len() == old(tk).widget(self.wid()).items@.len(),
            forall|k: int|
                0 <= k < old(tk).widget(self.wid()).items@.len() ==> final(tk).widget(
                    self.wid()).items@[k] == ((#[trigger] old(tk).widget(self.wid()).items@[k]).0,
                checked),
    {
        let ghost pre = *old(tk);
        let ghost wid = self.wid();
        let n = tk.item_count(self.handle());
        let mut i: usize = 0;
        while i < n
            invariant
                pre.wf(),
                pre.is_widget(wid),
                !pre.widget(wid).destroyed,
                self.wid() == wid,
                n == pre.widget(wid).items@.len(),
                i <= n,
                tk.wf(),
                tk.is_widget(wid),
                !tk.widget(wid).destroyed,
                liveness_monotone(pre, *tk),
                crate::tracker::others_unchanged(pre, *tk, wid),
                crate::tracker::same_widget_but_items(pre.widget(wid), tk.widget(wid)),
                tk.widget(wid).items@.len() == n,
                forall|k: int|
                    0 <= k < i ==> tk.widget(wid).items@[k] == ((#[trigger] pre.widget(
                        wid).items@[k]).0, checked),
                forall|k: int|
                    i <= k < n ==> tk.widget(wid).items@[k] == #[trigger] pre.widget(
                        wid).items@[k],
            decreases n - i,
        {
            let ghost tk0 = *tk;
            tk.set_item_checked(self.handle(), i, checked);
            proof {
                assert(tk.widget(wid).items@ == tk0.widget(wid).items@.update(
                    i as int,
                    (tk0.widget(wid).items@[i as int].0, checked),
                ));
            }
            i = i + 1;
        }
    }

    /// Get the text of the item numbered from 1.
    pub fn text(&self, tk: &Toolkit, item: i32) -> (r: Option<String>)
        requires
            tk.is_widget(self.wid()),
            !tk.widget(self.wid()).destroyed,
        ensures
            1 <= item <= tk.widget(self.wid()).items@.len() ==> (r matches Some(v) && v@
                == tk.widget(self.wid()).items@[item - 1].0@),
            !(1 <= item <= tk.widget(self.wid()).items@.len()) ==> r is None,
    {
        if item < 1 {
            return None;
        }
        let n = tk.item_count(self.handle());
        if (item as usize) > n {
            return None;
        }
        let entry = tk.item_at(self.handle(), (item as usize) - 1);
        Some(entry.0)
    }
}

} // verus!
