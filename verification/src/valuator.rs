//! Valuator widgets: sliders, dials, counters, scrollbars, rollers and the
//! value input and output fields.
//!
//! The native toolkit owns the value logic of each of these; the wrapper
//! types here carry the shared widget lifetime protocol of
//! [`crate::tracker`], so that every one of them can be created, freely
//! referenced through handles, checked for liveness and torn down under the
//! same verified contract.

use vstd::prelude::*;

use crate::tracker::fresh_widget;
use crate::tracker::liveness_monotone;
use crate::tracker::Toolkit;
use crate::tracker::WidgetHandle;
use crate::widget::WidgetExt;

verus! {

/// Defines slider types
#[derive(Debug, Copy, Clone, PartialEq, Eq, Structural)]
pub enum SliderType {
    /// Vertical slider
    Vertical,
    /// Horizontal slider
    Horizontal,
    /// Vertical fill slider
    VerticalFill,
    /// Horizontal fill slider
    HorizontalFill,
    /// Vertical nice slider
    VerticalNice,
    /// Horizontal nice slider
    HorizontalNice,
}

impl SliderType {
    /// The integer value the native toolkit uses for this type.
    pub open spec fn spec_bits(self) -> i32 {
        match self {
            SliderType::Vertical => 0,
            SliderType::Horizontal => 1,
            SliderType::VerticalFill => 2,
            SliderType::HorizontalFill => 3,
            SliderType::VerticalNice => 4,
            SliderType::HorizontalNice => 5,
        }
    }

    /// The integer value the native toolkit uses for this type.
    pub fn bits(self) -> (r: i32)
        ensures
            r == self.spec_bits(),
    {
        match self {
            SliderType::Vertical => 0,
            SliderType::Horizontal => 1,
            SliderType::VerticalFill => 2,
            SliderType::HorizontalFill => 3,
            SliderType::VerticalNice => 4,
            SliderType::HorizontalNice => 5,
        }
    }
}

/// Defines dial types
#[derive(Debug, Copy, Clone, PartialEq, Eq, Structural)]
pub enum DialType {
    /// Normal dial
    Normal,
    /// Line dial
    Line,
    /// Filled dial
    Fill,
}

impl DialType {
    /// The integer value the native toolkit uses for this type.
    pub open spec fn spec_bits(self) -> i32 {
        match self {
            DialType::Normal => 0,
            DialType::Line => 1,
            DialType::Fill => 2,
        }
    }

    /// The integer value the native toolkit uses for this type.
    pub fn bits(self) -> (r: i32)
        ensures
            r == self.spec_bits(),
    {
        match self {
            DialType::Normal => 0,
            DialType::Line => 1,
            DialType::Fill => 2,
        }
    }
}

/// Defines counter types
#[derive(Debug, Copy, Clone, PartialEq, Eq, Structural)]
pub enum CounterType {
    /// Normal counter
    Normal,
    /// Simple counter
    Simple,
}

impl CounterType {
    /// The integer value the native toolkit uses for this type.
    pub open spec fn spec_bits(self) -> i32 {
        match self {
            CounterType::Normal => 0,
            CounterType::Simple => 1,
        }
    }

    /// The integer value the native toolkit uses for this type.
    pub fn bits(self) -> (r: i32)
        ensures
            r == self.spec_bits(),
    {
        match self {
            CounterType::Normal => 0,
            CounterType::Simple => 1,
        }
    }
}

/// Defines scrollbar types
#[derive(Debug, Copy, Clone, PartialEq, Eq, Structural)]
pub enum ScrollbarType {
    /// Vertical scrollbar
    Vertical,
    /// Horizontal scrollbar
    Horizontal,
    /// Vertical fill scrollbar
    VerticalFill,
    /// Horizontal fill scrollbar
    HorizontalFill,
    /// Vertical nice scrollbar
    VerticalNice,
    /// Horizontal nice scrollbar
    HorizontalNice,
}

impl ScrollbarType {
    /// The integer value the native toolkit uses for this type.
    pub open spec fn spec_bits(self) -> i32 {
        match self {
            ScrollbarType::Vertical => 0,
            ScrollbarType::Horizontal => 1,
            ScrollbarType::VerticalFill => 2,
            ScrollbarType::HorizontalFill => 3,
            ScrollbarType::VerticalNice => 4,
            ScrollbarType::HorizontalNice => 5,
        }
    }

    /// The integer value the native toolkit uses for this type.
    pub fn bits(self) -> (r: i32)
        ensures
            r == self.spec_bits(),
    {
        match self {
            ScrollbarType::Vertical => 0,
            ScrollbarType::Horizontal => 1,
            ScrollbarType::VerticalFill => 2,
            ScrollbarType::HorizontalFill => 3,
            ScrollbarType::VerticalNice => 4,
            ScrollbarType::HorizontalNice => 5,
        }
    }
}

/// Creates a slider widget
pub struct Slider {
    inner: WidgetHandle,
}

impl Slider {
    /// Creates the widget and registers its liveness tracker.
    pub fn new(tk: &mut Toolkit, x: i32, y: i32, w: i32, h: i32, label: &str) -> (r: Slider)
        requires
            old(tk).wf(),
            old(tk).num_widgets() < usize::MAX,
        ensures
            final(tk).wf(),
            liveness_monotone(*old(tk), *final(tk)),
            fresh_widget(*old(tk), *final(tk), r.wid(), x, y, w, h, label@),
    {
        Slider { inner: tk.create_widget(x, y, w, h, label) }
    }
}

impl WidgetExt for Slider {
    closed spec fn wid(&self) -> usize {
        self.inner.id()
    }

    fn handle(&self) -> (hd: &WidgetHandle) {
        &self.inner
    }

    fn into_handle(self) -> (hd: WidgetHandle) {
        self.inner
    }
}

/// Creates a nice slider widget
pub struct NiceSlider {
    inner: WidgetHandle,
}

impl NiceSlider {
    /// Creates the widget and registers its liveness tracker.
    pub fn new(tk: &mut Toolkit, x: i32, y: i32, w: i32, h: i32, label: &str) -> (r: NiceSlider)
        requires
            old(tk).wf(),
            old(tk).num_widgets() < usize::MAX,
        ensures
            final(tk).wf(),
            liveness_monotone(*old(tk), *final(tk)),
            fresh_widget(*old(tk), *final(tk), r.wid(), x, y, w, h, label@),
    {
        NiceSlider { inner: tk.create_widget(x, y, w, h, label) }
    }
}

impl WidgetExt for NiceSlider {
    closed spec fn wid(&self) -> usize {
        self.inner.id()
    }

    fn handle(&self) -> (hd: &WidgetHandle) {
        &self.inner
    }

    fn into_handle(self) -> (hd: WidgetHandle) {
        self.inner
    }
}

/// Creates a dial widget
pub struct Dial {
    inner: WidgetHandle,
}

impl Dial {
    /// Creates the widget and registers its liveness tracker.
    pub fn new(tk: &mut Toolkit, x: i32, y: i32, w: i32, h: i32, label: &str) -> (r: Dial)
        requires
            old(tk).wf(),
            old(tk).num_widgets() < usize::MAX,
        ensures
            final(tk).wf(),
            liveness_monotone(*old(tk), *final(tk)),
            fresh_widget(*old(tk), *final(tk), r.wid(), x, y, w, h, label@),
    {
        Dial { inner: tk.create_widget(x, y, w, h, label) }
    }
}

impl WidgetExt for Dial {
    closed spec fn wid(&self) -> usize {
        self.inner.id()
    }

    fn handle(&self) -> (hd: &WidgetHandle) {
        &self.inner
    }

    fn into_handle(self) -> (hd: WidgetHandle) {
        self.inner
    }
}

/// Creates a line dial widget
pub struct LineDial {
    inner: WidgetHandle,
}

impl LineDial {
    /// Creates the widget and registers its liveness tracker.
    pub fn new(tk: &mut Toolkit, x: i32, y: i32, w: i32, h: i32, label: &str) -> (r: LineDial)
        requires
            old(tk).wf(),
            old(tk).num_widgets() < usize::MAX,
        ensures
            final(tk).wf(),
            liveness_monotone(*old(tk), *final(tk)),
            fresh_widget(*old(tk), *final(tk), r.wid(), x, y, w, h, label@),
    {
        LineDial { inner: tk.create_widget(x, y, w, h, label) }
    }
}

impl WidgetExt for LineDial {
    closed spec fn wid(&self) -> usize {
        self.inner.id()
    }

    fn handle(&self) -> (hd: &WidgetHandle) {
        &self.inner
    }

    fn into_handle(self) -> (hd: WidgetHandle) {
        self.inner
    }
}

/// Creates a counter widget
pub struct Counter {
    inner: WidgetHandle,
}

impl Counter {
    /// Creates the widget and registers its liveness tracker.
    pub fn new(tk: &mut Toolkit, x: i32, y: i32, w: i32, h: i32, label: &str) -> (r: Counter)
        requires
            old(tk).wf(),
            old(tk).num_widgets() < usize::MAX,
        ensures
            final(tk).wf(),
            liveness_monotone(*old(tk), *final(tk)),
            fresh_widget(*old(tk), *final(tk), r.wid(), x, y, w, h, label@),
    {
        Counter { inner: tk.create_widget(x, y, w, h, label) }
    }
}

impl WidgetExt for Counter {
    closed spec fn wid(&self) -> usize {
        self.inner.id()
    }

    fn handle(&self) -> (hd: &WidgetHandle) {
        &self.inner
    }

    fn into_handle(self) -> (hd: WidgetHandle) {
        self.inner
    }
}

/// Creates a scrollbar widget
pub struct Scrollbar {
    inner: WidgetHandle,
}

impl Scrollbar {
    /// Creates the widget and registers its liveness tracker.
    pub fn new(tk: &mut Toolkit, x: i32, y: i32, w: i32, h: i32, label: &str) -> (r: Scrollbar)
        requires
            old(tk).wf(),
            old(tk).num_widgets() < usize::MAX,
        ensures
            final(tk).wf(),
            liveness_monotone(*old(tk), *final(tk)),
            fresh_widget(*old(tk), *final(tk), r.wid(), x, y, w, h, label@),
    {
        Scrollbar { inner: tk.create_widget(x, y, w, h, label) }
    }
}

impl WidgetExt for Scrollbar {
    closed spec fn wid(&self) -> usize {
        self.inner.id()
    }

    fn handle(&self) -> (hd: &WidgetHandle) {
        &self.inner
    }

    fn into_handle(self) -> (hd: WidgetHandle) {
        self.inner
    }
}

/// Creates a roller widget
pub struct Roller {
    inner: WidgetHandle,
}

impl Roller {
    /// Creates the widget and registers its liveness tracker.
    pub fn new(tk: &mut Toolkit, x: i32, y: i32, w: i32, h: i32, label: &str) -> (r: Roller)
        requires
            old(tk).wf(),
            old(tk).num_widgets() < usize::MAX,
        ensures
            final(tk).wf(),
            liveness_monotone(*old(tk), *final(tk)),
            fresh_widget(*old(tk), *final(tk), r.wid(), x, y, w, h, label@),
    {
        Roller { inner: tk.create_widget(x, y, w, h, label) }
    }
}

impl WidgetExt for Roller {
    closed spec fn wid(&self) -> usize {
        self.inner.id()
    }

    fn handle(&self) -> (hd: &WidgetHandle) {
        &self.inner
    }

    fn into_handle(self) -> (hd: WidgetHandle) {
        self.inner
    }
}

/// Creates a value slider widget
pub struct ValueSlider {
    inner: WidgetHandle,
}

impl ValueSlider {
    /// Creates the widget and registers its liveness tracker.
    pub fn new(tk: &mut Toolkit, x: i32, y: i32, w: i32, h: i32, label: &str) -> (r: ValueSlider)
        requires
            old(tk).wf(),
            old(tk).num_widgets() < usize::MAX,
        ensures
            final(tk).wf(),
            liveness_monotone(*old(tk), *final(tk)),
            fresh_widget(*old(tk), *final(tk), r.wid(), x, y, w, h, label@),
    {
        ValueSlider { inner: tk.create_widget(x, y, w, h, label) }
    }
}

impl WidgetExt for ValueSlider {
    closed spec fn wid(&self) -> usize {
        self.inner.id()
    }

    fn handle(&self) -> (hd: &WidgetHandle) {
        &self.inner
    }

    fn into_handle(self) -> (hd: WidgetHandle) {
        self.inner
    }
}

/// Creates an adjuster widget
pub struct Adjuster {
    inner: WidgetHandle,
}

impl Adjuster {
    /// Creates the widget and registers its liveness tracker.
    pub fn new(tk: &mut Toolkit, x: i32, y: i32, w: i32, h: i32, label: &str) -> (r: Adjuster)
        requires
            old(tk).wf(),
            old(tk).num_widgets() < usize::MAX,
        ensures
            final(tk).wf(),
            liveness_monotone(*old(tk), *final(tk)),
            fresh_widget(*old(tk), *final(tk), r.wid(), x, y, w, h, label@),
    {
        Adjuster { inner: tk.create_widget(x, y, w, h, label) }
    }
}

impl WidgetExt for Adjuster {
    closed spec fn wid(&self) -> usize {
        self.inner.id()
    }

    fn handle(&self) -> (hd: &WidgetHandle) {
        &self.inner
    }

    fn into_handle(self) -> (hd: WidgetHandle) {
        self.inner
    }
}

/// Creates an value input widget
pub struct ValueInput {
    inner: WidgetHandle,
}

impl ValueInput {
    /// Creates the widget and registers its liveness tracker.
    pub fn new(tk: &mut Toolkit, x: i32, y: i32, w: i32, h: i32, label: &str) -> (r: ValueInput)
        requires
            old(tk).wf(),
            old(tk).num_widgets() < usize::MAX,
        ensures
            final(tk).wf(),
            liveness_monotone(*old(tk), *final(tk)),
            fresh_widget(*old(tk), *final(tk), r.wid(), x, y, w, h, label@),
    {
        ValueInput { inner: tk.create_widget(x, y, w, h, label) }
    }
}

impl WidgetExt for ValueInput {
    closed spec fn wid(&self) -> usize {
        self.inner.id()
    }

    fn handle(&self) -> (hd: &WidgetHandle) {
        &self.inner
    }

    fn into_handle(self) -> (hd: WidgetHandle) {
        self.inner
    }
}

/// Creates an value output widget
pub struct ValueOutput {
    inner: WidgetHandle,
}

impl ValueOutput {
    /// Creates the widget and registers its liveness tracker.
    pub fn new(tk: &mut Toolkit, x: i32, y: i32, w: i32, h: i32, label: &str) -> (r: ValueOutput)
        requires
            old(tk).wf(),
            old(tk).num_widgets() < usize::MAX,
        ensures
            final(tk).wf(),
            liveness_monotone(*old(tk), *final(tk)),
            fresh_widget(*old(tk), *final(tk), r.wid(), x, y, w, h, label@),
    {
        ValueOutput { inner: tk.create_widget(x, y, w, h, label) }
    }
}

impl WidgetExt for ValueOutput {
    closed spec fn wid(&self) -> usize {
        self.inner.id()
    }

    fn handle(&self) -> (hd: &WidgetHandle) {
        &self.inner
    }

    fn into_handle(self) -> (hd: WidgetHandle) {
        self.inner
    }
}

/// Creates a fill slider
pub struct FillSlider {
    inner: WidgetHandle,
}

impl FillSlider {
    /// Creates the widget and registers its liveness tracker.
    pub fn new(tk: &mut Toolkit, x: i32, y: i32, w: i32, h: i32, label: &str) -> (r: FillSlider)
        requires
            old(tk).wf(),
            old(tk).num_widgets() < usize::MAX,
        ensures
            final(tk).wf(),
            liveness_monotone(*old(tk), *final(tk)),
            fresh_widget(*old(tk), *final(tk), r.wid(), x, y, w, h, label@),
    {
        FillSlider { inner: tk.create_widget(x, y, w, h, label) }
    }
}

impl WidgetExt for FillSlider {
    closed spec fn wid(&self) -> usize {
        self.inner.id()
    }

    fn handle(&self) -> (hd: &WidgetHandle) {
        &self.inner
    }

    fn into_handle(self) -> (hd: WidgetHandle) {
        self.inner
    }
}

/// Creates a fill dial
pub struct FillDial {
    inner: WidgetHandle,
}

impl FillDial {
    /// Creates the widget and registers its liveness tracker.
    pub fn new(tk: &mut Toolkit, x: i32, y: i32, w: i32, h: i32, label: &str) -> (r: FillDial)
        requires
            old(tk).wf(),
            old(tk).num_widgets() < usize::MAX,
        ensures
            final(tk).wf(),
            liveness_monotone(*old(tk), *final(tk)),
            fresh_widget(*old(tk), *final(tk), r.wid(), x, y, w, h, label@),
    {
        FillDial { inner: tk.create_widget(x, y, w, h, label) }
    }
}

impl WidgetExt for FillDial {
    closed spec fn wid(&self) -> usize {
        self.inner.id()
    }

    fn handle(&self) -> (hd: &WidgetHandle) {
        &self.inner
    }

    fn into_handle(self) -> (hd: WidgetHandle) {
        self.inner
    }
}

/// Creates a horizontal slider
pub struct HorSlider {
    inner: WidgetHandle,
}

impl HorSlider {
    /// Creates the widget and registers its liveness tracker.
    pub fn new(tk: &mut Toolkit, x: i32, y: i32, w: i32, h: i32, label: &str) -> (r: HorSlider)
        requires
            old(tk).wf(),
            old(tk).num_widgets() < usize::MAX,
        ensures
            final(tk).wf(),
            liveness_monotone(*old(tk), *final(tk)),
            fresh_widget(*old(tk), *final(tk), r.wid(), x, y, w, h, label@),
    {
        HorSlider { inner: tk.create_widget(x, y, w, h, label) }
    }
}

impl WidgetExt for HorSlider {
    closed spec fn wid(&self) -> usize {
        self.inner.id()
    }

    fn handle(&self) -> (hd: &WidgetHandle) {
        &self.inner
    }

    fn into_handle(self) -> (hd: WidgetHandle) {
        self.inner
    }
}

/// Creates a horizontal fill slider
pub struct HorFillSlider {
    inner: WidgetHandle,
}

impl HorFillSlider {
    /// Creates the widget and registers its liveness tracker.
    pub fn new(tk: &mut Toolkit, x: i32, y: i32, w: i32, h: i32, label: &str) -> (r: HorFillSlider)
        requires
            old(tk).wf(),
            old(tk).num_widgets() < usize::MAX,
        ensures
            final(tk).wf(),
            liveness_monotone(*old(tk), *final(tk)),
            fresh_widget(*old(tk), *final(tk), r.wid(), x, y, w, h, label@),
    {
        HorFillSlider { inner: tk.create_widget(x, y, w, h, label) }
    }
}

impl WidgetExt for HorFillSlider {
    closed spec fn wid(&self) -> usize {
        self.inner.id()
    }

    fn handle(&self) -> (hd: &WidgetHandle) {
        &self.inner
    }

    fn into_handle(self) -> (hd: WidgetHandle) {
        self.inner
    }
}

/// Creates a horizontal nice slider
pub struct HorNiceSlider {
    inner: WidgetHandle,
}

impl HorNiceSlider {
    /// Creates the widget and registers its liveness tracker.
    pub fn new(tk: &mut Toolkit, x: i32, y: i32, w: i32, h: i32, label: &str) -> (r: HorNiceSlider)
        requires
            old(tk).wf(),
            old(tk).num_widgets() < usize::MAX,
        ensures
            final(tk).wf(),
            liveness_monotone(*old(tk), *final(tk)),
            fresh_widget(*old(tk), *final(tk), r.wid(), x, y, w, h, label@),
    {
        HorNiceSlider { inner: tk.create_widget(x, y, w, h, label) }
    }
}

impl WidgetExt for HorNiceSlider {
    closed spec fn wid(&self) -> usize {
        self.inner.id()
    }

    fn handle(&self) -> (hd: &WidgetHandle) {
        &self.inner
    }

    fn into_handle(self) -> (hd: WidgetHandle) {
        self.inner
    }
}

/// Creates a horizontal value slider
pub struct HorValueSlider {
    inner: WidgetHandle,
}

impl HorValueSlider {
    /// Creates the widget and registers its liveness tracker.
    pub fn new(tk: &mut Toolkit, x: i32, y: i32, w: i32, h: i32, label: &str) -> (r: HorValueSlider)
        requires
            old(tk).wf(),
            old(tk).num_widgets() < usize::MAX,
        ensures
            final(tk).wf(),
            liveness_monotone(*old(tk), *final(tk)),
            fresh_widget(*old(tk), *final(tk), r.wid(), x, y, w, h, label@),
    {
        HorValueSlider { inner: tk.create_widget(x, y, w, h, label) }
    }
}

impl WidgetExt for HorValueSlider {
    closed spec fn wid(&self) -> usize {
        self.inner.id()
    }

    fn handle(&self) -> (hd: &WidgetHandle) {
        &self.inner
    }

    fn into_handle(self) -> (hd: WidgetHandle) {
        self.inner
    }
}

} // verus!
