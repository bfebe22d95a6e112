//! A safe wrapper layer around a native widget toolkit's object model.
//!
//! The native toolkit owns every real widget: layout, event dispatch and
//! rendering happen on its side of the boundary, and a parent container may
//! delete its children at any time without asking the wrapper.  The one piece
//! of logic this crate is responsible for is therefore the *widget ownership
//! and lifetime-tracking protocol*: lightweight handles that can be freely
//! cloned, a shared liveness flag per native widget that a destruction
//! callback flips exactly once, and a teardown rule that requests native
//! deletion exactly once and only when the wrapper actually owns the widget.
//!
//! The toolkit itself is represented by an explicit [`tracker::Toolkit`]
//! value that every operation takes as an argument; the widget modules
//! ([`group`], [`browser`], [`valuator`], [`dialog`], [`draw`]) layer the
//! concrete widget types over that shared protocol.

pub mod browser;
pub mod dialog;
pub mod draw;
pub mod group;
pub mod prelude;
pub mod tracker;
pub mod valuator;
pub mod widget;
