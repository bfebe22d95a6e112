//! Scenario tests for the widget handle and liveness-tracking protocol.

use fltk::browser::Browser;
use fltk::group::Group;
use fltk::tracker::Toolkit;
use fltk::widget::GroupExt;
use fltk::widget::WidgetExt;

#[test]
fn shared_liveness_across_handles() {
    let mut tk = Toolkit::new();
    let h1 = tk.create_widget(0, 0, 100, 100, "win");
    let h2 = tk.clone_handle(&h1);
    assert!(!tk.was_deleted(&h1));
    assert!(!tk.was_deleted(&h2));
    tk.native_destroy(&h1);
    assert!(tk.was_deleted(&h1));
    assert!(tk.was_deleted(&h2));
}

#[test]
fn deleted_flag_persists_across_other_operations() {
    let mut tk = Toolkit::new();
    let h1 = tk.create_widget(0, 0, 100, 100, "a");
    tk.native_destroy(&h1);
    assert!(tk.was_deleted(&h1));
    let other = tk.create_widget(5, 5, 10, 10, "b");
    tk.set_size(&other, 20, 20);
    assert!(tk.was_deleted(&h1));
    assert!(!tk.was_deleted(&other));
}

#[test]
fn drop_orderings_issue_a_single_deletion_request() {
    // first ordering: the first handle goes first
    let mut tk = Toolkit::new();
    let h1 = tk.create_widget(0, 0, 50, 50, "w");
    let id = h1.widget_id();
    let h2 = tk.clone_handle(&h1);
    tk.drop_handle(h1);
    tk.drop_handle(h2);
    let probe = tk.wrap_raw(id).expect("the registry keeps destroyed widgets");
    assert_eq!(tk.deletion_requests(&probe), 1);
    assert!(tk.was_deleted(&probe));

    // second ordering: the clone goes first
    let mut tk = Toolkit::new();
    let h1 = tk.create_widget(0, 0, 50, 50, "w");
    let id = h1.widget_id();
    let h2 = tk.clone_handle(&h1);
    tk.drop_handle(h2);
    tk.drop_handle(h1);
    let probe = tk.wrap_raw(id).expect("the registry keeps destroyed widgets");
    assert_eq!(tk.deletion_requests(&probe), 1);
    assert!(tk.was_deleted(&probe));
}

#[test]
fn top_level_widget_dropped_without_showing_is_deleted_once() {
    let mut tk = Toolkit::new();
    let h = tk.create_widget(0, 0, 400, 300, "never shown");
    let id = h.widget_id();
    tk.drop_handle(h);
    let probe = tk.wrap_raw(id).unwrap();
    assert_eq!(tk.deletion_requests(&probe), 1);
    assert!(tk.was_deleted(&probe));
}

#[test]
fn explicit_deletion_is_never_repeated_by_teardown() {
    let mut tk = Toolkit::new();
    let h1 = tk.create_widget(0, 0, 50, 50, "w");
    let id = h1.widget_id();
    let h2 = tk.clone_handle(&h1);
    tk.delete_widget(h1);
    let probe = tk.wrap_raw(id).unwrap();
    assert!(tk.was_deleted(&probe));
    assert_eq!(tk.deletion_requests(&probe), 1);
    // the remaining copies observe the deletion and add no second request
    assert!(tk.was_deleted(&h2));
    tk.drop_handle(h2);
    tk.drop_handle(probe);
    let probe = tk.wrap_raw(id).unwrap();
    assert_eq!(tk.deletion_requests(&probe), 1);
}

#[test]
fn attached_child_is_destroyed_by_container_teardown_without_wrapper_request() {
    let mut tk = Toolkit::new();
    let container = Group::new(&mut tk, 0, 0, 300, 300, "container");
    let child = Browser::new(&mut tk, 10, 10, 100, 100, "child");
    container.add(&mut tk, &child);
    let child_handle = child.into_handle();
    let child_id = child_handle.widget_id();

    // dropping the wrapper's handle of an attached child requests nothing
    tk.drop_handle(child_handle);
    let probe = tk.wrap_raw(child_id).unwrap();
    assert!(!tk.was_deleted(&probe));
    assert_eq!(tk.deletion_requests(&probe), 0);

    // the container's native teardown destroys the child; still no request
    tk.native_destroy(container.handle());
    assert!(tk.was_deleted(&probe));
    assert_eq!(tk.deletion_requests(&probe), 0);
    assert_eq!(tk.deletion_requests(container.handle()), 0);
}

#[test]
fn null_foreign_pointer_never_becomes_a_handle() {
    let mut tk = Toolkit::new();
    let _ = tk.create_widget(0, 0, 10, 10, "w");
    assert!(tk.wrap_raw(0).is_none());
}

#[test]
fn unknown_foreign_pointer_never_becomes_a_handle() {
    let mut tk = Toolkit::new();
    let _ = tk.create_widget(0, 0, 10, 10, "w");
    assert!(tk.wrap_raw(7).is_none());
}

#[test]
fn clone_drop_then_native_destroy_scenario() {
    // create tracker for a fresh widget
    let mut tk = Toolkit::new();
    let h1 = tk.create_widget(0, 0, 200, 100, "w");
    let id = h1.widget_id();
    assert!(!tk.was_deleted(&h1));
    // clone a second handle from the first, then drop the first
    let h2 = tk.clone_handle(&h1);
    tk.drop_handle(h1);
    assert!(!tk.was_deleted(&h2));
    // the native destruction callback fires for the widget
    tk.native_destroy(&h2);
    // every remaining handle of the widget reports the deletion
    assert!(tk.was_deleted(&h2));
    let h1_again = tk.wrap_raw(id).unwrap();
    assert!(tk.was_deleted(&h1_again));
}

#[test]
fn fetching_a_child_shares_the_liveness_flag() {
    let mut tk = Toolkit::new();
    let container = Group::new(&mut tk, 0, 0, 300, 300, "g");
    let child = Browser::new(&mut tk, 0, 0, 50, 50, "b");
    container.add(&mut tk, &child);
    let fetched = container.child(&mut tk, 0).expect("index 0 is attached");
    assert!(!tk.was_deleted(&fetched));
    tk.native_destroy(container.handle());
    assert!(tk.was_deleted(&fetched));
    assert!(child.was_deleted(&tk));
    assert!(container.child(&mut tk, 1).is_none());
}

#[test]
fn shown_window_is_left_to_the_platform_on_drop() {
    let mut tk = Toolkit::new();
    let win = Group::new(&mut tk, 0, 0, 640, 480, "main window");
    win.show(&mut tk);
    assert!(win.shown(&tk));
    let id = win.handle().widget_id();
    tk.drop_handle(win.into_handle());
    let probe = tk.wrap_raw(id).unwrap();
    // the platform holds a shown window: the wrapper requests nothing
    assert_eq!(tk.deletion_requests(&probe), 0);
    assert!(!tk.was_deleted(&probe));
}

#[test]
fn hidden_again_window_is_deleted_exactly_once_on_drop() {
    let mut tk = Toolkit::new();
    let win = Group::new(&mut tk, 0, 0, 640, 480, "main window");
    win.show(&mut tk);
    win.hide_widget(&mut tk);
    assert!(!win.shown(&tk));
    let id = win.handle().widget_id();
    tk.drop_handle(win.into_handle());
    let probe = tk.wrap_raw(id).unwrap();
    assert_eq!(tk.deletion_requests(&probe), 1);
    assert!(tk.was_deleted(&probe));
}

#[test]
fn handle_counts_follow_clones_and_drops() {
    let mut tk = Toolkit::new();
    let h1 = tk.create_widget(0, 0, 10, 10, "w");
    assert_eq!(tk.handle_count(&h1), 1);
    let h2 = tk.clone_handle(&h1);
    assert_eq!(tk.handle_count(&h1), 2);
    tk.drop_handle(h2);
    assert_eq!(tk.handle_count(&h1), 1);
}
