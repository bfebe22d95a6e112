//! Tests for the container widgets: pack layout, the grids and the colour
//! chooser.

use fltk::group::ColorChooser;
use fltk::group::HGrid;
use fltk::group::Pack;
use fltk::group::PackType;
use fltk::group::ScrollType;
use fltk::group::VGrid;
use fltk::tracker::Toolkit;
use fltk::valuator::Slider;
use fltk::widget::GroupExt;
use fltk::widget::WidgetExt;

#[test]
fn pack_auto_layout_divides_height_among_children() {
    let mut tk = Toolkit::new();
    let pack = Pack::new(&mut tk, 0, 0, 300, 300, "");
    pack.set_spacing(&mut tk, 5);
    let a = Slider::new(&mut tk, 0, 0, 50, 40, "");
    let b = Slider::new(&mut tk, 0, 0, 60, 40, "");
    let c = Slider::new(&mut tk, 0, 0, 70, 40, "");
    pack.add(&mut tk, &a);
    pack.add(&mut tk, &b);
    pack.add(&mut tk, &c);
    pack.auto_layout(&mut tk);
    // (300 - 5 * 2) / 3 = 96 pixels of height each; widths are kept
    assert_eq!(a.width(&tk), 50);
    assert_eq!(b.width(&tk), 60);
    assert_eq!(c.width(&tk), 70);
    assert_eq!(a.height(&tk), 96);
    assert_eq!(b.height(&tk), 96);
    assert_eq!(c.height(&tk), 96);
}

#[test]
fn pack_auto_layout_divides_width_when_horizontal() {
    let mut tk = Toolkit::new();
    let pack = Pack::new(&mut tk, 0, 0, 320, 200, "");
    pack.set_type(&mut tk, PackType::Horizontal);
    pack.set_spacing(&mut tk, 10);
    let a = Slider::new(&mut tk, 0, 0, 50, 40, "");
    let b = Slider::new(&mut tk, 0, 0, 60, 45, "");
    pack.add(&mut tk, &a);
    pack.add(&mut tk, &b);
    pack.auto_layout(&mut tk);
    // (320 - 10) / 2 = 155 pixels of width each; heights are kept
    assert_eq!(a.width(&tk), 155);
    assert_eq!(b.width(&tk), 155);
    assert_eq!(a.height(&tk), 40);
    assert_eq!(b.height(&tk), 45);
}

#[test]
fn pack_auto_layout_with_no_children_changes_nothing() {
    let mut tk = Toolkit::new();
    let pack = Pack::new(&mut tk, 0, 0, 300, 300, "");
    pack.auto_layout(&mut tk);
    assert_eq!(pack.children(&tk), 0);
    assert_eq!(pack.width(&tk), 300);
}

#[test]
fn resize_moves_and_sizes_the_widget() {
    let mut tk = Toolkit::new();
    let pack = Pack::new(&mut tk, 0, 0, 10, 10, "");
    pack.resize(&mut tk, 5, 6, 70, 80);
    assert_eq!(pack.x(&tk), 5);
    assert_eq!(pack.y(&tk), 6);
    assert_eq!(pack.width(&tk), 70);
    assert_eq!(pack.height(&tk), 80);
}

#[test]
fn pack_type_round_trip() {
    let mut tk = Toolkit::new();
    let pack = Pack::new(&mut tk, 0, 0, 10, 10, "");
    assert_eq!(pack.get_type(&tk), PackType::Vertical);
    pack.set_type(&mut tk, PackType::Horizontal);
    assert_eq!(pack.get_type(&tk), PackType::Horizontal);
}

#[test]
fn vgrid_set_params_creates_one_horizontal_pack_per_row() {
    let mut tk = Toolkit::new();
    let mut grid = VGrid::new(&mut tk, 0, 0, 400, 300, "");
    grid.set_params(&mut tk, 3, 3, 5);
    assert_eq!(grid.rows(), 3);
    assert_eq!(grid.cols(), 3);
    let pack = grid.pack();
    assert_eq!(pack.children(&tk), 3);
    for i in 0..3 {
        let row = pack.child(&mut tk, i).unwrap();
        assert!(!tk.was_deleted(&row));
        assert!(tk.is_horizontal(&row));
        assert_eq!(tk.spacing_of(&row), 5);
        assert_eq!(tk.width_of(&row), 400);
        assert_eq!(tk.height_of(&row), 0);
        assert_eq!(tk.parent_of(&row), pack.handle().widget_id());
    }
}

#[test]
fn hgrid_set_params_creates_one_vertical_pack_per_column() {
    let mut tk = Toolkit::new();
    let mut grid = HGrid::new(&mut tk, 0, 0, 400, 300, "");
    grid.set_params(&mut tk, 2, 4, 7);
    assert_eq!(grid.rows(), 2);
    assert_eq!(grid.cols(), 4);
    let pack = grid.pack();
    assert_eq!(pack.children(&tk), 4);
    for i in 0..4 {
        let col = pack.child(&mut tk, i).unwrap();
        assert!(!tk.is_horizontal(&col));
        assert_eq!(tk.spacing_of(&col), 7);
        assert_eq!(tk.width_of(&col), 0);
        assert_eq!(tk.height_of(&col), 300);
    }
}

#[test]
fn grid_params_are_clamped_to_at_least_one() {
    let mut tk = Toolkit::new();
    let mut grid = VGrid::new(&mut tk, 0, 0, 100, 100, "");
    grid.set_params(&mut tk, 0, -3, 1);
    assert_eq!(grid.rows(), 1);
    assert_eq!(grid.cols(), 1);
    assert_eq!(grid.pack().children(&tk), 1);
}

#[test]
fn color_chooser_reports_the_picked_colour_as_hex() {
    let mut tk = Toolkit::new();
    let chooser = ColorChooser::new(&mut tk, 0, 0, 200, 200, "");
    assert_eq!(chooser.rgb_color(&tk), (0, 0, 0));
    assert_eq!(chooser.hex_color(&tk), 0);
    tk.native_set_rgb(chooser.handle(), 0x12, 0x34, 0x56);
    assert_eq!(chooser.rgb_color(&tk), (0x12, 0x34, 0x56));
    assert_eq!(chooser.hex_color(&tk), 0x123456);
}

#[test]
fn scroll_type_bits_match_the_native_values() {
    assert_eq!(ScrollType::NoBars.bits(), 0);
    assert_eq!(ScrollType::Horizontal.bits(), 1);
    assert_eq!(ScrollType::Vertical.bits(), 2);
    assert_eq!(ScrollType::Both.bits(), 3);
    assert_eq!(ScrollType::AlwaysOn.bits(), 4);
    assert_eq!(ScrollType::HorizontalAlways.bits(), 5);
    assert_eq!(ScrollType::VerticalAlways.bits(), 6);
    assert_eq!(ScrollType::BothAlways.bits(), 7);
}

#[test]
fn pack_type_bits_match_the_native_values() {
    assert_eq!(PackType::Vertical.bits(), 0);
    assert_eq!(PackType::Horizontal.bits(), 1);
}
