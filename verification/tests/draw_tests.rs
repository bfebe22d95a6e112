//! Tests for the drawing helpers and the browser and valuator wrappers.

use fltk::browser::BrowserScrollbar;
use fltk::browser::BrowserType;
use fltk::browser::CheckBrowser;
use fltk::browser::FileType;
use fltk::draw::draw_image;
use fltk::draw::draw_rgb;
use fltk::draw::draw_rgba;
use fltk::draw::write_to_bmp_file;
use fltk::draw::write_to_jpg_file;
use fltk::draw::write_to_png_file;
use fltk::draw::ColorDepth;
use fltk::draw::Coord;
use fltk::draw::RgbImage;
use fltk::prelude::FltkError;
use fltk::prelude::FltkErrorKind;
use fltk::tracker::Toolkit;
use fltk::valuator::CounterType;
use fltk::valuator::Dial;
use fltk::valuator::DialType;
use fltk::valuator::ScrollbarType;
use fltk::valuator::SliderType;
use fltk::widget::WidgetExt;

#[test]
fn rgb_image_needs_enough_data_for_its_pixels() {
    let data = [0u8; 12];
    let img = RgbImage::new(&data, 2, 2, ColorDepth::Rgb8).unwrap();
    assert_eq!(img.data_w(), 2);
    assert_eq!(img.data_h(), 2);
    let short = [0u8; 11];
    assert!(matches!(
        RgbImage::new(&short, 2, 2, ColorDepth::Rgb8),
        Err(FltkError::Internal(FltkErrorKind::ImageFormatError))
    ));
    // four bytes per pixel once alpha comes in
    assert!(matches!(
        RgbImage::new(&data, 2, 2, ColorDepth::Rgba8),
        Err(FltkError::Internal(FltkErrorKind::ImageFormatError))
    ));
}

#[test]
fn color_depth_counts_bytes_per_pixel() {
    assert_eq!(ColorDepth::L8.bytes_per_pixel(), 1);
    assert_eq!(ColorDepth::La8.bytes_per_pixel(), 2);
    assert_eq!(ColorDepth::Rgb8.bytes_per_pixel(), 3);
    assert_eq!(ColorDepth::Rgba8.bytes_per_pixel(), 4);
}

#[test]
fn draw_rgb_requires_the_framebuffer_to_cover_the_widget() {
    let mut tk = Toolkit::new();
    let wid = Dial::new(&mut tk, 0, 0, 2, 2, "");
    let fb = [0u8; 12];
    assert_eq!(draw_rgb(&mut tk, &wid, &fb), Ok(()));
    assert_eq!(tk.draw_depth_of(wid.handle()), 3);
    let short = [0u8; 11];
    assert!(matches!(
        draw_rgb(&mut tk, &wid, &short),
        Err(FltkError::Internal(FltkErrorKind::ImageFormatError))
    ));
}

#[test]
fn draw_rgba_needs_four_bytes_per_pixel() {
    let mut tk = Toolkit::new();
    let wid = Dial::new(&mut tk, 0, 0, 2, 2, "");
    let rgb_only = [0u8; 12];
    assert!(matches!(
        draw_rgba(&mut tk, &wid, &rgb_only),
        Err(FltkError::Internal(FltkErrorKind::ImageFormatError))
    ));
    let full = [0u8; 16];
    assert_eq!(draw_rgba(&mut tk, &wid, &full), Ok(()));
    assert_eq!(tk.draw_depth_of(wid.handle()), 4);
}

#[test]
fn draw_image_checks_the_data_size() {
    let data = [0u8; 8];
    assert_eq!(draw_image(&data, 0, 0, 2, 2, ColorDepth::La8), Ok(()));
    assert!(matches!(
        draw_image(&data, 0, 0, 2, 2, ColorDepth::Rgb8),
        Err(FltkError::Internal(FltkErrorKind::ImageFormatError))
    ));
}

#[test]
fn image_writers_accept_clean_paths_and_reject_nul() {
    let mut tk = Toolkit::new();
    let data = [0u8; 12];
    let img = RgbImage::new(&data, 2, 2, ColorDepth::Rgb8).unwrap();
    assert_eq!(write_to_png_file(&mut tk, &img, "out.png"), Ok(()));
    assert_eq!(write_to_jpg_file(&mut tk, &img, "out.jpg"), Ok(()));
    assert_eq!(write_to_bmp_file(&mut tk, &img, "out.bmp"), Ok(()));
    assert_eq!(tk.saved_file_count(), 3);
    assert!(tk.has_saved_file("out.jpg"));
    assert!(!tk.has_saved_file("other.png"));
    assert_eq!(
        write_to_png_file(&mut tk, &img, "bad\0.png"),
        Err(FltkError::NullError)
    );
    assert_eq!(tk.saved_file_count(), 3);
}

#[test]
fn coord_carries_a_pair() {
    let c = Coord(3i32, 4i32);
    assert_eq!(c.0, 3);
    assert_eq!(c.1, 4);
}

#[test]
fn browser_and_valuator_enums_match_the_native_values() {
    assert_eq!(BrowserType::Normal.bits(), 0);
    assert_eq!(BrowserType::Select.bits(), 1);
    assert_eq!(BrowserType::Hold.bits(), 2);
    assert_eq!(BrowserType::Multi.bits(), 3);
    assert_eq!(BrowserScrollbar::BothAlways.bits(), 7);
    assert_eq!(FileType::Files.bits(), 0);
    assert_eq!(FileType::Dirs.bits(), 1);
    assert_eq!(SliderType::HorizontalNice.bits(), 5);
    assert_eq!(DialType::Fill.bits(), 2);
    assert_eq!(CounterType::Simple.bits(), 1);
    assert_eq!(ScrollbarType::VerticalFill.bits(), 2);
}

#[test]
fn check_browser_shares_the_widget_lifetime_protocol() {
    let mut tk = Toolkit::new();
    let browser = CheckBrowser::new(&mut tk, 0, 0, 100, 100, "items");
    assert!(!browser.was_deleted(&tk));
    let id = browser.handle().widget_id();
    tk.drop_handle(browser.into_handle());
    let probe = tk.wrap_raw(id).unwrap();
    assert!(tk.was_deleted(&probe));
    assert_eq!(tk.deletion_requests(&probe), 1);
}
