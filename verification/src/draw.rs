//! Drawing helpers: framebuffer images, drawing them into widgets, and
//! writing them out through the native image encoders.
//!
//! The wrapper side owns the size checks: an image only comes into being
//! when the data is large enough for its dimensions, and a framebuffer is
//! only installed on a widget when it covers the widget's area.  The native
//! encoders are modelled as accepting every file name their C string
//! conversion accepts; the [`crate::tracker::Toolkit`] records what was
//! handed to them.

use vstd::prelude::*;
use vstd::string::StringSliceAdditionalSpecFns;

use crate::prelude::contains_nul;
use crate::prelude::str_contains_nul;
use crate::prelude::FltkError;
use crate::prelude::FltkErrorKind;
use crate::tracker::Toolkit;
use crate::widget::WidgetExt;

verus! {

/// Defines a coordinate of x and y
#[derive(Copy, Clone, Debug)]
pub struct Coord<T: Copy>(pub T, pub T);

/// The colour depths an image can carry: bytes per pixel.
#[derive(Debug, Copy, Clone, PartialEq, Eq, Structural)]
pub enum ColorDepth {
    /// Greyscale
    L8,
    /// Greyscale with alpha
    La8,
    /// Red, green, blue
    Rgb8,
    /// Red, green, blue, alpha
    Rgba8,
}

impl ColorDepth {
    /// How many bytes one pixel of this depth takes.
    pub open spec fn spec_bytes_per_pixel(self) -> u8 {
        match self {
            ColorDepth::L8 => 1,
            ColorDepth::La8 => 2,
            ColorDepth::Rgb8 => 3,
            ColorDepth::Rgba8 => 4,
        }
    }

    /// How many bytes one pixel of this depth takes.
    pub fn bytes_per_pixel(self) -> (r: u8)
        ensures
            r == self.spec_bytes_per_pixel(),
    {
        match self {
            ColorDepth::L8 => 1,
            ColorDepth::La8 => 2,
            ColorDepth::Rgb8 => 3,
            ColorDepth::Rgba8 => 4,
        }
    }
}

/// An image held as raw pixel data with its dimensions and colour depth.
pub struct RgbImage {
    data: Vec<u8>,
    w: u32,
    h: u32,
    depth: ColorDepth,
}

impl RgbImage {
    /// The image's pixel data.
    pub closed spec fn spec_data(self) -> Seq<u8> {
        self.data@
    }

    /// The image's width in pixels.
    pub closed spec fn spec_w(self) -> u32 {
        self.w
    }

    /// The image's height in pixels.
    pub closed spec fn spec_h(self) -> u32 {
        self.h
    }

    /// The image's colour depth.
    pub closed spec fn spec_depth(self) -> ColorDepth {
        self.depth
    }

    /// Builds an image from raw data, copying it: the data must hold at
    /// least `w * h` pixels of the given depth, else the image format is
    /// rejected.
    pub fn new(data: &[u8], w: u32, h: u32, depth: ColorDepth) -> (r: Result<RgbImage, FltkError>)
        ensures
            data@.len() >= w * h * depth.spec_bytes_per_pixel() ==> (r matches Ok(img)
                && img.spec_data() == data@ && img.spec_w() == w && img.spec_h() == h
                && img.spec_depth() == depth),
            data@.len() < w * h * depth.spec_bytes_per_pixel() ==> r == Result::<
                RgbImage,
                FltkError,
            >::Err(FltkError::Internal(FltkErrorKind::ImageFormatError)),
    {
        let bpp = depth.bytes_per_pixel();
        proof {
            assert((w as int) * (h as int) * (bpp as int) < u128::MAX) by (nonlinear_arith)
                requires
                    0 <= w <= u32::MAX,
                    0 <= h <= u32::MAX,
                    0 <= bpp <= u8::MAX,
            ;
        }
        let need: u128 = (w as u128) * (h as u128) * (bpp as u128);
        if (data.len() as u128) < need {
            Err(FltkError::Internal(FltkErrorKind::ImageFormatError))
        } else {
            let copied: Vec<u8> = vstd::slice::slice_to_vec(data);
            Ok(RgbImage { data: copied, w, h, depth })
        }
    }

    /// Gets the image's width in pixels.
    pub fn data_w(&self) -> (r: u32)
        ensures
            r == self.spec_w(),
    {
        self.w
    }

    /// Gets the image's height in pixels.
    pub fn data_h(&self) -> (r: u32)
        ensures
            r == self.spec_h(),
    {
        self.h
    }
}

/// Draw a framebuffer (rgba) into a widget: the framebuffer must cover the
/// widget's area at four bytes per pixel, else its format is rejected and
/// nothing changes.  On success the framebuffer is installed as the
/// widget's draw routine.
pub fn draw_rgba<W: WidgetExt>(tk: &mut Toolkit, wid: &W, fb: &[u8]) -> (r: Result<(), FltkError>)
    requires
        old(tk).wf(),
        old(tk).is_widget(wid.wid()),
        !old(tk).widget(wid.wid()).destroyed,
        old(tk).widget(wid.wid()).w >= 0,
        old(tk).widget(wid.wid()).h >= 0,
    ensures
        final(tk).wf(),
        crate::tracker::liveness_monotone(*old(tk), *final(tk)),
        fb@.len() < old(tk).widget(wid.wid()).w * old(tk).widget(wid.wid()).h * 4 ==> r
            == Result::<(), FltkError>::Err(FltkError::Internal(FltkErrorKind::ImageFormatError))
            && *final(tk) == *old(tk),
        fb@.len() >= old(tk).widget(wid.wid()).w * old(tk).widget(wid.wid()).h * 4 ==> r
            == Result::<(), FltkError>::Ok(()) && crate::tracker::others_unchanged(*old(tk),
            *final(tk), wid.wid()) && crate::tracker::same_widget_protocol(old(tk).widget(
            wid.wid()), final(tk).widget(wid.wid())) && final(tk).widget(wid.wid()).draw_depth
            == 4 && final(tk).widget(wid.wid()).x == old(tk).widget(wid.wid()).x && final(
            tk).widget(wid.wid()).y == old(tk).widget(wid.wid()).y && final(tk).widget(
            wid.wid()).w == old(tk).widget(wid.wid()).w && final(tk).widget(wid.wid()).h == old(
            tk).widget(wid.wid()).h,
{
    let width = tk.width_of(wid.handle());
    let height = tk.height_of(wid.handle());
    proof {
        assert((width as int) * (height as int) * 4 < u128::MAX) by (nonlinear_arith)
            requires
                0 <= width <= i32::MAX,
                0 <= height <= i32::MAX,
        ;
    }
    let need: u128 = (width as u128) * (height as u128) * 4;
    if (fb.len() as u128) < need {
        Err(FltkError::Internal(FltkErrorKind::ImageFormatError))
    } else {
        tk.install_draw_image(wid.handle(), 4);
        Ok(())
    }
}

/// Draw a framebuffer (rgb) into a widget: the framebuffer must cover the
/// widget's area at three bytes per pixel, else its format is rejected and
/// nothing changes.  On success the framebuffer is installed as the
/// widget's draw routine.
pub fn draw_rgb<W: WidgetExt>(tk: &mut Toolkit, wid: &W, fb: &[u8]) -> (r: Result<(), FltkError>)
    requires
        old(tk).wf(),
        old(tk).is_widget(wid.wid()),
        !old(tk).widget(wid.wid()).destroyed,
        old(tk).widget(wid.wid()).w >= 0,
        old(tk).widget(wid.wid()).h >= 0,
    ensures
        final(tk).wf(),
        crate::tracker::liveness_monotone(*old(tk), *final(tk)),
        fb@.len() < old(tk).widget(wid.wid()).w * old(tk).widget(wid.wid()).h * 3 ==> r
            == Result::<(), FltkError>::Err(FltkError::Internal(FltkErrorKind::ImageFormatError))
            && *final(tk) == *old(tk),
        fb@.len() >= old(tk).widget(wid.wid()).w * old(tk).widget(wid.wid()).h * 3 ==> r
            == Result::<(), FltkError>::Ok(()) && crate::tracker::others_unchanged(*old(tk),
            *final(tk), wid.wid()) && crate::tracker::same_widget_protocol(old(tk).widget(
            wid.wid()), final(tk).widget(wid.wid())) && final(tk).widget(wid.wid()).draw_depth
            == 3 && final(tk).widget(wid.wid()).x == old(tk).widget(wid.wid()).x && final(
            tk).widget(wid.wid()).y == old(tk).widget(wid.wid()).y && final(tk).widget(
            wid.wid()).w == old(tk).widget(wid.wid()).w && final(tk).widget(wid.wid()).h == old(
            tk).widget(wid.wid()).h,
{
    let width = tk.width_of(wid.handle());
    let height = tk.height_of(wid.handle());
    proof {
        assert((width as int) * (height as int) * 3 < u128::MAX) by (nonlinear_arith)
            requires
                0 <= width <= i32::MAX,
                0 <= height <= i32::MAX,
        ;
    }
    let need: u128 = (width as u128) * (height as u128) * 3;
    if (fb.len() as u128) < need {
        Err(FltkError::Internal(FltkErrorKind::ImageFormatError))
    } else {
        tk.install_draw_image(wid.handle(), 3);
        Ok(())
    }
}

/// Draw an image into the current drawing context: the data must hold at
/// least `w * h` pixels of the given depth, else its format is rejected;
/// rendering itself is the native side's work.
pub fn draw_image(data: &[u8], x: i32, y: i32, w: i32, h: i32, depth: ColorDepth) -> (r: Result<
    (),
    FltkError,
>)
    requires
        w >= 0,
        h >= 0,
    ensures
        data@.len() >= w * h * depth.spec_bytes_per_pixel() ==> r == Result::<(), FltkError>::Ok(
            ()),
        data@.len() < w * h * depth.spec_bytes_per_pixel() ==> r == Result::<(), FltkError>::Err(
            FltkError::Internal(FltkErrorKind::ImageFormatError)),
{
    let bpp = depth.bytes_per_pixel();
    proof {
        assert((w as int) * (h as int) * (bpp as int) < u128::MAX) by (nonlinear_arith)
            requires
                0 <= w <= i32::MAX,
                0 <= h <= i32::MAX,
                0 <= bpp <= u8::MAX,
        ;
    }
    let need: u128 = (w as u128) * (h as u128) * (bpp as u128);
    if (data.len() as u128) < need {
        Err(FltkError::Internal(FltkErrorKind::ImageFormatError))
    } else {
        Ok(())
    }
}

/// Transforms raw data to png file.  The native conversion rejects a path
/// holding a nul byte; for every other path the encoder is handed the image
/// and the toolkit records the file name.
pub fn write_to_png_file(tk: &mut Toolkit, image: &RgbImage, path: &str) -> (r: Result<
    (),
    FltkError,
>)
    requires
        old(tk).wf(),
    ensures
        final(tk).wf(),
        crate::tracker::liveness_monotone(*old(tk), *final(tk)),
        contains_nul(path.spec_bytes()) ==> r == Result::<(), FltkError>::Err(
            FltkError::NullError) && *final(tk) == *old(tk),
        !contains_nul(path.spec_bytes()) ==> r == Result::<(), FltkError>::Ok(()) && final(
            tk).spec_saved_files() == old(tk).spec_saved_files().push(path@) && final(
            tk).spec_documents() == old(tk).spec_documents() && final(tk).num_widgets() == old(
            tk).num_widgets() && (forall|j: usize|
            old(tk).is_widget(j) ==> crate::tracker::same_widget(#[trigger] old(tk).widget(j),
                final(tk).widget(j))),
{
    if str_contains_nul(path) {
        Err(FltkError::NullError)
    } else {
        tk.record_saved_file(path);
        Ok(())
    }
}

/// Transforms raw data to jpg file.  The native conversion rejects a path
/// holding a nul byte; for every other path the encoder is handed the image
/// and the toolkit records the file name.
pub fn write_to_jpg_file(tk: &mut Toolkit, image: &RgbImage, path: &str) -> (r: Result<
    (),
    FltkError,
>)
    requires
        old(tk).wf(),
    ensures
        final(tk).wf(),
        crate::tracker::liveness_monotone(*old(tk), *final(tk)),
        contains_nul(path.spec_bytes()) ==> r == Result::<(), FltkError>::Err(
            FltkError::NullError) && *final(tk) == *old(tk),
        !contains_nul(path.spec_bytes()) ==> r == Result::<(), FltkError>::Ok(()) && final(
            tk).spec_saved_files() == old(tk).spec_saved_files().push(path@) && final(
            tk).spec_documents() == old(tk).spec_documents() && final(tk).num_widgets() == old(
            tk).num_widgets() && (forall|j: usize|
            old(tk).is_widget(j) ==> crate::tracker::same_widget(#[trigger] old(tk).widget(j),
                final(tk).widget(j))),
{
    if str_contains_nul(path) {
        Err(FltkError::NullError)
    } else {
        tk.record_saved_file(path);
        Ok(())
    }
}

/// Transforms raw data to bmp file.  The native conversion rejects a path
/// holding a nul byte; for every other path the encoder is handed the image
/// and the toolkit records the file name.
pub fn write_to_bmp_file(tk: &mut Toolkit, image: &RgbImage, path: &str) -> (r: Result<
    (),
    FltkError,
>)
    requires
        old(tk).wf(),
    ensures
        final(tk).wf(),
        crate::tracker::liveness_monotone(*old(tk), *final(tk)),
        contains_nul(path.spec_bytes()) ==> r == Result::<(), FltkError>::Err(
            FltkError::NullError) && *final(tk) == *old(tk),
        !contains_nul(path.spec_bytes()) ==> r == Result::<(), FltkError>::Ok(()) && final(
            tk).spec_saved_files() == old(tk).spec_saved_files().push(path@) && final(
            tk).spec_documents() == old(tk).spec_documents() && final(tk).num_widgets() == old(
            tk).num_widgets() && (forall|j: usize|
            old(tk).is_widget(j) ==> crate::tracker::same_widget(#[trigger] old(tk).widget(j),
                final(tk).widget(j))),
{
    if str_contains_nul(path) {
        Err(FltkError::NullError)
    } else {
        tk.record_saved_file(path);
        Ok(())
    }
}

} // verus!
