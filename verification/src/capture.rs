//! Captures of a page: from raw pixels to an encoded image, and the steps
//! of a capture of the whole document.

use vstd::prelude::*;
use crate::engine::PageEngine;
use crate::navigation::begins_with;
use crate::types::{PageError, PageErrorView};
use crate::value::{saturating_u32, JsValue};

verus! {

/// `image::ImageError`, opaque.
#[verifier::external_type_specification]
#[verifier::external_body]
pub struct ExImageError(image::ImageError);

/// How the text of the error for a failed encoding begins.
pub const PNG_ENCODING_FAILED: &'static str = "PNG encoding failed: ";

/// What `image::codecs::png::PngEncoder` writes for an image of `width` by
/// `height` pixels with four 8-bit channels in `pixels`, or `None` where it
/// reports an error.
pub uninterp spec fn png_encoding(pixels: Seq<u8>, width: u32, height: u32) -> Option<Seq<u8>>;

/// `ImageEncoder::write_image` of a fresh `PngEncoder` over a vector, with
/// the colour type `Rgba8`. It panics unless the buffer holds exactly
/// `width * height * 4` bytes. With default settings what it writes depends
/// on pixels and dimensions alone.
#[verifier::external_body]
fn png_encode(pixels: &Vec<u8>, width: u32, height: u32) -> (encoded: Result<
    Vec<u8>,
    image::ImageError,
>)
    requires
        pixels@.len() == width * height * 4,
    ensures
        match encoded {
            Ok(bytes) => png_encoding(pixels@, width, height) == Some(bytes@),
            Err(_) => png_encoding(pixels@, width, height) is None,
        },
{
    let mut out: Vec<u8> = Vec::new();
    let encoder = image::codecs::png::PngEncoder::new(&mut out);
    let color = image::ExtendedColorType::Rgba8;
    image::ImageEncoder::write_image(encoder, pixels, width, height, color).map(|_| out)
}

/// The `Display` text of an `image::ImageError`. The error is opaque here,
/// so nothing is claimed of the text.
#[verifier::external_body]
fn image_error_text(error: &image::ImageError) -> (text: String) {
    format!("{error}")
}

/// A captured frame: rows of pixels from the top, four bytes a pixel (red,
/// green, blue, alpha).
#[derive(Debug)]
pub struct RawImage {
    width: u32,
    height: u32,
    pixels: Vec<u8>,
}

/// What a captured frame holds.
pub struct RawImageView {
    pub width: u32,
    pub height: u32,
    pub pixels: Seq<u8>,
}

impl View for RawImage {
    type V = RawImageView;

    closed spec fn view(&self) -> RawImageView {
        RawImageView { width: self.width, height: self.height, pixels: self.pixels@ }
    }
}

impl RawImage {
    /// The buffer holds exactly the pixels of the dimensions.
    #[verifier::type_invariant]
    spec fn sized(&self) -> bool {
        self.pixels@.len() == self.width * self.height * 4
    }

    /// A frame of `width` by `height` pixels, if `pixels` holds exactly four
    /// bytes for each of them.
    pub fn new(width: u32, height: u32, pixels: Vec<u8>) -> (image: Option<RawImage>)
        ensures
            pixels@.len() == width * height * 4 <==> image is Some,
            image matches Some(frame) ==> frame@ == (RawImageView {
                width,
                height,
                pixels: pixels@,
            }),
    {
        assert(width * height <= 0xFFFF_FFFF * 0xFFFF_FFFF) by (nonlinear_arith)
            requires
                0 <= width <= 0xFFFF_FFFF,
                0 <= height <= 0xFFFF_FFFF,
        ;
        let area: u128 = (width as u128) * (height as u128);
        let expected: u128 = area * 4;
        if pixels.len() as u128 == expected {
            Some(RawImage { width, height, pixels })
        } else {
            None
        }
    }

    /// The width in pixels.
    pub fn width(&self) -> (width: u32)
        ensures
            width == self@.width,
    {
        self.width
    }

    /// The height in pixels.
    pub fn height(&self) -> (height: u32)
        ensures
            height == self@.height,
    {
        self.height
    }

    /// The frame as a PNG image.
    pub fn to_png(&self) -> (encoded: Result<Vec<u8>, PageError>)
        ensures
            match png_encoding(self@.pixels, self@.width, self@.height) {
                Some(bytes) => encoded is Ok && encoded->Ok_0@ == bytes,
                None => encoded is Err && encoded->Err_0 is ScreenshotFailed && begins_with(
                    encoded->Err_0->ScreenshotFailed_0@,
                    PNG_ENCODING_FAILED@,
                ),
            },
    {
        proof {
            use_type_invariant(self);
        }
        match png_encode(&self.pixels, self.width, self.height) {
            Ok(bytes) => Ok(bytes),
            Err(error) => {
                let detail = image_error_text(&error);
                let text = String::from_str(PNG_ENCODING_FAILED).concat(detail.as_str());
                assert(text@.subrange(0, PNG_ENCODING_FAILED@.len() as int)
                    =~= PNG_ENCODING_FAILED@);
                Err(PageError::ScreenshotFailed(text))
            },
        }
    }
}

/// What a capture comes to once the wait for it has ended.
///
/// `completed` says whether the frame arrived before the timeout; `result`
/// is what arrived: the frame, or the renderer's account of why there is
/// none. A frame is encoded as PNG.
pub fn screenshot_outcome(completed: bool, result: Option<Result<RawImage, String>>) -> (outcome:
    Result<Vec<u8>, PageError>)
    ensures
        match (completed, result) {
            (true, Some(Ok(frame))) => match png_encoding(
                frame@.pixels,
                frame@.width,
                frame@.height,
            ) {
                Some(bytes) => outcome is Ok && outcome->Ok_0@ == bytes,
                None => outcome is Err && outcome->Err_0 is ScreenshotFailed && begins_with(
                    outcome->Err_0->ScreenshotFailed_0@,
                    PNG_ENCODING_FAILED@,
                ),
            },
            (true, Some(Err(text))) => outcome == Err::<Vec<u8>, PageError>(
                PageError::ScreenshotFailed(text),
            ),
            _ => outcome == Err::<Vec<u8>, PageError>(PageError::Timeout),
        },
{
    if !completed {
        return Err(PageError::Timeout);
    }
    match result {
        Some(Ok(frame)) => frame.to_png(),
        Some(Err(text)) => Err(PageError::ScreenshotFailed(text)),
        None => Err(PageError::Timeout),
    }
}

/// The height of the document that a measurement yielded, in pixels. Only
/// a number counts; a failed evaluation or any other value yields none.
pub open spec fn measured_height(outcome: Result<JsValue, PageError>) -> Option<u32> {
    match outcome {
        Ok(JsValue::Number(n)) => Some(saturating_u32(n.bits)),
        _ => None,
    }
}

/// The height of the document that a measurement yielded.
pub fn document_height(outcome: &Result<JsValue, PageError>) -> (height: Option<u32>)
    ensures
        height == measured_height(*outcome),
{
    match outcome {
        Ok(JsValue::Number(n)) => Some(n.to_u32()),
        _ => None,
    }
}

/// A capture of the whole document, before the document is measured.
///
/// The capture goes through its steps by value: each step consumes the one
/// before. The document is measured; if it is taller than the viewport the
/// surface is resized to it and, once repainted and settled, measured once
/// more; if it has grown the surface is resized a second time. After
/// that the frame is captured, whatever the document does: a document that
/// keeps growing is captured at the last height measured.
#[derive(Debug)]
pub struct FullpageCapture {
    page: u32,
    width: u32,
    height: u32,
}

/// What follows a measurement.
#[derive(Debug)]
pub enum FullpageStep<R> {
    /// Capture the frame now.
    Capture,
    /// Resize the surface as `R` says and go on from there.
    Resize(R),
}

/// The first resize of a capture of the whole document. The driver resizes
/// the surface to `width` by `height` and waits for a frame.
#[derive(Debug)]
pub struct FirstResize {
    pub page: u32,
    pub width: u32,
    /// The height of the document as first measured.
    pub height: u32,
}

/// A capture of the whole document after its first resize was repainted.
/// The driver lets the page settle and measures the document again.
#[derive(Debug)]
pub struct Remeasure {
    pub page: u32,
    pub width: u32,
    /// The height that the surface was resized to.
    pub height: u32,
}

/// The second and last resize of a capture of the whole document. The
/// driver resizes the surface to `width` by `height`, waits for a frame,
/// lets the page settle and captures, whether a frame came or not.
#[derive(Debug)]
pub struct SecondResize {
    pub page: u32,
    pub width: u32,
    pub height: u32,
}

impl FullpageCapture {
    /// Begins a capture of the whole document of the focused page, which
    /// must be open with a document attached.
    pub fn begin(engine: &PageEngine) -> (capture: Result<FullpageCapture, PageError>)
        requires
            engine.wf(),
        ensures
            match engine@.webview() {
                Some(id) => capture is Ok && capture->Ok_0.page_id() == id
                    && capture->Ok_0.viewport() == (
                    engine@.pages[id].width,
                    engine@.pages[id].height,
                ),
                None => capture is Err && capture->Err_0 == PageError::NoPage,
            },
    {
        match engine.webview() {
            Ok(id) => match engine.page_size(id) {
                Some((width, height)) => Ok(FullpageCapture { page: id, width, height }),
                None => Err(PageError::NoPage),
            },
            Err(error) => Err(error),
        }
    }

    /// The page that is captured.
    pub closed spec fn page_id(self) -> u32 {
        self.page
    }

    /// The viewport of the page: width, then height.
    pub closed spec fn viewport(self) -> (u32, u32) {
        (self.width, self.height)
    }

    /// The page that is captured.
    pub fn page(&self) -> (page: u32)
        ensures
            page == self.page_id(),
    {
        self.page
    }

    /// Decides on the first measurement: a document taller than the
    /// viewport calls for a resize to its height.
    pub fn measured(self, outcome: &Result<JsValue, PageError>) -> (step: FullpageStep<FirstResize>)
        ensures
            step == match measured_height(*outcome) {
                Some(height) if height > self.viewport().1 => FullpageStep::Resize(
                    FirstResize {
                        page: self.page_id(),
                        width: self.viewport().0,
                        height,
                    },
                ),
                _ => FullpageStep::Capture,
            },
    {
        match document_height(outcome) {
            Some(height) => {
                if height > self.height {
                    FullpageStep::Resize(
                        FirstResize {
                            page: self.page,
                            width: self.width,
                            height,
                        },
                    )
                } else {
                    FullpageStep::Capture
                }
            },
            None => FullpageStep::Capture,
        }
    }
}

impl FirstResize {
    /// Decides after the wait for a frame: where the resized surface was
    /// not repainted in time, the capture times out.
    pub fn repainted(self, got_frame: bool) -> (next: Result<Remeasure, PageError>)
        ensures
            got_frame ==> next == Ok::<Remeasure, PageError>(
                Remeasure {
                    page: self.page,
                    width: self.width,
                    height: self.height,
                },
            ),
            !got_frame ==> next == Err::<Remeasure, PageError>(PageError::Timeout),
    {
        if got_frame {
            Ok(
                Remeasure {
                    page: self.page,
                    width: self.width,
                    height: self.height,
                },
            )
        } else {
            Err(PageError::Timeout)
        }
    }
}

impl Remeasure {
    /// Decides on the second measurement: a document that has grown since
    /// the first calls for one more resize, to its new height. One that
    /// kept its height or shrank is captured as the surface stands.
    pub fn measured(self, outcome: &Result<JsValue, PageError>) -> (step: FullpageStep<SecondResize>)
        ensures
            step == match measured_height(*outcome) {
                Some(height) if height > self.height => FullpageStep::Resize(
                    SecondResize { page: self.page, width: self.width, height },
                ),
                _ => FullpageStep::Capture,
            },
    {
        match document_height(outcome) {
            Some(height) => {
                if height > self.height {
                    FullpageStep::Resize(SecondResize { page: self.page, width: self.width, height })
                } else {
                    FullpageStep::Capture
                }
            },
            None => FullpageStep::Capture,
        }
    }
}

} // verus!
