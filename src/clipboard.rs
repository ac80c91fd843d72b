//! Clipboard access through an explicitly owned handle.

use std::borrow::Cow;

use vstd::prelude::*;

use crate::error::{ClipboardError, ClipboardFailure, error_of_failure};

verus! {

#[verifier::external_type_specification]
#[verifier::external_body]
pub struct ExPlatformClipboard(arboard::Clipboard);

#[verifier::external_type_specification]
#[verifier::external_body]
pub struct ExPlatformError(arboard::Error);

/// Relies on arboard::Clipboard::new: opens the platform clipboard, or reports why not.
#[verifier::external_body]
fn open_platform_clipboard() -> Result<arboard::Clipboard, arboard::Error> {
    arboard::Clipboard::new()
}

/// Relies on arboard::Clipboard::set_text: places text on the clipboard, or reports why not.
pub assume_specification[ arboard::Clipboard::set_text ](
    cb: &mut arboard::Clipboard,
    text: String,
) -> Result<(), arboard::Error>;

/// Relies on arboard::Clipboard::get_text: the clipboard's text, or why there is none.
pub assume_specification[ arboard::Clipboard::get_text ](cb: &mut arboard::Clipboard) -> Result<
    String,
    arboard::Error,
>;

/// Relies on arboard::Clipboard::set_image: places RGBA pixels of the given size on the
/// clipboard, or reports why not.
#[verifier::external_body]
fn set_platform_image(
    cb: &mut arboard::Clipboard,
    width: usize,
    height: usize,
    bytes: Vec<u8>,
) -> Result<(), arboard::Error> {
    cb.set_image(arboard::ImageData { width, height, bytes: Cow::Owned(bytes) })
}

/// Relies on arboard::Clipboard::get_image: the clipboard's image as width, height and
/// RGBA pixels, or why there is none.
#[verifier::external_body]
fn get_platform_image(cb: &mut arboard::Clipboard) -> Result<(usize, usize, Vec<u8>), arboard::Error> {
    cb.get_image().map(|image| (image.width, image.height, image.bytes.into_owned()))
}

/// Relies on arboard::Error's variants: tells them apart, moving the description of an
/// unknown error.
#[verifier::external_body]
fn platform_failure(e: arboard::Error) -> ClipboardFailure {
    match e {
        arboard::Error::ContentNotAvailable => ClipboardFailure::ContentNotAvailable,
        arboard::Error::ClipboardNotSupported => ClipboardFailure::ClipboardNotSupported,
        arboard::Error::ClipboardOccupied => ClipboardFailure::ClipboardOccupied,
        arboard::Error::ConversionFailure => ClipboardFailure::ConversionFailure,
        arboard::Error::Unknown { description } => ClipboardFailure::Unknown { description },
    }
}

/// Relies on arboard::Error's `Display`: a short description of the failure.
#[verifier::external_body]
fn platform_failure_text(e: &arboard::Error) -> String {
    e.to_string()
}

/// The error a failed paste becomes: a clipboard without content of the kind asked for
/// gives `missing`, any other failure its own error.
pub open spec fn paste_error(f: ClipboardFailure, missing: ClipboardError) -> ClipboardError {
    match f {
        ClipboardFailure::ContentNotAvailable => missing,
        _ => error_of_failure(f),
    }
}

fn paste_failure(f: ClipboardFailure, missing: ClipboardError) -> (r: ClipboardError)
    ensures
        r == paste_error(f, missing),
{
    match f {
        ClipboardFailure::ContentNotAvailable => missing,
        _ => ClipboardError::from(f),
    }
}

/// An RGBA image: four bytes per pixel, rows from the top.
pub struct ClipboardImage {
    width: usize,
    height: usize,
    bytes: Vec<u8>,
}

impl ClipboardImage {
    #[verifier::type_invariant]
    spec fn sized(self) -> bool {
        self.bytes@.len() == self.width * self.height * 4
    }

    /// The width in pixels.
    pub closed spec fn spec_width(&self) -> nat {
        self.width as nat
    }

    /// The height in pixels.
    pub closed spec fn spec_height(&self) -> nat {
        self.height as nat
    }

    /// The pixel bytes.
    pub closed spec fn spec_bytes(&self) -> Seq<u8> {
        self.bytes@
    }

    /// An image of the given size from its pixel bytes; none unless there are exactly
    /// four bytes for each pixel.
    pub fn new(width: usize, height: usize, bytes: Vec<u8>) -> (r: Option<ClipboardImage>)
        ensures
            r is Some <==> bytes@.len() == width * height * 4,
            r matches Some(image) ==> image.spec_width() == width && image.spec_height() == height
                && image.spec_bytes() == bytes@,
    {
        let len = bytes.len();
        match width.checked_mul(height) {
            Some(pixels) => match pixels.checked_mul(4) {
                Some(n) => {
                    if n == len {
                        Some(ClipboardImage { width, height, bytes })
                    } else {
                        None
                    }
                },
                None => {
                    assert(width * height * 4 > usize::MAX) by (nonlinear_arith)
                        requires pixels == width * height, pixels * 4 > usize::MAX;
                    None
                },
            },
            None => {
                assert(width * height * 4 > usize::MAX) by (nonlinear_arith)
                    requires width * height > usize::MAX;
                None
            },
        }
    }

    /// The width in pixels.
    pub fn width(&self) -> (r: usize)
        ensures
            r == self.spec_width(),
    {
        self.width
    }

    /// The height in pixels.
    pub fn height(&self) -> (r: usize)
        ensures
            r == self.spec_height(),
    {
        self.height
    }

    /// The pixel bytes.
    pub fn bytes(&self) -> (r: &Vec<u8>)
        ensures
            r@ == self.spec_bytes(),
            r@.len() == self.spec_width() * self.spec_height() * 4,
    {
        proof {
            use_type_invariant(self);
        }
        &self.bytes
    }
}

/// The clipboard, opened once a window exists; until then every operation fails.
pub struct ClipboardHandle {
    platform: Option<arboard::Clipboard>,
}

impl ClipboardHandle {
    /// Whether the platform clipboard has been opened.
    pub closed spec fn initialized(&self) -> bool {
        self.platform is Some
    }

    /// A clipboard that is not opened yet.
    pub fn uninitialized() -> (r: ClipboardHandle)
        ensures
            !r.initialized(),
    {
        ClipboardHandle { platform: None }
    }

    /// Whether the platform clipboard has been opened.
    pub fn is_initialized(&self) -> (r: bool)
        ensures
            r == self.initialized(),
    {
        self.platform.is_some()
    }
}

/// Opens the platform clipboard. Where that fails the clipboard is left as it was and
/// the platform's failure is returned.
pub fn init(clipboard: &mut ClipboardHandle) -> (r: Result<(), ClipboardError>)
    ensures
        r is Ok ==> final(clipboard).initialized(),
        r is Err ==> final(clipboard).initialized() == old(clipboard).initialized(),
        r matches Err(e) ==> exists|f: ClipboardFailure| e == error_of_failure(f),
{
    match open_platform_clipboard() {
        Ok(platform) => {
            clipboard.platform = Some(platform);
            Ok(())
        },
        Err(e) => {
            let f = platform_failure(e);
            let ghost g = f;
            let e = ClipboardError::from(f);
            assert(e == error_of_failure(g));
            Err(e)
        },
    }
}

/// Copies the provided string into the clipboard.
pub fn copy_string(clipboard: &mut ClipboardHandle, string: String) -> (r: Result<(), ClipboardError>)
    ensures
        final(clipboard).initialized() == old(clipboard).initialized(),
        !old(clipboard).initialized() ==> r == Err::<(), ClipboardError>(ClipboardError::Uninitialized),
        old(clipboard).initialized() ==> r is Ok || r matches Err(ClipboardError::SaveFailed { .. }),
{
    match &mut clipboard.platform {
        Some(platform) => match platform.set_text(string) {
            Ok(()) => Ok(()),
            Err(e) => Err(ClipboardError::SaveFailed { error: platform_failure_text(&e) }),
        },
        None => Err(ClipboardError::Uninitialized),
    }
}

/// Copies the provided image into the clipboard.
pub fn copy_image(clipboard: &mut ClipboardHandle, image: ClipboardImage) -> (r: Result<(), ClipboardError>)
    ensures
        final(clipboard).initialized() == old(clipboard).initialized(),
        !old(clipboard).initialized() ==> r == Err::<(), ClipboardError>(ClipboardError::Uninitialized),
        old(clipboard).initialized() ==> r is Ok || r matches Err(ClipboardError::SaveFailed { .. }),
{
    match &mut clipboard.platform {
        Some(platform) => {
            let ClipboardImage { width, height, bytes } = image;
            match set_platform_image(platform, width, height, bytes) {
                Ok(()) => Ok(()),
                Err(e) => Err(ClipboardError::SaveFailed { error: platform_failure_text(&e) }),
            }
        },
        None => Err(ClipboardError::Uninitialized),
    }
}

/// Pastes the text the clipboard holds.
pub fn paste_string(clipboard: &mut ClipboardHandle) -> (r: Result<String, ClipboardError>)
    ensures
        final(clipboard).initialized() == old(clipboard).initialized(),
        !old(clipboard).initialized() ==> r == Err::<String, ClipboardError>(
            ClipboardError::Uninitialized,
        ),
        old(clipboard).initialized() ==> r is Ok || exists|f: ClipboardFailure|
            r == Err::<String, ClipboardError>(paste_error(f, ClipboardError::DoesNotContainText)),
{
    match &mut clipboard.platform {
        Some(platform) => match platform.get_text() {
            Ok(text) => Ok(text),
            Err(e) => {
                let f = platform_failure(e);
                let ghost g = f;
                let e = paste_failure(f, ClipboardError::DoesNotContainText);
                assert(e == paste_error(g, ClipboardError::DoesNotContainText));
                Err(e)
            },
        },
        None => Err(ClipboardError::Uninitialized),
    }
}

/// Pastes the image the clipboard holds. An image whose pixel data does not match its
/// size is refused as a failed conversion.
pub fn paste_image(clipboard: &mut ClipboardHandle) -> (r: Result<ClipboardImage, ClipboardError>)
    ensures
        final(clipboard).initialized() == old(clipboard).initialized(),
        !old(clipboard).initialized() ==> r == Err::<ClipboardImage, ClipboardError>(
            ClipboardError::Uninitialized,
        ),
        old(clipboard).initialized() ==> r is Ok || exists|f: ClipboardFailure|
            r == Err::<ClipboardImage, ClipboardError>(
                paste_error(f, ClipboardError::DoesNotContainAnImage),
            ),
{
    match &mut clipboard.platform {
        Some(platform) => match get_platform_image(platform) {
            Ok((width, height, bytes)) => match ClipboardImage::new(width, height, bytes) {
                Some(image) => Ok(image),
                None => {
                    let r = Err(ClipboardError::ConversionFailed);
                    assert(r == Err::<ClipboardImage, ClipboardError>(
                        paste_error(ClipboardFailure::ConversionFailure, ClipboardError::DoesNotContainAnImage),
                    ));
                    r
                },
            },
            Err(e) => {
                let f = platform_failure(e);
                let ghost g = f;
                let e = paste_failure(f, ClipboardError::DoesNotContainAnImage);
                assert(e == paste_error(g, ClipboardError::DoesNotContainAnImage));
                Err(e)
            },
        },
        None => Err(ClipboardError::Uninitialized),
    }
}

} // verus!
