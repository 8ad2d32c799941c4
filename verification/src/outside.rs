//! The adapter's calls into the platform libraries: the system clipboard and
//! the OS URL opener. Each call stands behind a trusted wrapper whose
//! contract states only what holds of every outcome; nothing specific can be
//! promised of resources the operating system owns.

use vstd::prelude::*;

use crate::errors::PlatformError;

verus! {

/// The native clipboard handle of the `arboard` crate, carried opaquely.
#[verifier::external_type_specification]
#[verifier::external_body]
pub struct ExClipboard(arboard::Clipboard);

/// Relies on `arboard::Clipboard::new`: connects to the system clipboard;
/// any failure is surfaced as a clipboard error.
#[verifier::external_body]
pub(crate) fn clipboard_new() -> (r: Result<arboard::Clipboard, PlatformError>)
    ensures
        r matches Err(e) ==> e is Clipboard,
{
    match arboard::Clipboard::new() {
        Ok(c) => Ok(c),
        Err(e) => Err(PlatformError::Clipboard { message: format!("{}", e) }),
    }
}

/// Relies on `arboard::Clipboard::get_text`: the text the system clipboard
/// holds, or nothing when it holds none or cannot be read. What comes back
/// depends on the machine's clipboard, so no more can be said of it.
#[verifier::external_body]
pub(crate) fn clipboard_get_text(cb: &mut arboard::Clipboard) -> (r: Option<String>) {
    arboard::Clipboard::get_text(cb).ok()
}

/// Relies on `arboard::Clipboard::set_text`: stores the text on the system
/// clipboard; any failure is surfaced as a clipboard error.
#[verifier::external_body]
pub(crate) fn clipboard_set_text(cb: &mut arboard::Clipboard, text: String) -> (r: Result<
    (),
    PlatformError,
>)
    ensures
        r matches Err(e) ==> e is Clipboard,
{
    match arboard::Clipboard::set_text(cb, text) {
        Ok(()) => Ok(()),
        Err(e) => Err(PlatformError::Clipboard { message: format!("{}", e) }),
    }
}

/// Relies on `arboard::Clipboard::set_image`: stores an image, given as raw
/// RGBA bytes with its dimensions, on the system clipboard; any failure is
/// surfaced as a clipboard error. The dimensions must be nonzero, fit the
/// 32 bits the backends truncate them to, and match the byte buffer at four
/// bytes per pixel: the PNG encoding that the clipboard backends run asserts
/// that length and would abort on a mismatch, and a zero-sized image has no
/// error path on every platform.
#[verifier::external_body]
pub(crate) fn clipboard_set_image(
    cb: &mut arboard::Clipboard,
    width: usize,
    height: usize,
    bytes: Vec<u8>,
) -> (r: Result<(), PlatformError>)
    requires
        bytes@.len() == 4 * width * height,
        0 < width,
        0 < height,
        width <= u32::MAX as usize,
        height <= u32::MAX as usize,
    ensures
        r matches Err(e) ==> e is Clipboard,
{
    let image = arboard::ImageData { width, height, bytes: bytes.into() };
    match arboard::Clipboard::set_image(cb, image) {
        Ok(()) => Ok(()),
        Err(e) => Err(PlatformError::Clipboard { message: format!("{}", e) }),
    }
}

/// Relies on `open::that`: asks the OS default handler to open the URL; any
/// failure is surfaced as a URL-opening error.
#[verifier::external_body]
pub(crate) fn open_url(url: &str) -> (r: Result<(), PlatformError>)
    ensures
        r matches Err(e) ==> e is UrlOpen,
{
    match open::that(url) {
        Ok(()) => Ok(()),
        Err(e) => Err(PlatformError::UrlOpen { message: format!("{}", e) }),
    }
}

} // verus!
