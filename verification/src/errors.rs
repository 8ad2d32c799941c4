//! The adapter's error type. Failures of the native clipboard and of the
//! OS URL opener are carried as messages; a command that needs the clipboard
//! while the adapter was built without one is its own case.

use vstd::prelude::*;

verus! {

/// An error surfaced by adapter construction or by applying toolkit output
/// commands back to the platform.
#[derive(Clone, Debug, PartialEq, Eq)]
pub enum PlatformError {
    /// A clipboard command was requested but no clipboard is present.
    ClipboardUnavailable,
    /// An image-copy command's pixel buffer does not match its dimensions.
    ImageSizeMismatch,
    /// An image-copy command's dimensions are zero or too large for the
    /// clipboard's 32-bit image encoding.
    ImageDimensionsUnsupported,
    /// The native clipboard failed to initialize or to carry out a command.
    Clipboard { message: String },
    /// The OS refused to open the URL.
    UrlOpen { message: String },
}

} // verus!
