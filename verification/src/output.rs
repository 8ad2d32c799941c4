//! The toolkit's per-frame output, as the plain values the adapter applies
//! back to the platform: a batch of output commands and a requested cursor
//! icon, plus the pixel flattening that the image-copy command needs.

use vstd::prelude::*;

use crate::events::CursorIcon;

verus! {

/// One pixel of an image handed over for a clipboard copy.
#[derive(Clone, Copy, Debug, PartialEq, Eq, Structural)]
pub struct Rgba {
    pub r: u8,
    pub g: u8,
    pub b: u8,
    pub a: u8,
}

/// One platform command requested by the toolkit for this frame.
#[derive(Clone, Debug, PartialEq, Eq)]
pub enum OutputCommand {
    /// Copy text to the system clipboard.
    CopyText { text: String },
    /// Copy an image, given row-major with its dimensions, to the clipboard.
    CopyImage { width: usize, height: usize, pixels: Vec<Rgba> },
    /// Open a URL via the OS default handler.
    OpenUrl { url: String },
}

/// The toolkit's per-frame output, reduced to what the adapter applies.
pub struct FrameOutput {
    pub commands: Vec<OutputCommand>,
    pub cursor_icon: CursorIcon,
}

/// Whether a command can only be carried out with a clipboard present.
pub open spec fn needs_clipboard(cmd: OutputCommand) -> bool {
    cmd is CopyText || cmd is CopyImage
}

/// Whether an image-copy command's pixel buffer disagrees with its stated
/// dimensions. Such a command is rejected rather than handed to the
/// clipboard.
pub open spec fn image_size_mismatch(cmd: OutputCommand) -> bool {
    match cmd {
        OutputCommand::CopyImage { width, height, pixels } => pixels@.len() != (width as int) * (
        height as int),
        _ => false,
    }
}

/// Whether an image-copy command's dimensions fall outside what the
/// clipboard's image encoding takes: zero on either axis, or beyond the
/// 32 bits it stores a dimension in. Such a command is rejected rather than
/// handed to the clipboard.
pub open spec fn image_dims_unsupported(cmd: OutputCommand) -> bool {
    match cmd {
        OutputCommand::CopyImage { width, height, .. } => width == 0 || height == 0 || width
            > u32::MAX as usize || height > u32::MAX as usize,
        _ => false,
    }
}

/// Flatten pixels into interleaved RGBA bytes: four bytes per pixel, in
/// pixel order, each pixel's channels in the order red, green, blue, alpha.
pub fn rgba_bytes(pixels: &Vec<Rgba>) -> (v: Vec<u8>)
    ensures
        v@.len() == 4 * pixels@.len(),
        forall|i: int|
            0 <= i < pixels@.len() ==> {
                &&& v@[4 * i] == pixels@[i].r
                &&& v@[4 * i + 1] == pixels@[i].g
                &&& v@[4 * i + 2] == pixels@[i].b
                &&& v@[4 * i + 3] == pixels@[i].a
            },
{
    let mut v: Vec<u8> = Vec::new();
    let n = pixels.len();
    let mut i: usize = 0;
    while i < n
        invariant
            n == pixels@.len(),
            i <= n,
            v@.len() == 4 * i,
            forall|j: int|
                0 <= j < i ==> {
                    &&& v@[4 * j] == pixels@[j].r
                    &&& v@[4 * j + 1] == pixels@[j].g
                    &&& v@[4 * j + 2] == pixels@[j].b
                    &&& v@[4 * j + 3] == pixels@[j].a
                },
        decreases n - i,
    {
        let p = pixels[i];
        v.push(p.r);
        v.push(p.g);
        v.push(p.b);
        v.push(p.a);
        i = i + 1;
    }
    v
}

} // verus!
