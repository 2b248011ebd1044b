//! The image as plain numbers and bytes: its dimensions, its pixels copied
//! into a buffer that the caller owns, and its PNG file.

use vstd::prelude::*;
use crate::error::SceneError;
use crate::raster::{encode_png, pixmap_bytes, pixmap_data, png_encoding};
use crate::scene::{is_reference_canvas, reference_pixels, render_scene, HEIGHT, WIDTH};

verus! {

/// The number of bytes of the reference image: four for each pixel, which
/// makes 192 rows of 768 bytes, 147456 bytes in all.
pub open spec fn image_len() -> nat {
    (4 * WIDTH * HEIGHT) as nat
}

/// Whether the image is copied into a buffer that holds `buffer`, where
/// `None` stands for a missing buffer: the buffer is there and it is long
/// enough.
pub open spec fn export_succeeds(buffer: Option<Seq<u8>>) -> bool {
    buffer matches Some(before) && before.len() >= image_len()
}

/// What a buffer that held `before` holds after `image` was copied into its
/// front.
pub open spec fn overlaid(image: Seq<u8>, before: Seq<u8>) -> Seq<u8> {
    image + before.skip(image.len() as int)
}

/// The width of the reference image in pixels.
pub fn tiny_skia_rust_reference_width() -> (width: u32)
    ensures
        width == 192,
{
    WIDTH
}

/// The height of the reference image in pixels.
pub fn tiny_skia_rust_reference_height() -> (height: u32)
    ensures
        height == 192,
{
    HEIGHT
}

/// The number of bytes from one row of the reference image to the next.
pub fn tiny_skia_rust_reference_stride() -> (stride: usize)
    ensures
        stride == 768,
{
    (WIDTH as usize) * 4
}

/// Copies the pixels of an image into the front of `buffer`, if the image has
/// the reference length and the buffer is long enough for it. Otherwise the
/// buffer is left as it was.
pub fn copy_pixels(data: &[u8], buffer: &mut [u8]) -> (copied: bool)
    ensures
        copied <==> data@.len() == image_len() && old(buffer)@.len() >= image_len(),
        final(buffer)@ == if copied {
            overlaid(data@, old(buffer)@)
        } else {
            old(buffer)@
        },
{
    let expected_len = tiny_skia_rust_reference_stride() * (HEIGHT as usize);
    if buffer.len() < expected_len || data.len() != expected_len {
        return false;
    }
    let mut i: usize = 0;
    while i < expected_len
        invariant
            i <= expected_len == image_len(),
            data@.len() == expected_len,
            buffer@.len() == old(buffer)@.len() >= expected_len,
            forall|j: int| 0 <= j < i ==> buffer@[j] == data@[j],
            forall|j: int| i <= j < buffer@.len() ==> buffer@[j] == old(buffer)@[j],
        decreases expected_len - i,
    {
        buffer[i] = data[i];
        i += 1;
    }
    assert(buffer@ =~= overlaid(data@, old(buffer)@));
    true
}

/// Renders the reference image into a buffer that the caller owns.
///
/// `None` stands for a missing buffer. Nothing is rendered for a missing
/// buffer or one shorter than the image, and a short buffer is left as it
/// was. Otherwise the image is copied into the front of the buffer, and what
/// lies behind it stays.
pub fn tiny_skia_rust_render_reference(buffer: Option<&mut [u8]>) -> (rendered: bool)
    ensures
        rendered == export_succeeds(
            match buffer {
                Some(given) => Some(given@),
                None => None,
            },
        ),
        buffer matches Some(given) ==> final(given)@.len() == given@.len(),
        buffer matches Some(given) ==> final(given)@ == if rendered {
            overlaid(reference_pixels(), given@)
        } else {
            given@
        },
{
    let buffer = match buffer {
        Some(buffer) => buffer,
        None => {
            return false;
        },
    };
    let expected_len = tiny_skia_rust_reference_stride() * (HEIGHT as usize);
    if buffer.len() < expected_len {
        return false;
    }
    let pixmap = match render_scene() {
        Ok(pixmap) => pixmap,
        Err(_) => {
            return false;
        },
    };
    copy_pixels(pixmap_data(&pixmap), buffer)
}

/// Exporting agrees with rendering: every buffer that is long enough is
/// accepted, and afterwards its first `image_len()` bytes are the bytes of
/// the rendered canvas, one for one, while its length and the bytes behind
/// the image are as before.
pub proof fn lemma_export_matches_render(canvas: tiny_skia::Pixmap, before: Seq<u8>)
    requires
        is_reference_canvas(canvas),
        before.len() >= image_len(),
    ensures
        export_succeeds(Some(before)),
        pixmap_bytes(canvas).len() == image_len(),
        overlaid(reference_pixels(), before).len() == before.len(),
        overlaid(reference_pixels(), before).take(image_len() as int) == pixmap_bytes(canvas),
        overlaid(reference_pixels(), before).skip(image_len() as int) == before.skip(
            image_len() as int,
        ),
{
    let after = overlaid(reference_pixels(), before);
    assert(after.take(image_len() as int) =~= pixmap_bytes(canvas));
    assert(after.skip(image_len() as int) =~= before.skip(image_len() as int));
}

/// What encoding the reference image as PNG comes to: the file that the
/// encoder writes for the reference pixels, or an encoding error.
pub open spec fn reference_png() -> Result<Seq<u8>, SceneError> {
    match png_encoding((WIDTH, HEIGHT), reference_pixels()) {
        Some(file) => Ok(file),
        None => Err(SceneError::Encoding),
    }
}

/// Turns what the PNG encoder returned into the file or an encoding error.
pub fn png_or_error(encoded: Result<Vec<u8>, png::EncodingError>) -> (file: Result<
    Vec<u8>,
    SceneError,
>)
    ensures
        match encoded {
            Ok(bytes) => file == Ok::<Vec<u8>, SceneError>(bytes),
            Err(_) => file == Err::<Vec<u8>, SceneError>(SceneError::Encoding),
        },
{
    match encoded {
        Ok(bytes) => Ok(bytes),
        Err(_) => Err(SceneError::Encoding),
    }
}

/// Renders the reference image and encodes it as a PNG file.
pub fn encode_reference_png() -> (file: Result<Vec<u8>, SceneError>)
    ensures
        match file {
            Ok(bytes) => reference_png() == Ok::<Seq<u8>, SceneError>(bytes@),
            Err(error) => reference_png() == Err::<Seq<u8>, SceneError>(error),
        },
{
    let pixmap = match render_scene() {
        Ok(pixmap) => pixmap,
        Err(error) => {
            return Err(error);
        },
    };
    png_or_error(encode_png(&pixmap))
}

} // verus!
