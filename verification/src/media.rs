//! Media files: the extension a file is stored under, the MIME type an audio upload is sent
//! with, and the blurhash placeholder of an image.

use vstd::prelude::*;
use crate::text::{lowercase_of, push_char, push_str, str_eq, to_lowercase};

verus! {

/// The extension an image is stored under, from its format in lower case.
pub open spec fn image_extension(fmt: Seq<char>) -> Seq<char> {
    if fmt == "png"@ {
        "png"@
    } else if fmt == "jpeg"@ || fmt == "jpg"@ {
        "jpg"@
    } else if fmt == "webp"@ {
        "webp"@
    } else if fmt == "gif"@ {
        "gif"@
    } else {
        "jpg"@
    }
}

/// The extension an audio recording is stored under, from its format in lower case.
pub open spec fn audio_extension(fmt: Seq<char>) -> Seq<char> {
    if fmt == "webm"@ || fmt == "opus"@ {
        "webm"@
    } else if fmt == "mp3"@ {
        "mp3"@
    } else if fmt == "wav"@ {
        "wav"@
    } else if fmt == "m4a"@ || fmt == "aac"@ {
        "m4a"@
    } else {
        "webm"@
    }
}

/// The extension a video is stored under, from its format in lower case.
pub open spec fn video_extension(fmt: Seq<char>) -> Seq<char> {
    if fmt == "mp4"@ {
        "mp4"@
    } else if fmt == "webm"@ {
        "webm"@
    } else if fmt == "mov"@ {
        "mov"@
    } else {
        "mp4"@
    }
}

/// The extension a media file is stored under: by media type, then by the format (in any
/// case) where one is given; `bin` for an unknown media type.
pub open spec fn file_extension_for(media_type: Seq<char>, format: Option<Seq<char>>) -> Seq<char> {
    if media_type == "image"@ {
        match format {
            Some(f) => image_extension(lowercase_of(f)),
            None => "jpg"@,
        }
    } else if media_type == "audio"@ {
        match format {
            Some(f) => audio_extension(lowercase_of(f)),
            None => "webm"@,
        }
    } else if media_type == "video"@ {
        match format {
            Some(f) => video_extension(lowercase_of(f)),
            None => "mp4"@,
        }
    } else {
        "bin"@
    }
}

fn image_extension_of(fmt: &str) -> (r: &'static str)
    ensures
        r@ == image_extension(fmt@),
{
    if str_eq(fmt, "png") {
        "png"
    } else if str_eq(fmt, "jpeg") || str_eq(fmt, "jpg") {
        "jpg"
    } else if str_eq(fmt, "webp") {
        "webp"
    } else if str_eq(fmt, "gif") {
        "gif"
    } else {
        "jpg"
    }
}

fn audio_extension_of(fmt: &str) -> (r: &'static str)
    ensures
        r@ == audio_extension(fmt@),
{
    if str_eq(fmt, "webm") || str_eq(fmt, "opus") {
        "webm"
    } else if str_eq(fmt, "mp3") {
        "mp3"
    } else if str_eq(fmt, "wav") {
        "wav"
    } else if str_eq(fmt, "m4a") || str_eq(fmt, "aac") {
        "m4a"
    } else {
        "webm"
    }
}

fn video_extension_of(fmt: &str) -> (r: &'static str)
    ensures
        r@ == video_extension(fmt@),
{
    if str_eq(fmt, "mp4") {
        "mp4"
    } else if str_eq(fmt, "webm") {
        "webm"
    } else if str_eq(fmt, "mov") {
        "mov"
    } else {
        "mp4"
    }
}

/// The extension a media file is stored under (`"image"` with `"PNG"` gives `png`).
pub fn get_file_extension(media_type: &str, format: Option<&str>) -> (r: String)
    ensures
        r@ == file_extension_for(media_type@, match format { Some(f) => Some(f@), None => None }),
{
    let ext: &str = if str_eq(media_type, "image") {
        match format {
            Some(f) => {
                let l = to_lowercase(f);
                image_extension_of(l.as_str())
            },
            None => "jpg",
        }
    } else if str_eq(media_type, "audio") {
        match format {
            Some(f) => {
                let l = to_lowercase(f);
                audio_extension_of(l.as_str())
            },
            None => "webm",
        }
    } else if str_eq(media_type, "video") {
        match format {
            Some(f) => {
                let l = to_lowercase(f);
                video_extension_of(l.as_str())
            },
            None => "mp4",
        }
    } else {
        "bin"
    };
    crate::text::owned(ext)
}

/// The MIME type an audio upload is sent with, from its format in lower case.
pub open spec fn audio_mime_type(fmt: Seq<char>) -> Seq<char> {
    if fmt == "mp3"@ {
        "audio/mpeg"@
    } else if fmt == "wav"@ {
        "audio/wav"@
    } else if fmt == "webm"@ {
        "audio/webm"@
    } else if fmt == "m4a"@ {
        "audio/mp4"@
    } else {
        "audio/mpeg"@
    }
}

/// The MIME type an audio upload is sent with, from its format in any case; `audio/mpeg` for
/// an unknown format.
pub fn get_mime_type(format: &str) -> (r: &'static str)
    ensures
        r@ == audio_mime_type(lowercase_of(format@)),
{
    let l = to_lowercase(format);
    let l = l.as_str();
    if str_eq(l, "mp3") {
        "audio/mpeg"
    } else if str_eq(l, "wav") {
        "audio/wav"
    } else if str_eq(l, "webm") {
        "audio/webm"
    } else if str_eq(l, "m4a") {
        "audio/mp4"
    } else {
        "audio/mpeg"
    }
}

/// The name a media file is stored under: its id, a dot, and its extension.
pub fn media_file_name(media_id: &str, extension: &str) -> (r: String)
    ensures
        r@ == media_id@ + seq!['.'] + extension@,
{
    let mut r = String::new();
    push_str(&mut r, media_id);
    push_char(&mut r, '.');
    push_str(&mut r, extension);
    assert(Seq::<char>::empty() + media_id@ =~= media_id@);
    r
}

/// What `image::load_from_memory` followed by `to_rgba8` makes of some bytes: the width, the
/// height and the RGBA pixels row by row, or `None` when the bytes are not an image of a
/// supported format.
pub uninterp spec fn decoded_rgba(bytes: Seq<u8>) -> Option<(u32, u32, Seq<u8>)>;

/// `image::load_from_memory` followed by `to_rgba8`. Its result is `decoded_rgba` of the bytes;
/// the pixel buffer of an RGBA image holds four bytes per pixel.
#[verifier::external_body]
fn decode_rgba(bytes: &[u8]) -> (r: Option<(u32, u32, Vec<u8>)>)
    ensures
        match decoded_rgba(bytes@) {
            Some((w, h, px)) => (r matches Some((rw, rh, rpx)) && rw == w && rh == h && rpx@ == px),
            None => r is None,
        },
        r matches Some((w, h, px)) ==> px@.len() == 4 * w * h,
{
    match image::load_from_memory(bytes) {
        Ok(img) => {
            let rgba = img.to_rgba8();
            let (width, height) = rgba.dimensions();
            Some((width, height, rgba.into_raw()))
        },
        Err(_) => None,
    }
}

/// The 83 characters of a blurhash, in the order of the digits they stand for.
pub open spec fn base83_alphabet() -> Seq<char> {
    "0123456789ABCDEFGHIJKLMNOPQRSTUVWXYZabcdefghijklmnopqrstuvwxyz#$%*+,-.:;=?@[]^_{|}~"@
}

/// `blurhash::encode` with `components_x` by `components_y` components. The crate panics
/// outside 1 to 9 components and reads four bytes per pixel, computing pixel offsets in `u32`.
/// The hash is one base-83 digit for the component counts, one for the maximum value, four for
/// the average colour and two for each other component. Which digits follow the first depends
/// on floating-point cosines, which the platform computes; they are not stated.
#[verifier::external_body]
fn blurhash_encode(components_x: u32, components_y: u32, width: u32, height: u32, rgba: &[u8]) -> (r: String)
    requires
        1 <= components_x <= 9,
        1 <= components_y <= 9,
        rgba@.len() == 4 * width * height,
        4 * width * height <= u32::MAX,
        4 * width <= u32::MAX,
    ensures
        r@.len() == 6 + 2 * (components_x * components_y - 1),
        r@[0] == base83_alphabet()[(components_x - 1) + (components_y - 1) * 9],
        forall|i: int| 0 <= i < r@.len() ==> base83_alphabet().contains(#[trigger] r@[i]),
{
    blurhash::encode(components_x, components_y, width, height, rgba)
}

/// Whether an image of this size is hashed: its pixel offsets must fit in 32 bits.
pub open spec fn hashable_size(width: u32, height: u32) -> bool {
    width * height <= 0x3fff_ffff && width <= 0x3fff_ffff
}

/// What a blurhash of 4 by 3 components looks like: 28 base-83 digits, the first `L`.
pub open spec fn blurhash_shaped(h: Seq<char>) -> bool {
    &&& h.len() == 28
    &&& h[0] == 'L'
    &&& forall|i: int| 0 <= i < h.len() ==> base83_alphabet().contains(#[trigger] h[i])
}

/// The blurhash placeholder, with 4 by 3 components, of decoded RGBA pixels: `None` when the
/// image is too large for 32-bit pixel offsets.
pub fn blurhash_of_rgba(width: u32, height: u32, pixels: &[u8]) -> (r: Option<String>)
    requires
        pixels@.len() == 4 * width * height,
    ensures
        r is Some <==> hashable_size(width, height),
        r matches Some(h) ==> blurhash_shaped(h@),
{
    let w: u64 = width as u64;
    let h: u64 = height as u64;
    assert(w * h <= 0xffff_ffff * 0xffff_ffff) by (nonlinear_arith)
        requires
            w <= 0xffff_ffff,
            h <= 0xffff_ffff,
    ;
    if w * h > 0x3fff_ffff || w > 0x3fff_ffff {
        None
    } else {
        assert(4 * width * height <= u32::MAX) by (nonlinear_arith)
            requires
                w * h <= 0x3fff_ffff,
                w == width,
                h == height,
        ;
        let hash = blurhash_encode(4, 3, width, height, pixels);
        proof {
            reveal_strlit("0123456789ABCDEFGHIJKLMNOPQRSTUVWXYZabcdefghijklmnopqrstuvwxyz#$%*+,-.:;=?@[]^_{|}~");
        }
        Some(hash)
    }
}

/// The blurhash placeholder of an image, with 4 by 3 components. `None` when the bytes are not
/// an image or the image is too large for 32-bit pixel offsets.
pub fn generate_blurhash(image_data: &[u8]) -> (r: Option<String>)
    ensures
        r is Some <==> (decoded_rgba(image_data@) matches Some((w, h, _)) && hashable_size(w, h)),
        r matches Some(h) ==> blurhash_shaped(h@),
{
    match decode_rgba(image_data) {
        Some((width, height, pixels)) => blurhash_of_rgba(width, height, pixels.as_slice()),
        None => None,
    }
}

} // verus!
