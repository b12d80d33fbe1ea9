use vstd::prelude::*;

verus! {

/// What `image` makes of `bytes` when the format is named by `extension`:
/// the RGBA8 pixel buffer with the width and height, or the error's text.
pub uninterp spec fn decoded_image(bytes: Seq<u8>, extension: Seq<char>) -> Result<(Seq<u8>, u32, u32), Seq<char>>;

/// `c` with an ASCII capital made small, as `str::to_ascii_lowercase` does.
pub open spec fn ascii_lower_char(c: char) -> char {
    if 65 <= (c as u32) && (c as u32) <= 90 { ((c as u32) + 32) as char } else { c }
}

/// `s` with its ASCII capitals made small.
pub open spec fn ascii_lower(s: Seq<char>) -> Seq<char> {
    s.map_values(|c: char| ascii_lower_char(c))
}

/// The image format that `image::ImageFormat::from_extension` names for a
/// file extension (case does not matter), given by that format's main
/// extension; `None` where it names no format.
pub open spec fn extension_format(extension: Seq<char>) -> Option<Seq<char>> {
    let e = ascii_lower(extension);
    if e == "avif"@ {
        Some("avif"@)
    } else if e == "jpg"@ || e == "jpeg"@ || e == "jfif"@ {
        Some("jpeg"@)
    } else if e == "png"@ || e == "apng"@ {
        Some("png"@)
    } else if e == "gif"@ {
        Some("gif"@)
    } else if e == "webp"@ {
        Some("webp"@)
    } else if e == "tif"@ || e == "tiff"@ {
        Some("tiff"@)
    } else if e == "tga"@ {
        Some("tga"@)
    } else if e == "dds"@ {
        Some("dds"@)
    } else if e == "bmp"@ {
        Some("bmp"@)
    } else if e == "ico"@ {
        Some("ico"@)
    } else if e == "hdr"@ {
        Some("hdr"@)
    } else if e == "exr"@ {
        Some("exr"@)
    } else if e == "pbm"@ || e == "pam"@ || e == "ppm"@ || e == "pgm"@ || e == "pnm"@ {
        Some("pnm"@)
    } else if e == "ff"@ {
        Some("ff"@)
    } else if e == "qoi"@ {
        Some("qoi"@)
    } else {
        None
    }
}

/// An image decoded to 8-bit RGBA pixels, row after row.
pub struct LoadedImageData {
    pub rgba: Vec<u8>,
    pub width: u32,
    pub height: u32,
}

/// Why an image could not be loaded, in the words of the decoder.
pub struct ImageLoadError {
    pub message: String,
}

impl LoadedImageData {
    /// The buffer holds at least four bytes for every pixel.
    pub open spec fn covers_pixels(&self) -> bool {
        4 * (self.width as int) * (self.height as int) <= self.rgba@.len()
    }
}

/// Decodes `bytes` as `image::open` does once the file is read: the format is
/// the one `image::ImageFormat::from_extension` names for `extension`
/// (an `Unsupported` error naming the extension where it names none), read
/// through `image::ImageReader::with_format(..).decode()`, then converted by
/// `to_rgba8`. Claimed: the result is a function of the two arguments; an
/// extension that names no format (`extension_format`, the table of
/// `from_extension`) always fails, and extensions that name the same format
/// decode alike, as the decoder is picked by the format alone; and
/// the RGBA8 buffer holds exactly four bytes a pixel (the decoder allocates
/// its total byte count, width times height times bytes per pixel, and a
/// colour conversion allocates one converted pixel per pixel).
#[verifier::external_body]
fn decode_rgba8(bytes: &[u8], extension: &str) -> (r: Result<(Vec<u8>, u32, u32), String>)
    ensures
        match r {
            Ok((pixels, w, h)) => {
                &&& decoded_image(bytes@, extension@) == Ok::<(Seq<u8>, u32, u32), Seq<char>>((pixels@, w, h))
                &&& pixels@.len() == 4 * (w as int) * (h as int)
            },
            Err(message) => decoded_image(bytes@, extension@) == Err::<(Seq<u8>, u32, u32), Seq<char>>(message@),
        },
        extension_format(extension@) is None ==> r is Err,
        extension_format(extension@) matches Some(format) ==> match r {
            Ok((pixels, w, h)) => decoded_image(bytes@, format) == Ok::<(Seq<u8>, u32, u32), Seq<char>>((pixels@, w, h)),
            Err(message) => decoded_image(bytes@, format) == Err::<(Seq<u8>, u32, u32), Seq<char>>(message@),
        },
{
    let unsupported = || image::ImageError::Unsupported(
        image::error::ImageFormatHint::PathExtension(extension.into()).into(),
    );
    image::ImageFormat::from_extension(extension)
        .ok_or_else(unsupported)
        .and_then(|format| image::ImageReader::with_format(std::io::Cursor::new(bytes), format).decode())
        .map(|img| img.to_rgba8())
        .map(|rgba| { let (w, h) = rgba.dimensions(); (rgba.into_raw(), w, h) })
        .map_err(|e| e.to_string())
}

/// The text `image` gives for an image whose format cannot be determined.
pub open spec fn unknown_format_text() -> Seq<char> {
    "The image format could not be determined"@
}

/// The text of the `image::ImageError` that `image::ImageReader::decode`
/// gives when no format is known (`Unsupported`, format unknown). Claimed:
/// its `Display` writes the fixed sentence of `unknown_format_text`.
#[verifier::external_body]
fn unknown_format_message() -> (r: String)
    ensures
        r@ == unknown_format_text(),
{
    image::ImageError::Unsupported(image::error::UnsupportedError::from_format_and_kind(
        image::error::ImageFormatHint::Unknown,
        image::error::UnsupportedErrorKind::Format(image::error::ImageFormatHint::Unknown),
    )).to_string()
}

/// Turns the decoder's outcome into the library's values: the pixels with
/// their size, or the error's text.
pub fn loaded_from_decoded(decoded: Result<(Vec<u8>, u32, u32), String>) -> (r: Result<LoadedImageData, ImageLoadError>)
    ensures
        match decoded {
            Ok((pixels, w, h)) => r matches Ok(d) && d.rgba@ == pixels@ && d.width == w && d.height == h,
            Err(message) => r matches Err(e) && e.message@ == message@,
        },
{
    match decoded {
        Ok((rgba, width, height)) => Ok(LoadedImageData { rgba, width, height }),
        Err(message) => Err(ImageLoadError { message }),
    }
}

/// Decodes the contents of an image file whose name ends in `extension`
/// (`None` where the name has no extension, or an empty one). Without an
/// extension the format is unknown and loading fails with `image`'s text for
/// that; otherwise the outcome is the decoder's, with four bytes a pixel.
pub fn decode_image(bytes: &[u8], extension: Option<&str>) -> (r: Result<LoadedImageData, ImageLoadError>)
    ensures
        match extension {
            None => r matches Err(e) && e.message@ == unknown_format_text(),
            Some(ext) => match decoded_image(bytes@, ext@) {
                Ok((pixels, w, h)) => r matches Ok(d) && d.rgba@ == pixels && d.width == w && d.height == h,
                Err(message) => r matches Err(e) && e.message@ == message,
            },
        },
        r matches Ok(d) ==> d.rgba@.len() == 4 * (d.width as int) * (d.height as int),
        extension matches Some(ext) ==> (extension_format(ext@) is None ==> r is Err),
        extension matches Some(ext) ==> (extension_format(ext@) matches Some(format) ==> match decoded_image(bytes@, format) {
            Ok((pixels, w, h)) => r matches Ok(d) && d.rgba@ == pixels && d.width == w && d.height == h,
            Err(message) => r matches Err(e) && e.message@ == message,
        }),
        r matches Ok(d) ==> d.covers_pixels(),
{
    match extension {
        None => Err(ImageLoadError { message: unknown_format_message() }),
        Some(ext) => loaded_from_decoded(decode_rgba8(bytes, ext)),
    }
}

/// Case does not matter to the format an extension names.
pub proof fn lemma_extension_case_ignored(extension: Seq<char>)
    ensures
        extension_format(ascii_lower(extension)) == extension_format(extension),
{
    assert(ascii_lower(ascii_lower(extension)) =~= ascii_lower(extension));
}

/// Common spellings of the same format name it alike, whatever their case:
/// `jpg`, `jpeg` and `jfif` name JPEG, `png` and `apng` name PNG.
pub proof fn lemma_extension_aliases(extension: Seq<char>)
    ensures
        ascii_lower(extension) == "jpg"@ ==> extension_format(extension) == Some("jpeg"@),
        ascii_lower(extension) == "jfif"@ ==> extension_format(extension) == Some("jpeg"@),
        ascii_lower(extension) == "png"@ ==> extension_format(extension) == Some("png"@),
        ascii_lower(extension) == "apng"@ ==> extension_format(extension) == Some("png"@),
        ascii_lower(extension) == "jpeg"@ ==> extension_format(extension) == Some("jpeg"@),
{
    reveal_strlit("avif");
    reveal_strlit("jpg");
    reveal_strlit("jpeg");
    reveal_strlit("jfif");
    reveal_strlit("png");
    reveal_strlit("apng");
    assert("jfif"@[0] != "avif"@[0]);
    assert("png"@.len() != "avif"@.len());
    assert("png"@[0] != "jpg"@[0]);
    assert("png"@.len() != "jpeg"@.len());
    assert("png"@.len() != "jfif"@.len());
    assert("apng"@[1] != "avif"@[1]);
    assert("apng"@[0] != "jpeg"@[0]);
    assert("apng"@.len() != "jpg"@.len());
    assert("apng"@[0] != "jfif"@[0]);
}

} // verus!
