//! What the ingestor decides before and after the decoders run: which
//! decoder a file goes to, and how the bytes of a decoded sensor image
//! become sixteen-bit samples.

use vstd::prelude::*;
use vstd::arithmetic::div_mod::*;
use vstd::string::StringSliceAdditionalSpecFns;
use crate::error::DecodeError;

verus! {

/// The raster formats that are decoded without the native RAW decoder.
#[derive(Clone, Copy, Debug, PartialEq, Eq, Structural)]
pub enum RasterFormat {
    Png,
    Jpeg,
    Bmp,
    Gif,
    Tiff,
}

/// The decoder a source file goes to.
#[derive(Clone, Copy, Debug, PartialEq, Eq, Structural)]
pub enum SourceKind {
    /// A camera sensor format, for the native RAW decoder.
    Raw,
    /// A standard raster format.
    Raster(RasterFormat),
}

/// The order of the two bytes of a sixteen-bit sample.
#[derive(Clone, Copy, Debug, PartialEq, Eq, Structural)]
pub enum ByteOrder {
    /// Low byte first.
    Little,
    /// High byte first.
    Big,
}

/// `b` with an ASCII capital letter turned into its small letter.
pub open spec fn ascii_lowercase(b: u8) -> u8 {
    if 0x41 <= b <= 0x5a {
        (b + 0x20) as u8
    } else {
        b
    }
}

/// Whether `text` ends with `suffix` once its ASCII capitals are lowered.
/// `suffix` is compared as it is, so it is written in small letters.
pub open spec fn ends_with_ignoring_ascii_case(text: Seq<u8>, suffix: Seq<u8>) -> bool {
    &&& suffix.len() <= text.len()
    &&& forall|i: int|
        0 <= i < suffix.len() ==> #[trigger] suffix[i] == ascii_lowercase(
            text[text.len() - suffix.len() + i],
        )
}

/// Whether `text` is `name` once its ASCII capitals are lowered.
pub open spec fn same_ignoring_ascii_case(text: Seq<u8>, name: Seq<u8>) -> bool {
    text.len() == name.len() && ends_with_ignoring_ascii_case(text, name)
}

/// Whether the UTF-8 bytes of `path` end with those of `suffix`, ASCII case
/// of `path` aside.
pub open spec fn has_suffix(path: &str, suffix: &str) -> bool {
    ends_with_ignoring_ascii_case(path.spec_bytes(), suffix.spec_bytes())
}

/// Whether `path` ends with the extension of a camera RAW format.
pub open spec fn names_raw_file(path: &str) -> bool {
    ||| has_suffix(path, ".dng")
    ||| has_suffix(path, ".cr2")
    ||| has_suffix(path, ".nef")
    ||| has_suffix(path, ".arw")
    ||| has_suffix(path, ".raf")
    ||| has_suffix(path, ".orf")
    ||| has_suffix(path, ".cr3")
}

/// The raster format that the extension of `path` names, if it names one.
pub open spec fn raster_format_of(path: &str) -> Option<RasterFormat> {
    if has_suffix(path, ".png") {
        Some(RasterFormat::Png)
    } else if has_suffix(path, ".jpg") || has_suffix(path, ".jpeg") {
        Some(RasterFormat::Jpeg)
    } else if has_suffix(path, ".bmp") {
        Some(RasterFormat::Bmp)
    } else if has_suffix(path, ".gif") {
        Some(RasterFormat::Gif)
    } else if has_suffix(path, ".tiff") || has_suffix(path, ".tif") {
        Some(RasterFormat::Tiff)
    } else {
        None
    }
}

/// The decoder for `path`, or the refusal of its extension.
pub open spec fn source_kind_of(path: &str) -> Result<SourceKind, DecodeError> {
    if names_raw_file(path) {
        Ok(SourceKind::Raw)
    } else {
        match raster_format_of(path) {
            Some(format) => Ok(SourceKind::Raster(format)),
            None => Err(DecodeError::UnsupportedFormat),
        }
    }
}

/// Whether `extension`, written without its dot, is one that the file
/// picker offers.
pub open spec fn names_supported_extension(extension: &str) -> bool {
    let e = extension.spec_bytes();
    ||| same_ignoring_ascii_case(e, "png".spec_bytes())
    ||| same_ignoring_ascii_case(e, "jpg".spec_bytes())
    ||| same_ignoring_ascii_case(e, "jpeg".spec_bytes())
    ||| same_ignoring_ascii_case(e, "bmp".spec_bytes())
    ||| same_ignoring_ascii_case(e, "gif".spec_bytes())
    ||| same_ignoring_ascii_case(e, "tiff".spec_bytes())
    ||| same_ignoring_ascii_case(e, "tif".spec_bytes())
    ||| same_ignoring_ascii_case(e, "arw".spec_bytes())
    ||| same_ignoring_ascii_case(e, "cr2".spec_bytes())
    ||| same_ignoring_ascii_case(e, "nef".spec_bytes())
    ||| same_ignoring_ascii_case(e, "dng".spec_bytes())
    ||| same_ignoring_ascii_case(e, "raf".spec_bytes())
    ||| same_ignoring_ascii_case(e, "orf".spec_bytes())
    ||| same_ignoring_ascii_case(e, "cr3".spec_bytes())
}

/// The sixteen-bit sample whose bytes are `first` and `second`, in that
/// order in memory.
pub open spec fn sample_of(first: u8, second: u8, order: ByteOrder) -> u16 {
    match order {
        ByteOrder::Little => (first + 256 * second) as u16,
        ByteOrder::Big => (256 * first + second) as u16,
    }
}

/// The pixels of an interleaved sixteen-bit image: one for every whole group
/// of six bytes, two bytes each for red, green and blue. Bytes after the last
/// whole group belong to no pixel.
pub open spec fn raw_pixels(data: Seq<u8>, order: ByteOrder) -> Seq<(u16, u16, u16)> {
    Seq::new(
        (data.len() / 6) as nat,
        |i: int|
            (
                sample_of(data[6 * i], data[6 * i + 1], order),
                sample_of(data[6 * i + 2], data[6 * i + 3], order),
                sample_of(data[6 * i + 4], data[6 * i + 5], order),
            ),
    )
}

/// What a suffix of this module is known to hold once its literal is
/// revealed: its bytes are its characters.
proof fn lemma_literal_bytes(literal: &str)
    requires
        vstd::string::is_ascii(literal),
    ensures
        literal.spec_bytes() =~= Seq::new(literal@.len(), |i: int| literal@[i] as u8),
{
    vstd::string::is_ascii_spec_bytes(literal);
}

/// No path names both a camera RAW file and a raster file: the two families
/// of extensions share no member, so the order in which they are tried does
/// not matter.
pub proof fn lemma_raw_and_raster_extensions_differ(path: &str)
    ensures
        !(names_raw_file(path) && raster_format_of(path) is Some),
{
    reveal_strlit(".dng");
    reveal_strlit(".cr2");
    reveal_strlit(".nef");
    reveal_strlit(".arw");
    reveal_strlit(".raf");
    reveal_strlit(".orf");
    reveal_strlit(".cr3");
    reveal_strlit(".png");
    reveal_strlit(".jpg");
    reveal_strlit(".jpeg");
    reveal_strlit(".bmp");
    reveal_strlit(".gif");
    reveal_strlit(".tiff");
    reveal_strlit(".tif");
    lemma_literal_bytes(".dng");
    lemma_literal_bytes(".cr2");
    lemma_literal_bytes(".nef");
    lemma_literal_bytes(".arw");
    lemma_literal_bytes(".raf");
    lemma_literal_bytes(".orf");
    lemma_literal_bytes(".cr3");
    lemma_literal_bytes(".png");
    lemma_literal_bytes(".jpg");
    lemma_literal_bytes(".jpeg");
    lemma_literal_bytes(".bmp");
    lemma_literal_bytes(".gif");
    lemma_literal_bytes(".tiff");
    lemma_literal_bytes(".tif");
    let text = path.spec_bytes();
    let n = text.len() as int;
    if names_raw_file(path) && raster_format_of(path) is Some {
        // Every RAW suffix has four bytes and starts with the dot, so the
        // fourth byte from the end is a dot and the last three are letters
        // of a RAW extension.
        let raw = choose|raw: &str|
            has_suffix(path, raw) && raw.spec_bytes().len() == 4 && raw.spec_bytes()[0] == 0x2e
                && (raw == ".dng" || raw == ".cr2" || raw == ".nef" || raw == ".arw" || raw
                == ".raf" || raw == ".orf" || raw == ".cr3");
        let r = raw.spec_bytes();
        assert(r[0] == ascii_lowercase(text[n - 4 + 0]));
        assert(r[1] == ascii_lowercase(text[n - 4 + 1]));
        assert(r[2] == ascii_lowercase(text[n - 4 + 2]));
        assert(r[3] == ascii_lowercase(text[n - 4 + 3]));
        let raster = choose|raster: &str|
            has_suffix(path, raster) && (raster == ".png" || raster == ".jpg" || raster == ".jpeg"
                || raster == ".bmp" || raster == ".gif" || raster == ".tiff" || raster == ".tif");
        let s = raster.spec_bytes();
        if s.len() == 4 {
            assert(s[1] == ascii_lowercase(text[n - 4 + 1]));
            assert(s[2] == ascii_lowercase(text[n - 4 + 2]));
            assert(s[3] == ascii_lowercase(text[n - 4 + 3]));
        } else {
            assert(s[1] == ascii_lowercase(text[n - 5 + 1]));
        }
        assert(false);
    }
}

fn lowered(b: u8) -> (l: u8)
    ensures
        l == ascii_lowercase(b),
{
    if 0x41 <= b && b <= 0x5a {
        b + 0x20
    } else {
        b
    }
}

fn ends_with_lowered(text: &[u8], suffix: &[u8]) -> (found: bool)
    ensures
        found == ends_with_ignoring_ascii_case(text@, suffix@),
{
    if suffix.len() > text.len() {
        return false;
    }
    let offset: usize = text.len() - suffix.len();
    let mut i: usize = 0;
    while i < suffix.len()
        invariant
            offset + suffix@.len() == text@.len() <= usize::MAX,
            i <= suffix@.len(),
            forall|j: int| 0 <= j < i ==> #[trigger] suffix@[j] == ascii_lowercase(text@[offset + j]),
        decreases suffix@.len() - i,
    {
        if lowered(text[offset + i]) != suffix[i] {
            assert(suffix@[i as int] != ascii_lowercase(
                text@[text@.len() - suffix@.len() + i as int],
            ));
            return false;
        }
        i = i + 1;
    }
    true
}

fn path_has_suffix(path: &str, suffix: &str) -> (found: bool)
    ensures
        found == has_suffix(path, suffix),
{
    ends_with_lowered(path.as_bytes(), suffix.as_bytes())
}

fn extension_is(extension: &str, name: &str) -> (same: bool)
    ensures
        same == same_ignoring_ascii_case(extension.spec_bytes(), name.spec_bytes()),
{
    let e = extension.as_bytes();
    let n = name.as_bytes();
    e.len() == n.len() && ends_with_lowered(e, n)
}

/// Whether `path` goes to the native RAW decoder: it ends, capitals aside,
/// with one of `.dng .cr2 .nef .arw .raf .orf .cr3`.
pub fn is_raw_path(path: &str) -> (raw: bool)
    ensures
        raw == names_raw_file(path),
{
    path_has_suffix(path, ".dng") || path_has_suffix(path, ".cr2") || path_has_suffix(path, ".nef")
        || path_has_suffix(path, ".arw") || path_has_suffix(path, ".raf") || path_has_suffix(
        path,
        ".orf",
    ) || path_has_suffix(path, ".cr3")
}

/// The decoder for `path`, chosen by its extension. A path that names
/// neither a camera RAW nor a supported raster format is refused.
pub fn classify_path(path: &str) -> (kind: Result<SourceKind, DecodeError>)
    ensures
        kind == source_kind_of(path),
{
    if is_raw_path(path) {
        Ok(SourceKind::Raw)
    } else if path_has_suffix(path, ".png") {
        Ok(SourceKind::Raster(RasterFormat::Png))
    } else if path_has_suffix(path, ".jpg") || path_has_suffix(path, ".jpeg") {
        Ok(SourceKind::Raster(RasterFormat::Jpeg))
    } else if path_has_suffix(path, ".bmp") {
        Ok(SourceKind::Raster(RasterFormat::Bmp))
    } else if path_has_suffix(path, ".gif") {
        Ok(SourceKind::Raster(RasterFormat::Gif))
    } else if path_has_suffix(path, ".tiff") || path_has_suffix(path, ".tif") {
        Ok(SourceKind::Raster(RasterFormat::Tiff))
    } else {
        Err(DecodeError::UnsupportedFormat)
    }
}

/// Whether the file picker shows a file with this extension (given without
/// its dot): the raster and the RAW extensions, capitals aside.
pub fn is_supported_extension(extension: &str) -> (supported: bool)
    ensures
        supported == names_supported_extension(extension),
{
    extension_is(extension, "png") || extension_is(extension, "jpg") || extension_is(
        extension,
        "jpeg",
    ) || extension_is(extension, "bmp") || extension_is(extension, "gif") || extension_is(
        extension,
        "tiff",
    ) || extension_is(extension, "tif") || extension_is(extension, "arw") || extension_is(
        extension,
        "cr2",
    ) || extension_is(extension, "nef") || extension_is(extension, "dng") || extension_is(
        extension,
        "raf",
    ) || extension_is(extension, "orf") || extension_is(extension, "cr3")
}

/// The sample stored as the bytes `first`, `second`.
pub fn sample_from_bytes(first: u8, second: u8, order: ByteOrder) -> (sample: u16)
    ensures
        sample == sample_of(first, second, order),
{
    match order {
        ByteOrder::Little => first as u16 + 256 * (second as u16),
        ByteOrder::Big => 256 * (first as u16) + second as u16,
    }
}

/// The pixels of the memory image that the native decoder hands out:
/// interleaved red, green, blue, sixteen bits each, in the byte order
/// `order`. Samples are returned as stored; normalizing is left to the
/// caller.
pub fn pixels_from_raw_bytes(data: &[u8], order: ByteOrder) -> (pixels: Vec<(u16, u16, u16)>)
    ensures
        pixels@ == raw_pixels(data@, order),
        pixels@.len() == data@.len() / 6,
{
    let count: usize = data.len() / 6;
    let mut pixels: Vec<(u16, u16, u16)> = Vec::new();
    let mut i: usize = 0;
    while i < count
        invariant
            count == data@.len() / 6,
            data@.len() <= usize::MAX,
            i <= count,
            pixels@.len() == i,
            forall|j: int| 0 <= j < i ==> #[trigger] pixels@[j] == raw_pixels(data@, order)[j],
        decreases count - i,
    {
        assert(6 * i + 5 < data@.len()) by {
            lemma_fundamental_div_mod(data@.len() as int, 6);
        }
        let at: usize = 6 * i;
        let r: u16 = sample_from_bytes(data[at], data[at + 1], order);
        let g: u16 = sample_from_bytes(data[at + 2], data[at + 3], order);
        let b: u16 = sample_from_bytes(data[at + 4], data[at + 5], order);
        pixels.push((r, g, b));
        i = i + 1;
    }
    assert(pixels@ =~= raw_pixels(data@, order));
    pixels
}

} // verus!
