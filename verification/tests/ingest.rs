use film_emulator::error::DecodeError;
use film_emulator::ingest::{
    classify_path, is_raw_path, is_supported_extension, pixels_from_raw_bytes, sample_from_bytes,
    ByteOrder, RasterFormat, SourceKind,
};

#[test]
fn raw_extensions_go_to_the_raw_decoder() {
    for path in [
        "a.dng", "a.cr2", "a.nef", "a.arw", "a.raf", "a.orf", "a.cr3", "images/DSC00495.ARW",
        "C:\\photos\\x.Nef", "shot.CR3", ".dng",
    ] {
        assert!(is_raw_path(path), "{}", path);
        assert_eq!(classify_path(path), Ok(SourceKind::Raw), "{}", path);
    }
}

#[test]
fn raster_extensions_name_their_format() {
    assert_eq!(classify_path("a.png"), Ok(SourceKind::Raster(RasterFormat::Png)));
    assert_eq!(classify_path("a.PNG"), Ok(SourceKind::Raster(RasterFormat::Png)));
    assert_eq!(classify_path("a.jpg"), Ok(SourceKind::Raster(RasterFormat::Jpeg)));
    assert_eq!(classify_path("a.JpEg"), Ok(SourceKind::Raster(RasterFormat::Jpeg)));
    assert_eq!(classify_path("a.bmp"), Ok(SourceKind::Raster(RasterFormat::Bmp)));
    assert_eq!(classify_path("a.gif"), Ok(SourceKind::Raster(RasterFormat::Gif)));
    assert_eq!(classify_path("a.tiff"), Ok(SourceKind::Raster(RasterFormat::Tiff)));
    assert_eq!(classify_path("a.tif"), Ok(SourceKind::Raster(RasterFormat::Tiff)));
    assert_eq!(classify_path("dir.dng/a.png"), Ok(SourceKind::Raster(RasterFormat::Png)));
}

#[test]
fn other_paths_are_unsupported() {
    for path in ["", "a", "a.txt", "dng", "a.dng.bak", "a.pn", "png", "a.webp", "a.dngx", "a.d\u{f1}g"] {
        assert!(!is_raw_path(path), "{}", path);
        assert_eq!(classify_path(path), Err(DecodeError::UnsupportedFormat), "{}", path);
    }
}

#[test]
fn only_ascii_capitals_are_folded() {
    assert_eq!(classify_path("a.\u{ff24}ng"), Err(DecodeError::UnsupportedFormat));
    assert_eq!(classify_path("a.[NG"), Err(DecodeError::UnsupportedFormat));
    assert_eq!(classify_path("a.@rw"), Err(DecodeError::UnsupportedFormat));
    assert_eq!(classify_path("\u{e9}t\u{e9}.DNG"), Ok(SourceKind::Raw));
}

#[test]
fn classification_agrees_with_lowercasing_the_path() {
    for path in ["A.DNG", "b.Cr2", "c.jpeg", "d.TIFF", "e.doc", "f.", ".", "x.ORF", "y.RaF"] {
        let lower = path.to_lowercase();
        let raw = [".dng", ".cr2", ".nef", ".arw", ".raf", ".orf", ".cr3"]
            .iter()
            .any(|e| lower.ends_with(e));
        assert_eq!(is_raw_path(path), raw, "{}", path);
    }
}

#[test]
fn the_file_picker_offers_raster_and_raw_extensions() {
    for ext in [
        "png", "jpg", "jpeg", "bmp", "gif", "tiff", "tif", "arw", "cr2", "nef", "dng", "raf",
        "orf", "cr3", "PNG", "Jpg", "ARW", "Cr3",
    ] {
        assert!(is_supported_extension(ext), "{}", ext);
    }
    for ext in ["", "pn", "pngx", "xpng", ".png", "webp", "txt", "raw", "jpe"] {
        assert!(!is_supported_extension(ext), "{}", ext);
    }
}

#[test]
fn samples_in_both_byte_orders() {
    assert_eq!(sample_from_bytes(0x34, 0x12, ByteOrder::Little), 0x1234);
    assert_eq!(sample_from_bytes(0x34, 0x12, ByteOrder::Big), 0x3412);
    assert_eq!(sample_from_bytes(0xff, 0xff, ByteOrder::Little), 65535);
    assert_eq!(sample_from_bytes(0xff, 0xff, ByteOrder::Big), 65535);
    assert_eq!(sample_from_bytes(0, 0, ByteOrder::Little), 0);
    assert_eq!(sample_from_bytes(1, 0, ByteOrder::Little), 1);
    assert_eq!(sample_from_bytes(1, 0, ByteOrder::Big), 256);
}

#[test]
fn samples_agree_with_the_standard_library() {
    for (a, b) in [(0u8, 0u8), (1, 2), (255, 0), (0, 255), (128, 127), (0xab, 0xcd)] {
        assert_eq!(sample_from_bytes(a, b, ByteOrder::Little), u16::from_le_bytes([a, b]));
        assert_eq!(sample_from_bytes(a, b, ByteOrder::Big), u16::from_be_bytes([a, b]));
    }
}

#[test]
fn raw_bytes_become_pixels_six_at_a_time() {
    let data = [0u8, 0, 0xff, 0xff, 0x00, 0x80, 1, 0, 2, 0, 3, 0];
    assert_eq!(
        pixels_from_raw_bytes(&data, ByteOrder::Little),
        vec![(0, 65535, 0x8000), (1, 2, 3)]
    );
    assert_eq!(
        pixels_from_raw_bytes(&data, ByteOrder::Big),
        vec![(0, 65535, 0x0080), (256, 512, 768)]
    );
}

#[test]
fn trailing_raw_bytes_belong_to_no_pixel() {
    let data = [1u8, 0, 2, 0, 3, 0, 9, 9, 9, 9, 9];
    assert_eq!(pixels_from_raw_bytes(&data, ByteOrder::Little), vec![(1, 2, 3)]);
    assert_eq!(pixels_from_raw_bytes(&data[..5], ByteOrder::Little), vec![]);
    assert_eq!(pixels_from_raw_bytes(&[], ByteOrder::Big), vec![]);
}

#[test]
fn sensor_black_and_white_normalize_to_zero_and_one() {
    let data = [0u8, 0, 0, 0, 0, 0, 0xff, 0xff, 0xff, 0xff, 0xff, 0xff];
    let pixels = pixels_from_raw_bytes(&data, ByteOrder::Little);
    let normalized: Vec<[f32; 3]> = pixels
        .iter()
        .map(|&(r, g, b)| [r as f32 / 65535.0, g as f32 / 65535.0, b as f32 / 65535.0])
        .collect();
    assert_eq!(normalized, vec![[0.0, 0.0, 0.0], [1.0, 1.0, 1.0]]);
}
