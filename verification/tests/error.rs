use film_emulator::error::{DecodeError, ExportError, ResourceError};
use film_emulator::session::Failure;

#[test]
fn every_decode_error_has_its_message() {
    assert_eq!(DecodeError::BadPath.message(), "the file could not be opened");
    assert_eq!(
        DecodeError::UnsupportedFormat.message(),
        "the file's extension names no supported format"
    );
    assert_eq!(DecodeError::DecoderFailure.message(), "the RAW decoder failed");
    assert_eq!(DecodeError::Corrupt.message(), "the file does not hold an image");
}

#[test]
fn every_resource_error_has_its_message() {
    assert_eq!(ResourceError::EmptyImage.message(), "the image has no pixels");
    assert_eq!(
        ResourceError::DimensionExceedsLimit.message(),
        "the image is larger than the device allows"
    );
    assert_eq!(ResourceError::AllocationFailed.message(), "the device is out of memory");
}

#[test]
fn every_export_error_has_its_message() {
    assert_eq!(ExportError::IOFailure.message(), "the file could not be written");
    assert_eq!(
        ExportError::ReadbackTimeout.message(),
        "the device did not hand back the image in time"
    );
}

#[test]
fn a_failure_speaks_for_its_error() {
    let load = Failure::Decode(DecodeError::Corrupt);
    assert!(load.is_load());
    assert_eq!(load.message(), DecodeError::Corrupt.message());
    let allocation = Failure::Resource(ResourceError::AllocationFailed);
    assert!(allocation.is_load());
    assert_eq!(allocation.message(), ResourceError::AllocationFailed.message());
    let export = Failure::Export(ExportError::ReadbackTimeout);
    assert!(!export.is_load());
    assert_eq!(export.message(), ExportError::ReadbackTimeout.message());
}
