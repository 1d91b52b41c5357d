//! The three families of failure: loading, allocating, exporting.

use vstd::prelude::*;

verus! {

/// Why a source file could not be turned into a linear image. Fatal to the
/// load, never to the session.
#[derive(Clone, Copy, Debug, PartialEq, Eq, Structural)]
pub enum DecodeError {
    /// The file could not be opened or read.
    BadPath,
    /// The extension names neither a camera RAW nor a supported raster format.
    UnsupportedFormat,
    /// The native RAW decoder reported a failure.
    DecoderFailure,
    /// The file was read but its contents do not form an image.
    Corrupt,
}

/// Why the device objects for an image could not be created.
#[derive(Clone, Copy, Debug, PartialEq, Eq, Structural)]
pub enum ResourceError {
    /// The image has no pixels.
    EmptyImage,
    /// A side of the image is longer than the device allows for a texture.
    DimensionExceedsLimit,
    /// The device could not provide the memory.
    AllocationFailed,
}

/// Why an export did not produce a file. The live session is not affected.
#[derive(Clone, Copy, Debug, PartialEq, Eq, Structural)]
pub enum ExportError {
    /// The destination could not be written.
    IOFailure,
    /// The staging buffer never became readable.
    ReadbackTimeout,
}

impl DecodeError {
    /// What the user is told.
    pub open spec fn description(self) -> Seq<char> {
        match self {
            DecodeError::BadPath => "the file could not be opened"@,
            DecodeError::UnsupportedFormat => "the file's extension names no supported format"@,
            DecodeError::DecoderFailure => "the RAW decoder failed"@,
            DecodeError::Corrupt => "the file does not hold an image"@,
        }
    }

    /// What to tell the user.
    pub fn message(&self) -> (text: &'static str)
        ensures
            text@ == self.description(),
    {
        match self {
            DecodeError::BadPath => "the file could not be opened",
            DecodeError::UnsupportedFormat => "the file's extension names no supported format",
            DecodeError::DecoderFailure => "the RAW decoder failed",
            DecodeError::Corrupt => "the file does not hold an image",
        }
    }
}

impl ResourceError {
    /// What the user is told.
    pub open spec fn description(self) -> Seq<char> {
        match self {
            ResourceError::EmptyImage => "the image has no pixels"@,
            ResourceError::DimensionExceedsLimit => "the image is larger than the device allows"@,
            ResourceError::AllocationFailed => "the device is out of memory"@,
        }
    }

    /// What to tell the user.
    pub fn message(&self) -> (text: &'static str)
        ensures
            text@ == self.description(),
    {
        match self {
            ResourceError::EmptyImage => "the image has no pixels",
            ResourceError::DimensionExceedsLimit => "the image is larger than the device allows",
            ResourceError::AllocationFailed => "the device is out of memory",
        }
    }
}

impl ExportError {
    /// What the user is told.
    pub open spec fn description(self) -> Seq<char> {
        match self {
            ExportError::IOFailure => "the file could not be written"@,
            ExportError::ReadbackTimeout => "the device did not hand back the image in time"@,
        }
    }

    /// What to tell the user.
    pub fn message(&self) -> (text: &'static str)
        ensures
            text@ == self.description(),
    {
        match self {
            ExportError::IOFailure => "the file could not be written",
            ExportError::ReadbackTimeout => "the device did not hand back the image in time",
        }
    }
}

} // verus!
