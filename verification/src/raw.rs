//! The order of calls into the native RAW decoder.
//!
//! The decoder is driven from outside the library, one call at a time. After
//! every call the driver reports what came back and is told what to call
//! next. The protocol checks every status, stops at the first failure, and
//! hands back the memory image and the decoder handle before it finishes,
//! whichever way the decoding went.

use vstd::prelude::*;
use crate::error::DecodeError;

verus! {

/// How the decoder is asked to develop the sensor data: linear, as
/// recorded.
#[derive(Clone, Copy, Debug, PartialEq, Eq, Structural)]
pub struct RawParameters {
    /// No gamma curve: both coefficients of the decoder's curve are one.
    pub linear_gamma: bool,
    /// No stretching of the histogram.
    pub no_auto_bright: bool,
    /// Bits of every sample of the memory image.
    pub output_bps: u8,
    /// White balance as the camera recorded it.
    pub use_camera_wb: bool,
}

/// The call to make next.
#[derive(Clone, Copy, Debug, PartialEq, Eq)]
pub enum RawCall {
    /// Create the decoder handle.
    Init,
    /// Open the file.
    OpenFile,
    /// Unpack the sensor data.
    Unpack,
    /// Set the development parameters.
    Configure(RawParameters),
    /// Demosaic and develop.
    Process,
    /// Make the interleaved memory image.
    MakeMemoryImage,
    /// Turn the bytes of the memory image into pixels.
    ReadPixels,
    /// Release the memory image.
    ClearMemoryImage,
    /// Release the decoder handle.
    Close,
    /// No call is left: the decoding ended this way.
    Finish(Result<(), DecodeError>),
}

/// What a call gave back.
#[derive(Clone, Copy, Debug, PartialEq, Eq, Structural)]
pub enum RawReply {
    /// From `Init`: whether a handle came back.
    Handle(bool),
    /// From `OpenFile`, `Unpack` and `Process`: the status, zero for success.
    Status(i32),
    /// From `MakeMemoryImage`: whether an image came back, and the error
    /// code, zero for success.
    MemoryImage(bool, i32),
    /// From `ReadPixels`: whether the bytes formed an image of the stated
    /// size.
    Pixels(bool),
    /// From `Configure`, `ClearMemoryImage` and `Close`, which report
    /// nothing.
    Done,
}

/// The call that is under way.
#[derive(Clone, Copy, Debug, PartialEq, Eq, Structural)]
pub enum RawStage {
    Initializing,
    Opening,
    Unpacking,
    Configuring,
    Processing,
    MakingImage,
    Reading,
    ClearingImage,
    Closing,
    Finished,
}

/// A decoding in progress: the call under way and the outcome so far.
#[derive(Clone, Copy, Debug, PartialEq, Eq)]
pub struct RawDecoding {
    pub stage: RawStage,
    pub outcome: Result<(), DecodeError>,
}

impl RawParameters {
    /// Linear output: no gamma curve, no automatic brightening, sixteen
    /// bits, the camera's white balance.
    pub open spec fn linear() -> RawParameters {
        RawParameters {
            linear_gamma: true,
            no_auto_bright: true,
            output_bps: 16,
            use_camera_wb: true,
        }
    }
}

impl RawStage {
    /// Whether the decoder handle is held while this call is under way.
    pub open spec fn holds_handle(self) -> bool {
        !(self is Initializing || self is Finished)
    }

    /// Whether the memory image is held while this call is under way.
    pub open spec fn holds_image(self) -> bool {
        self is Reading || self is ClearingImage
    }

    /// Calls that are still to be made at most, this one included.
    pub open spec fn calls_left(self) -> nat {
        match self {
            RawStage::Initializing => 9,
            RawStage::Opening => 8,
            RawStage::Unpacking => 7,
            RawStage::Configuring => 6,
            RawStage::Processing => 5,
            RawStage::MakingImage => 4,
            RawStage::Reading => 3,
            RawStage::ClearingImage => 2,
            RawStage::Closing => 1,
            RawStage::Finished => 0,
        }
    }

    /// The call that is made when this stage is entered.
    pub open spec fn call(self, outcome: Result<(), DecodeError>) -> RawCall {
        match self {
            RawStage::Initializing => RawCall::Init,
            RawStage::Opening => RawCall::OpenFile,
            RawStage::Unpacking => RawCall::Unpack,
            RawStage::Configuring => RawCall::Configure(RawParameters::linear()),
            RawStage::Processing => RawCall::Process,
            RawStage::MakingImage => RawCall::MakeMemoryImage,
            RawStage::Reading => RawCall::ReadPixels,
            RawStage::ClearingImage => RawCall::ClearMemoryImage,
            RawStage::Closing => RawCall::Close,
            RawStage::Finished => RawCall::Finish(outcome),
        }
    }
}

impl RawDecoding {
    /// A decoding that is about to create the decoder handle.
    pub open spec fn initial() -> RawDecoding {
        RawDecoding { stage: RawStage::Initializing, outcome: Ok(()) }
    }

    /// The same decoding, failed with `error` unless it has failed before.
    pub open spec fn failed(self, error: DecodeError) -> Result<(), DecodeError> {
        match self.outcome {
            Ok(_) => Err(error),
            Err(first) => Err(first),
        }
    }

    /// The decoding after `reply` to the call under way.
    ///
    /// A call that succeeds leads to the next call of the sequence. A call
    /// that fails, or a reply that does not belong to the call, fails the
    /// decoding and leads to the release of what is held: the memory image
    /// first, then the handle. A file that cannot be opened is a bad path,
    /// pixels that do not form an image are a corrupt file, every other
    /// failure is the decoder's.
    pub open spec fn next(self, reply: RawReply) -> RawDecoding {
        match self.stage {
            RawStage::Initializing => match reply {
                RawReply::Handle(true) => RawDecoding { stage: RawStage::Opening, ..self },
                _ => RawDecoding {
                    stage: RawStage::Finished,
                    outcome: self.failed(DecodeError::DecoderFailure),
                },
            },
            RawStage::Opening => match reply {
                RawReply::Status(0) => RawDecoding { stage: RawStage::Unpacking, ..self },
                _ => RawDecoding {
                    stage: RawStage::Closing,
                    outcome: self.failed(DecodeError::BadPath),
                },
            },
            RawStage::Unpacking => match reply {
                RawReply::Status(0) => RawDecoding { stage: RawStage::Configuring, ..self },
                _ => RawDecoding {
                    stage: RawStage::Closing,
                    outcome: self.failed(DecodeError::DecoderFailure),
                },
            },
            RawStage::Configuring => match reply {
                RawReply::Done => RawDecoding { stage: RawStage::Processing, ..self },
                _ => RawDecoding {
                    stage: RawStage::Closing,
                    outcome: self.failed(DecodeError::DecoderFailure),
                },
            },
            RawStage::Processing => match reply {
                RawReply::Status(0) => RawDecoding { stage: RawStage::MakingImage, ..self },
                _ => RawDecoding {
                    stage: RawStage::Closing,
                    outcome: self.failed(DecodeError::DecoderFailure),
                },
            },
            RawStage::MakingImage => match reply {
                RawReply::MemoryImage(true, 0) => RawDecoding { stage: RawStage::Reading, ..self },
                RawReply::MemoryImage(true, _) => RawDecoding {
                    stage: RawStage::ClearingImage,
                    outcome: self.failed(DecodeError::DecoderFailure),
                },
                _ => RawDecoding {
                    stage: RawStage::Closing,
                    outcome: self.failed(DecodeError::DecoderFailure),
                },
            },
            RawStage::Reading => match reply {
                RawReply::Pixels(true) => RawDecoding { stage: RawStage::ClearingImage, ..self },
                _ => RawDecoding {
                    stage: RawStage::ClearingImage,
                    outcome: self.failed(DecodeError::Corrupt),
                },
            },
            RawStage::ClearingImage => RawDecoding { stage: RawStage::Closing, ..self },
            RawStage::Closing => RawDecoding { stage: RawStage::Finished, ..self },
            RawStage::Finished => self,
        }
    }

    /// Whether `reply` to the call under way reports a success.
    pub open spec fn succeeds(self, reply: RawReply) -> bool {
        match self.stage {
            RawStage::Initializing => reply == RawReply::Handle(true),
            RawStage::Opening | RawStage::Unpacking | RawStage::Processing => reply
                == RawReply::Status(0),
            RawStage::Configuring => reply == RawReply::Done,
            RawStage::MakingImage => reply == RawReply::MemoryImage(true, 0),
            RawStage::Reading => reply == RawReply::Pixels(true),
            RawStage::ClearingImage | RawStage::Closing | RawStage::Finished => true,
        }
    }

    /// The decoding after the replies `replies`, one after the other.
    pub open spec fn run(self, replies: Seq<RawReply>) -> RawDecoding
        decreases replies.len(),
    {
        if replies.len() == 0 {
            self
        } else {
            self.next(replies[0]).run(replies.drop_first())
        }
    }

    /// The call to make for a new decoding, and the decoding to report its
    /// reply to.
    pub fn start() -> (begun: (RawDecoding, RawCall))
        ensures
            begun.0 == RawDecoding::initial(),
            begun.1 == RawCall::Init,
    {
        (RawDecoding { stage: RawStage::Initializing, outcome: Ok(()) }, RawCall::Init)
    }

    fn fail(self, stage: RawStage, error: DecodeError) -> (after: RawDecoding)
        ensures
            after == (RawDecoding { stage, outcome: self.failed(error) }),
    {
        match self.outcome {
            Ok(_) => RawDecoding { stage, outcome: Err(error) },
            Err(first) => RawDecoding { stage, outcome: Err(first) },
        }
    }

    fn reach(self, stage: RawStage) -> (after: RawDecoding)
        ensures
            after == (RawDecoding { stage, ..self }),
    {
        RawDecoding { stage, outcome: self.outcome }
    }

    fn call_of(self) -> (call: RawCall)
        ensures
            call == self.stage.call(self.outcome),
    {
        match self.stage {
            RawStage::Initializing => RawCall::Init,
            RawStage::Opening => RawCall::OpenFile,
            RawStage::Unpacking => RawCall::Unpack,
            RawStage::Configuring => RawCall::Configure(
                RawParameters {
                    linear_gamma: true,
                    no_auto_bright: true,
                    output_bps: 16,
                    use_camera_wb: true,
                },
            ),
            RawStage::Processing => RawCall::Process,
            RawStage::MakingImage => RawCall::MakeMemoryImage,
            RawStage::Reading => RawCall::ReadPixels,
            RawStage::ClearingImage => RawCall::ClearMemoryImage,
            RawStage::Closing => RawCall::Close,
            RawStage::Finished => RawCall::Finish(self.outcome),
        }
    }

    /// Takes in the reply to the call under way and says what to call next;
    /// see [`RawDecoding::next`]. The call is the one that belongs to the
    /// stage reached.
    pub fn advance(self, reply: RawReply) -> (after: (RawDecoding, RawCall))
        ensures
            after.0 == self.next(reply),
            after.1 == after.0.stage.call(after.0.outcome),
    {
        let next = match self.stage {
            RawStage::Initializing => match reply {
                RawReply::Handle(true) => self.reach(RawStage::Opening),
                _ => self.fail(RawStage::Finished, DecodeError::DecoderFailure),
            },
            RawStage::Opening => match reply {
                RawReply::Status(0) => self.reach(RawStage::Unpacking),
                _ => self.fail(RawStage::Closing, DecodeError::BadPath),
            },
            RawStage::Unpacking => match reply {
                RawReply::Status(0) => self.reach(RawStage::Configuring),
                _ => self.fail(RawStage::Closing, DecodeError::DecoderFailure),
            },
            RawStage::Configuring => match reply {
                RawReply::Done => self.reach(RawStage::Processing),
                _ => self.fail(RawStage::Closing, DecodeError::DecoderFailure),
            },
            RawStage::Processing => match reply {
                RawReply::Status(0) => self.reach(RawStage::MakingImage),
                _ => self.fail(RawStage::Closing, DecodeError::DecoderFailure),
            },
            RawStage::MakingImage => match reply {
                RawReply::MemoryImage(true, 0) => self.reach(RawStage::Reading),
                RawReply::MemoryImage(true, _) => self.fail(
                    RawStage::ClearingImage,
                    DecodeError::DecoderFailure,
                ),
                _ => self.fail(RawStage::Closing, DecodeError::DecoderFailure),
            },
            RawStage::Reading => match reply {
                RawReply::Pixels(true) => self.reach(RawStage::ClearingImage),
                _ => self.fail(RawStage::ClearingImage, DecodeError::Corrupt),
            },
            RawStage::ClearingImage => self.reach(RawStage::Closing),
            RawStage::Closing => self.reach(RawStage::Finished),
            RawStage::Finished => self,
        };
        (next, next.call_of())
    }
}

/// Every reply brings the decoding closer to its end: at most nine calls are
/// made, whatever they give back.
pub proof fn lemma_every_reply_progresses(decoding: RawDecoding, reply: RawReply)
    requires
        !(decoding.stage is Finished),
    ensures
        decoding.next(reply).stage.calls_left() < decoding.stage.calls_left(),
{
}

/// What is acquired is released, on every path. The handle is held from a
/// successful `Init` up to `Close`, the memory image from a
/// `MakeMemoryImage` that gave one up to `ClearMemoryImage`, and the
/// decoding does not finish while either is held. The image is released
/// before the handle.
pub proof fn lemma_resources_are_released(decoding: RawDecoding, reply: RawReply)
    ensures
        !decoding.next(reply).stage.holds_handle() && decoding.stage.holds_handle()
            ==> decoding.stage is Closing,
        !decoding.next(reply).stage.holds_image() && decoding.stage.holds_image()
            ==> decoding.stage is ClearingImage,
        decoding.next(reply).stage.holds_handle() && !decoding.stage.holds_handle()
            ==> decoding.stage is Initializing && reply == RawReply::Handle(true),
        decoding.next(reply).stage.holds_image() && !decoding.stage.holds_image()
            ==> decoding.stage is MakingImage && reply matches RawReply::MemoryImage(true, _),
        decoding.next(reply).stage is Finished ==> !decoding.stage.holds_image(),
        decoding.stage.holds_image() ==> decoding.stage.holds_handle(),
        !RawStage::Finished.holds_handle() && !RawStage::Finished.holds_image(),
{
}

/// The first failure decides the outcome, and a failure is never forgotten:
/// a reply fails the decoding exactly when it reports no success while the
/// decoding was still sound.
pub proof fn lemma_first_failure_decides(decoding: RawDecoding, reply: RawReply)
    ensures
        decoding.outcome is Err ==> decoding.next(reply).outcome == decoding.outcome,
        decoding.outcome is Ok ==> (decoding.next(reply).outcome is Ok <==> decoding.succeeds(
            reply,
        )),
{
}

/// A decoding that gets nine replies has finished.
pub proof fn lemma_nine_replies_finish(decoding: RawDecoding, replies: Seq<RawReply>)
    requires
        replies.len() >= decoding.stage.calls_left(),
    ensures
        decoding.run(replies).stage is Finished,
    decreases replies.len(),
{
    if replies.len() > 0 {
        if !(decoding.stage is Finished) {
            lemma_every_reply_progresses(decoding, replies[0]);
        }
        lemma_nine_replies_finish(decoding.next(replies[0]), replies.drop_first());
    }
}

} // verus!
