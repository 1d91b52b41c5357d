use film_emulator::error::DecodeError;
use film_emulator::raw::{RawCall, RawDecoding, RawParameters, RawReply, RawStage};

fn drive(replies: &[RawReply]) -> (RawDecoding, Vec<RawCall>) {
    let (mut decoding, first) = RawDecoding::start();
    let mut calls = vec![first];
    for &reply in replies {
        let (next, call) = decoding.advance(reply);
        decoding = next;
        calls.push(call);
    }
    (decoding, calls)
}

fn count(calls: &[RawCall], call: RawCall) -> usize {
    calls.iter().filter(|&&c| c == call).count()
}

const LINEAR: RawParameters = RawParameters {
    linear_gamma: true,
    no_auto_bright: true,
    output_bps: 16,
    use_camera_wb: true,
};

#[test]
fn decoding_starts_with_the_handle() {
    let (decoding, call) = RawDecoding::start();
    assert_eq!(call, RawCall::Init);
    assert_eq!(decoding, RawDecoding { stage: RawStage::Initializing, outcome: Ok(()) });
}

#[test]
fn sound_file_goes_through_every_call_in_order() {
    let (decoding, calls) = drive(&[
        RawReply::Handle(true),
        RawReply::Status(0),
        RawReply::Status(0),
        RawReply::Done,
        RawReply::Status(0),
        RawReply::MemoryImage(true, 0),
        RawReply::Pixels(true),
        RawReply::Done,
        RawReply::Done,
    ]);
    assert_eq!(
        calls,
        vec![
            RawCall::Init,
            RawCall::OpenFile,
            RawCall::Unpack,
            RawCall::Configure(LINEAR),
            RawCall::Process,
            RawCall::MakeMemoryImage,
            RawCall::ReadPixels,
            RawCall::ClearMemoryImage,
            RawCall::Close,
            RawCall::Finish(Ok(())),
        ]
    );
    assert_eq!(decoding, RawDecoding { stage: RawStage::Finished, outcome: Ok(()) });
}

#[test]
fn decoder_is_asked_for_linear_sixteen_bit_output() {
    let (_, calls) = drive(&[RawReply::Handle(true), RawReply::Status(0), RawReply::Status(0)]);
    assert_eq!(
        calls[3],
        RawCall::Configure(RawParameters {
            linear_gamma: true,
            no_auto_bright: true,
            output_bps: 16,
            use_camera_wb: true,
        })
    );
}

#[test]
fn without_a_handle_nothing_is_released() {
    let (decoding, calls) = drive(&[RawReply::Handle(false)]);
    assert_eq!(calls, vec![RawCall::Init, RawCall::Finish(Err(DecodeError::DecoderFailure))]);
    assert_eq!(decoding.stage, RawStage::Finished);
}

#[test]
fn file_that_does_not_open_is_a_bad_path_and_the_handle_is_closed() {
    let (decoding, calls) = drive(&[RawReply::Handle(true), RawReply::Status(-2), RawReply::Done]);
    assert_eq!(
        calls,
        vec![
            RawCall::Init,
            RawCall::OpenFile,
            RawCall::Close,
            RawCall::Finish(Err(DecodeError::BadPath)),
        ]
    );
    assert_eq!(decoding.outcome, Err(DecodeError::BadPath));
}

#[test]
fn failed_unpack_closes_the_handle() {
    let (_, calls) = drive(&[
        RawReply::Handle(true),
        RawReply::Status(0),
        RawReply::Status(-4),
        RawReply::Done,
    ]);
    assert_eq!(
        &calls[3..],
        &[RawCall::Close, RawCall::Finish(Err(DecodeError::DecoderFailure))]
    );
}

#[test]
fn failed_process_closes_the_handle() {
    let (_, calls) = drive(&[
        RawReply::Handle(true),
        RawReply::Status(0),
        RawReply::Status(0),
        RawReply::Done,
        RawReply::Status(1),
        RawReply::Done,
    ]);
    assert_eq!(
        &calls[5..],
        &[RawCall::Close, RawCall::Finish(Err(DecodeError::DecoderFailure))]
    );
}

#[test]
fn missing_memory_image_closes_the_handle() {
    let (_, calls) = drive(&[
        RawReply::Handle(true),
        RawReply::Status(0),
        RawReply::Status(0),
        RawReply::Done,
        RawReply::Status(0),
        RawReply::MemoryImage(false, 0),
        RawReply::Done,
    ]);
    assert_eq!(
        &calls[6..],
        &[RawCall::Close, RawCall::Finish(Err(DecodeError::DecoderFailure))]
    );
    assert_eq!(count(&calls, RawCall::ClearMemoryImage), 0);
}

#[test]
fn memory_image_with_an_error_is_released_before_the_handle() {
    let (_, calls) = drive(&[
        RawReply::Handle(true),
        RawReply::Status(0),
        RawReply::Status(0),
        RawReply::Done,
        RawReply::Status(0),
        RawReply::MemoryImage(true, 12),
        RawReply::Done,
        RawReply::Done,
    ]);
    assert_eq!(
        &calls[6..],
        &[
            RawCall::ClearMemoryImage,
            RawCall::Close,
            RawCall::Finish(Err(DecodeError::DecoderFailure)),
        ]
    );
    assert_eq!(count(&calls, RawCall::ReadPixels), 0);
}

#[test]
fn pixels_that_form_no_image_are_corrupt_and_everything_is_released() {
    let (_, calls) = drive(&[
        RawReply::Handle(true),
        RawReply::Status(0),
        RawReply::Status(0),
        RawReply::Done,
        RawReply::Status(0),
        RawReply::MemoryImage(true, 0),
        RawReply::Pixels(false),
        RawReply::Done,
        RawReply::Done,
    ]);
    assert_eq!(
        &calls[7..],
        &[RawCall::ClearMemoryImage, RawCall::Close, RawCall::Finish(Err(DecodeError::Corrupt))]
    );
}

#[test]
fn reply_that_does_not_belong_to_the_call_fails_the_decoding() {
    let (_, calls) = drive(&[RawReply::Handle(true), RawReply::Done, RawReply::Done]);
    assert_eq!(&calls[2..], &[RawCall::Close, RawCall::Finish(Err(DecodeError::BadPath))]);
    let (_, calls) = drive(&[RawReply::Status(0)]);
    assert_eq!(calls[1], RawCall::Finish(Err(DecodeError::DecoderFailure)));
}

#[test]
fn finished_decoding_stays_finished() {
    let (decoding, _) = drive(&[RawReply::Handle(false)]);
    let (again, call) = decoding.advance(RawReply::Handle(true));
    assert_eq!(again, decoding);
    assert_eq!(call, RawCall::Finish(Err(DecodeError::DecoderFailure)));
}

#[test]
fn whatever_the_replies_what_was_acquired_is_released_once() {
    let all = [
        RawReply::Handle(true),
        RawReply::Handle(false),
        RawReply::Status(0),
        RawReply::Status(7),
        RawReply::MemoryImage(true, 0),
        RawReply::MemoryImage(true, 3),
        RawReply::MemoryImage(false, 0),
        RawReply::Pixels(true),
        RawReply::Pixels(false),
        RawReply::Done,
    ];
    let mut seed: u32 = 12345;
    for _ in 0..2000 {
        let mut replies = Vec::new();
        for _ in 0..9 {
            seed = seed.wrapping_mul(1_664_525).wrapping_add(1_013_904_223);
            replies.push(all[(seed >> 16) as usize % all.len()]);
        }
        let (decoding, calls) = drive(&replies);
        assert_eq!(decoding.stage, RawStage::Finished);
        let handle = replies[0] == RawReply::Handle(true);
        assert_eq!(count(&calls, RawCall::Close), if handle { 1 } else { 0 });
        let made = calls.iter().position(|&c| c == RawCall::MakeMemoryImage);
        let image = match made {
            Some(at) => matches!(replies[at], RawReply::MemoryImage(true, _)),
            None => false,
        };
        assert_eq!(count(&calls, RawCall::ClearMemoryImage), if image { 1 } else { 0 });
        assert!(matches!(calls[calls.len() - 1], RawCall::Finish(_)));
    }
}
