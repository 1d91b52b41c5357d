use film_emulator::error::{DecodeError, ExportError, ResourceError};
use film_emulator::resources::{Dispatch, DrawCall, ImagePaintCallback, ImageRenderResources};
use film_emulator::session::{Command, Event, Failure, FilmEmulator};

fn picked(path: &str) -> Event {
    Event::PathPicked(path.to_string())
}

fn loaded(width: u32, height: u32) -> Event {
    Event::ImageLoaded(ImageRenderResources::new(width, height, 8192).unwrap())
}

fn size(session: &FilmEmulator) -> Option<(u32, u32)> {
    session.resources().map(|set| (set.width(), set.height()))
}

#[test]
fn new_session_has_no_image() {
    let session = FilmEmulator::new();
    assert!(!session.image_loaded());
    assert!(!session.export_pending());
    assert!(session.resources().is_none());
    assert!(!session.is_selected(&"a.png".to_string()));
}

#[test]
fn frame_without_an_image_is_a_no_op() {
    let mut session = FilmEmulator::new();
    assert_eq!(session.update(Event::Frame), Command::Nothing);
    assert_eq!(ImagePaintCallback.paint(session.resources()), None);
}

#[test]
fn opening_an_image() {
    let mut session = FilmEmulator::new();
    assert_eq!(session.update(Event::OpenRequested), Command::PickFile);
    assert_eq!(session.update(picked("a.png")), Command::LoadImage);
    assert!(session.is_selected(&"a.png".to_string()));
    assert!(!session.image_loaded());
    assert_eq!(session.update(loaded(17, 9)), Command::Nothing);
    assert!(session.image_loaded());
    assert_eq!(size(&session), Some((17, 9)));
    assert_eq!(
        session.update(Event::Frame),
        Command::Prepare(Dispatch { bind_group: 0, x: 2, y: 1, z: 1 })
    );
    assert_eq!(
        ImagePaintCallback.paint(session.resources()),
        Some(DrawCall { bind_group: 0, vertices: 6, instances: 1 })
    );
}

#[test]
fn the_selected_path_is_not_loaded_again() {
    let mut session = FilmEmulator::new();
    assert_eq!(session.update(picked("a.png")), Command::LoadImage);
    assert_eq!(session.update(picked("a.png")), Command::Nothing);
    assert_eq!(session.update(loaded(4, 4)), Command::Nothing);
    assert_eq!(session.update(picked("a.png")), Command::Nothing);
    assert_eq!(session.update(picked("b.png")), Command::LoadImage);
    assert!(session.is_selected(&"b.png".to_string()));
    assert!(!session.is_selected(&"a.png".to_string()));
}

#[test]
fn a_new_image_replaces_the_resource_set() {
    let mut session = FilmEmulator::new();
    session.update(picked("a.png"));
    session.update(loaded(17, 9));
    session.update(picked("b.dng"));
    assert_eq!(size(&session), Some((17, 9)));
    session.update(loaded(256, 256));
    assert_eq!(size(&session), Some((256, 256)));
    assert_eq!(
        session.update(Event::Frame),
        Command::Prepare(Dispatch { bind_group: 0, x: 16, y: 16, z: 1 })
    );
}

#[test]
fn a_failed_load_keeps_the_previous_image() {
    let mut session = FilmEmulator::new();
    session.update(picked("a.png"));
    session.update(loaded(17, 9));
    assert_eq!(session.update(picked("broken.png")), Command::LoadImage);
    let failure = Failure::Decode(DecodeError::Corrupt);
    assert_eq!(session.update(Event::LoadFailed(failure)), Command::Report(failure));
    assert!(session.image_loaded());
    assert_eq!(size(&session), Some((17, 9)));
    assert_eq!(
        session.update(Event::Frame),
        Command::Prepare(Dispatch { bind_group: 0, x: 2, y: 1, z: 1 })
    );
}

#[test]
fn a_failed_load_can_be_tried_again() {
    let mut session = FilmEmulator::new();
    assert_eq!(session.update(picked("huge.png")), Command::LoadImage);
    let failure = Failure::Resource(ResourceError::DimensionExceedsLimit);
    assert_eq!(session.update(Event::LoadFailed(failure)), Command::Report(failure));
    assert!(!session.image_loaded());
    assert!(!session.is_selected(&"huge.png".to_string()));
    assert_eq!(session.update(picked("huge.png")), Command::LoadImage);
}

#[test]
fn export_needs_an_image() {
    let mut session = FilmEmulator::new();
    assert_eq!(session.update(Event::ExportRequested), Command::Nothing);
    assert!(!session.export_pending());
    assert_eq!(session.update(picked("out.png")), Command::LoadImage);
}

#[test]
fn exporting_the_image() {
    let mut session = FilmEmulator::new();
    session.update(picked("a.png"));
    session.update(loaded(17, 9));
    assert_eq!(session.update(Event::ExportRequested), Command::SaveFile);
    assert!(session.export_pending());
    assert_eq!(session.update(picked("out.png")), Command::ExportImage);
    assert!(!session.export_pending());
    assert!(session.is_selected(&"a.png".to_string()));
    assert_eq!(session.update(Event::ExportFinished(Ok(()))), Command::Nothing);
    assert_eq!(size(&session), Some((17, 9)));
}

#[test]
fn a_failed_export_is_reported_and_changes_nothing() {
    let mut session = FilmEmulator::new();
    session.update(picked("a.png"));
    session.update(loaded(17, 9));
    session.update(Event::ExportRequested);
    session.update(picked("/no/such/dir/out.png"));
    assert_eq!(
        session.update(Event::ExportFinished(Err(ExportError::IOFailure))),
        Command::Report(Failure::Export(ExportError::IOFailure))
    );
    assert_eq!(
        session.update(Event::ExportFinished(Err(ExportError::ReadbackTimeout))),
        Command::Report(Failure::Export(ExportError::ReadbackTimeout))
    );
    assert!(session.image_loaded());
    assert_eq!(size(&session), Some((17, 9)));
    assert!(session.is_selected(&"a.png".to_string()));
    assert!(!session.export_pending());
}

#[test]
fn exporting_over_the_loaded_file_does_not_reload_it() {
    let mut session = FilmEmulator::new();
    session.update(picked("a.png"));
    session.update(loaded(17, 9));
    session.update(Event::ExportRequested);
    assert_eq!(session.update(picked("a.png")), Command::ExportImage);
    assert_eq!(session.update(picked("a.png")), Command::Nothing);
}

#[test]
fn a_cancelled_save_dialog_drops_the_export() {
    let mut session = FilmEmulator::new();
    session.update(picked("a.png"));
    session.update(loaded(17, 9));
    session.update(Event::ExportRequested);
    assert_eq!(session.update(Event::DialogCancelled), Command::Nothing);
    assert!(!session.export_pending());
    assert_eq!(session.update(picked("b.png")), Command::LoadImage);
}

#[test]
fn asking_to_open_drops_a_pending_export() {
    let mut session = FilmEmulator::new();
    session.update(picked("a.png"));
    session.update(loaded(17, 9));
    session.update(Event::ExportRequested);
    assert_eq!(session.update(Event::OpenRequested), Command::PickFile);
    assert!(!session.export_pending());
    assert_eq!(session.update(picked("b.png")), Command::LoadImage);
}

#[test]
fn frames_do_not_change_the_session() {
    let mut session = FilmEmulator::new();
    session.update(picked("a.png"));
    session.update(loaded(33, 1));
    for _ in 0..3 {
        assert_eq!(
            session.update(Event::Frame),
            Command::Prepare(Dispatch { bind_group: 0, x: 3, y: 1, z: 1 })
        );
    }
    assert!(session.is_selected(&"a.png".to_string()));
    assert!(!session.export_pending());
    assert_eq!(size(&session), Some((33, 1)));
}
