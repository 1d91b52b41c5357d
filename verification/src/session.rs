//! The editing session as a state machine: what the session holds, which
//! events reach it, and what it asks its surroundings to do in answer.
//!
//! The surroundings show dialogs, load and export files and talk to the
//! device. They report what happened as an [`Event`] and carry out the
//! [`Command`] they get back. The session itself touches nothing outside:
//! it only decides.

use vstd::prelude::*;
use crate::error::{DecodeError, ExportError, ResourceError};
use crate::resources::{Dispatch, ImageRenderResources, ResourceSetView};

verus! {

/// A failure to report to the user.
#[derive(Clone, Copy, Debug, PartialEq, Eq, Structural)]
pub enum Failure {
    Decode(DecodeError),
    Resource(ResourceError),
    Export(ExportError),
}

impl Failure {
    /// What the user is told about the failure itself.
    pub open spec fn description(self) -> Seq<char> {
        match self {
            Failure::Decode(e) => e.description(),
            Failure::Resource(e) => e.description(),
            Failure::Export(e) => e.description(),
        }
    }

    /// Whether a load failed, rather than an export.
    pub open spec fn of_load(self) -> bool {
        !(self is Export)
    }

    /// What to tell the user about the failure itself.
    pub fn message(&self) -> (text: &'static str)
        ensures
            text@ == self.description(),
    {
        match self {
            Failure::Decode(e) => e.message(),
            Failure::Resource(e) => e.message(),
            Failure::Export(e) => e.message(),
        }
    }

    /// Whether a load failed, rather than an export.
    pub fn is_load(&self) -> (load: bool)
        ensures
            load == self.of_load(),
    {
        match self {
            Failure::Export(_) => false,
            _ => true,
        }
    }
}

/// What the session asks its surroundings to do.
#[derive(Clone, Copy, Debug, PartialEq, Eq, Structural)]
pub enum Command {
    /// Nothing.
    Nothing,
    /// Show the dialog that picks a file to open.
    PickFile,
    /// Show the dialog that picks where to save.
    SaveFile,
    /// Load the image at the path that was just picked.
    LoadImage,
    /// Export the processed image to the path that was just picked.
    ExportImage,
    /// Upload the colour parameters and run the colour transform.
    Prepare(Dispatch),
    /// Tell the user what went wrong.
    Report(Failure),
}

/// What happened outside the session.
#[derive(Debug)]
pub enum Event {
    /// The user asked to open an image.
    OpenRequested,
    /// The user asked to export the processed image.
    ExportRequested,
    /// A dialog was confirmed with this path.
    PathPicked(String),
    /// A dialog was closed without a path.
    DialogCancelled,
    /// A load ended with the resource set of the new image.
    ImageLoaded(ImageRenderResources),
    /// A load ended without an image.
    LoadFailed(Failure),
    /// An export ended.
    ExportFinished(Result<(), ExportError>),
    /// A frame is about to be drawn.
    Frame,
}

/// What an [`Event`] stands for.
pub enum EventView {
    OpenRequested,
    ExportRequested,
    PathPicked(Seq<char>),
    DialogCancelled,
    ImageLoaded(ResourceSetView),
    LoadFailed(Failure),
    ExportFinished(Result<(), ExportError>),
    Frame,
}

impl View for Event {
    type V = EventView;

    open spec fn view(&self) -> EventView {
        match self {
            Event::OpenRequested => EventView::OpenRequested,
            Event::ExportRequested => EventView::ExportRequested,
            Event::PathPicked(path) => EventView::PathPicked(path@),
            Event::DialogCancelled => EventView::DialogCancelled,
            Event::ImageLoaded(set) => EventView::ImageLoaded(set@),
            Event::LoadFailed(failure) => EventView::LoadFailed(*failure),
            Event::ExportFinished(outcome) => EventView::ExportFinished(*outcome),
            Event::Frame => EventView::Frame,
        }
    }
}

/// What a [`FilmEmulator`] stands for.
pub struct SessionView {
    /// The path of the last load that was asked for and has not failed.
    pub selected_image_path: Option<Seq<char>>,
    /// The one live resource set, if an image is loaded.
    pub resources: Option<ResourceSetView>,
    /// Whether the next picked path is where to export.
    pub export_pending: bool,
}

impl SessionView {
    /// The session after `events`, one after the other.
    pub open spec fn run(self, events: Seq<EventView>) -> SessionView
        decreases events.len(),
    {
        if events.len() == 0 {
            self
        } else {
            self.step(events[0]).0.run(events.drop_first())
        }
    }

    /// A session that has just started.
    pub open spec fn initial() -> SessionView {
        SessionView { selected_image_path: None, resources: None, export_pending: false }
    }

    /// Whether an image is loaded.
    pub open spec fn image_loaded(self) -> bool {
        self.resources is Some
    }

    /// What every session keeps: an export is only pending for a loaded
    /// image.
    pub open spec fn consistent(self) -> bool {
        self.export_pending ==> self.image_loaded()
    }

    /// The session after `event`, and what it asks for.
    ///
    /// - A request to open shows the file picker and drops a pending export.
    /// - A request to export shows the save dialog if an image is loaded,
    ///   and is ignored otherwise.
    /// - A picked path is where to export if an export is pending. Otherwise
    ///   it is an image to load, unless it is the path already selected.
    /// - A cancelled dialog drops a pending export.
    /// - A loaded image replaces the resource set as a whole.
    /// - A failed load is reported and forgets the selected path, so that
    ///   the same file can be picked again; the resource set stays.
    /// - A finished export is reported if it failed; the session stays.
    /// - A frame runs the colour transform if an image is loaded, and is a
    ///   no-op otherwise.
    pub open spec fn step(self, event: EventView) -> (SessionView, Command) {
        match event {
            EventView::OpenRequested => (
                SessionView { export_pending: false, ..self },
                Command::PickFile,
            ),
            EventView::ExportRequested => if self.image_loaded() {
                (SessionView { export_pending: true, ..self }, Command::SaveFile)
            } else {
                (self, Command::Nothing)
            },
            EventView::PathPicked(path) => if self.export_pending {
                (SessionView { export_pending: false, ..self }, Command::ExportImage)
            } else if self.selected_image_path == Some(path) {
                (self, Command::Nothing)
            } else {
                (SessionView { selected_image_path: Some(path), ..self }, Command::LoadImage)
            },
            EventView::DialogCancelled => (
                SessionView { export_pending: false, ..self },
                Command::Nothing,
            ),
            EventView::ImageLoaded(set) => (
                SessionView { resources: Some(set), ..self },
                Command::Nothing,
            ),
            EventView::LoadFailed(failure) => (
                SessionView { selected_image_path: None, ..self },
                Command::Report(failure),
            ),
            EventView::ExportFinished(outcome) => (
                self,
                match outcome {
                    Ok(_) => Command::Nothing,
                    Err(e) => Command::Report(Failure::Export(e)),
                },
            ),
            EventView::Frame => (
                self,
                match self.resources {
                    Some(set) => Command::Prepare(set.dispatch()),
                    None => Command::Nothing,
                },
            ),
        }
    }
}

/// A consistent session stays consistent, whatever happens.
pub proof fn lemma_step_keeps_consistency(session: SessionView, event: EventView)
    requires
        session.consistent(),
    ensures
        session.step(event).0.consistent(),
{
}

/// Only a loaded image changes the resource set: a failed load, an export
/// that ends well or badly, a dialog and a frame all leave it as it was.
pub proof fn lemma_only_a_loaded_image_replaces_resources(session: SessionView, event: EventView)
    ensures
        !(event is ImageLoaded) ==> session.step(event).0.resources == session.resources,
        event matches EventView::ImageLoaded(set) ==> session.step(event).0.resources == Some(set),
{
}

/// Without an image a frame does nothing; with one it dispatches the
/// colour transform over that image. Either way the session is unchanged.
pub proof fn lemma_frame_follows_resources(session: SessionView)
    ensures
        session.step(EventView::Frame).0 == session,
        session.resources is None ==> session.step(EventView::Frame).1 == Command::Nothing,
        session.resources matches Some(set) ==> session.step(EventView::Frame).1
            == Command::Prepare(set.dispatch()),
{
}

/// An export that ends, well or badly, leaves the whole session as it was:
/// the image stays loaded and selected, and nothing is pending.
pub proof fn lemma_export_outcome_leaves_session(
    session: SessionView,
    outcome: Result<(), ExportError>,
)
    ensures
        session.step(EventView::ExportFinished(outcome)).0 == session,
        outcome matches Err(e) ==> session.step(EventView::ExportFinished(outcome)).1
            == Command::Report(Failure::Export(e)),
{
}

/// A failed load is reported, keeps the image that was loaded before, and
/// lets the same file be picked again.
pub proof fn lemma_failed_load_keeps_image(session: SessionView, failure: Failure, path: Seq<char>)
    requires
        !session.export_pending,
    ensures
        session.step(EventView::LoadFailed(failure)).1 == Command::Report(failure),
        session.step(EventView::LoadFailed(failure)).0.resources == session.resources,
        session.step(EventView::LoadFailed(failure)).0.step(EventView::PathPicked(path)).1
            == Command::LoadImage,
{
}

/// However many events reach it, a session that starts consistent is
/// consistent after the last one.
pub proof fn lemma_run_keeps_consistency(session: SessionView, events: Seq<EventView>)
    requires
        session.consistent(),
    ensures
        session.run(events).consistent(),
    decreases events.len(),
{
    if events.len() > 0 {
        lemma_step_keeps_consistency(session, events[0]);
        lemma_run_keeps_consistency(session.step(events[0]).0, events.drop_first());
    }
}

/// An export is asked for only while an image is loaded.
pub proof fn lemma_export_needs_an_image(session: SessionView, event: EventView)
    requires
        session.consistent(),
        session.step(event).1 == Command::ExportImage || session.step(event).1
            == Command::SaveFile,
    ensures
        session.image_loaded(),
{
}

/// The editing session.
#[derive(Debug)]
pub struct FilmEmulator {
    selected_image_path: Option<String>,
    resources: Option<ImageRenderResources>,
    export_pending: bool,
}

impl View for FilmEmulator {
    type V = SessionView;

    closed spec fn view(&self) -> SessionView {
        SessionView {
            selected_image_path: match self.selected_image_path {
                Some(path) => Some(path@),
                None => None,
            },
            resources: match self.resources {
                Some(set) => Some(set@),
                None => None,
            },
            export_pending: self.export_pending,
        }
    }
}

impl FilmEmulator {
    #[verifier::type_invariant]
    spec fn consistent(&self) -> bool {
        self.export_pending ==> self.resources is Some
    }

    /// A session with no image and nothing pending.
    pub fn new() -> (session: FilmEmulator)
        ensures
            session@ == SessionView::initial(),
    {
        FilmEmulator { selected_image_path: None, resources: None, export_pending: false }
    }

    /// Whether an image is loaded.
    pub fn image_loaded(&self) -> (loaded: bool)
        ensures
            loaded == self@.image_loaded(),
    {
        self.resources.is_some()
    }

    /// Whether the next picked path is where to export. An export is only
    /// pending while an image is loaded.
    pub fn export_pending(&self) -> (pending: bool)
        ensures
            pending == self@.export_pending,
            self@.consistent(),
    {
        proof {
            use_type_invariant(self);
        }
        self.export_pending
    }

    /// The resource set of the loaded image.
    pub fn resources(&self) -> (set: Option<&ImageRenderResources>)
        ensures
            set is Some <==> self@.resources is Some,
            set matches Some(s) ==> self@.resources == Some(s@),
    {
        self.resources.as_ref()
    }

    /// Whether `path` is the selected path.
    pub fn is_selected(&self, path: &String) -> (selected: bool)
        ensures
            selected == (self@.selected_image_path == Some(path@)),
    {
        match &self.selected_image_path {
            Some(current) => *current == *path,
            None => false,
        }
    }

    /// Takes in `event` and says what to do about it; see
    /// [`SessionView::step`].
    pub fn update(&mut self, event: Event) -> (command: Command)
        ensures
            (final(self)@, command) == old(self)@.step(event@),
            final(self)@.consistent(),
    {
        proof {
            use_type_invariant(&*self);
        }
        match event {
            Event::OpenRequested => {
                self.export_pending = false;
                Command::PickFile
            },
            Event::ExportRequested => {
                if self.resources.is_some() {
                    self.export_pending = true;
                    Command::SaveFile
                } else {
                    Command::Nothing
                }
            },
            Event::PathPicked(path) => {
                if self.export_pending {
                    self.export_pending = false;
                    Command::ExportImage
                } else if self.is_selected(&path) {
                    Command::Nothing
                } else {
                    self.selected_image_path = Some(path);
                    Command::LoadImage
                }
            },
            Event::DialogCancelled => {
                self.export_pending = false;
                Command::Nothing
            },
            Event::ImageLoaded(set) => {
                self.resources = Some(set);
                Command::Nothing
            },
            Event::LoadFailed(failure) => {
                self.selected_image_path = None;
                Command::Report(failure)
            },
            Event::ExportFinished(outcome) => {
                match outcome {
                    Ok(_) => Command::Nothing,
                    Err(e) => Command::Report(Failure::Export(e)),
                }
            },
            Event::Frame => {
                match &self.resources {
                    Some(set) => Command::Prepare(set.prepare()),
                    None => Command::Nothing,
                }
            },
        }
    }
}

} // verus!
