//! The pipeline as a state machine.
//!
//! Each state names the platform operation the driver must perform next;
//! the driver reports the operation's outcome as an event, and `step`
//! decides the next state and the next action.  The machine itself touches
//! no file and no recognition engine, so every decision it makes is
//! verified: which language to bind, how to normalize the resolved path,
//! which error a failed operation becomes, and that the first failure ends
//! the run with that very error.

use vstd::prelude::*;

use crate::error::OcrError;
use crate::language::select_auto_language;
use crate::path::strip_verbatim;
use crate::path::strip_verbatim_prefix;

verus! {

/// How the recognition language is chosen for a run.
#[derive(Debug)]
pub enum LanguageMode {
    /// Use the first language the platform advertises.
    Auto,
    /// Use the caller-supplied tag.
    Explicit(String),
}

/// Ghost model of `LanguageMode`.
pub enum ModeModel {
    Auto,
    Explicit(Seq<char>),
}

impl View for LanguageMode {
    type V = ModeModel;

    open spec fn view(&self) -> ModeModel {
        match self {
            LanguageMode::Auto => ModeModel::Auto,
            LanguageMode::Explicit(t) => ModeModel::Explicit(t@),
        }
    }
}

/// Where a run stands: which platform operation is outstanding, or how the
/// run ended.
#[derive(Debug)]
pub enum OcrState {
    /// Waiting for the driver to resolve the input path.
    ResolvingPath,
    /// Waiting for the driver to open and decode the image file.
    LoadingBitmap,
    /// Waiting for the platform's list of recognizer languages.
    ListingLanguages,
    /// Waiting for a recognizer bound to the chosen language.
    CreatingRecognizer,
    /// Waiting for the recognition result.
    Recognizing,
    /// The run succeeded with the recognized text.
    Done(String),
    /// The run failed; the first failure is recorded unchanged.
    Failed(OcrError),
}

/// Ghost model of `OcrState`.
pub enum StateModel {
    ResolvingPath,
    LoadingBitmap,
    ListingLanguages,
    CreatingRecognizer,
    Recognizing,
    Done(Seq<char>),
    Failed(OcrError),
}

impl View for OcrState {
    type V = StateModel;

    open spec fn view(&self) -> StateModel {
        match self {
            OcrState::ResolvingPath => StateModel::ResolvingPath,
            OcrState::LoadingBitmap => StateModel::LoadingBitmap,
            OcrState::ListingLanguages => StateModel::ListingLanguages,
            OcrState::CreatingRecognizer => StateModel::CreatingRecognizer,
            OcrState::Recognizing => StateModel::Recognizing,
            OcrState::Done(t) => StateModel::Done(t@),
            OcrState::Failed(e) => StateModel::Failed(*e),
        }
    }
}

/// The outcome of a platform operation, reported by the driver.
#[derive(Debug)]
pub enum OcrEvent {
    /// The path was canonicalized to this absolute form.
    PathResolved(String),
    /// The path could not be canonicalized.
    PathNotResolved,
    /// The file was opened and decoded into a bitmap the driver holds.
    BitmapReady,
    /// The file could not be opened or decoded.
    BitmapError,
    /// The platform advertises these recognizer languages, in its order.
    LanguagesListed(Vec<String>),
    /// A recognizer bound to the requested language is ready.
    RecognizerReady,
    /// No recognizer could be bound to the requested language.
    RecognizerUnavailable,
    /// Recognition finished with this text.
    TextRecognized(String),
    /// Recognition failed.
    RecognitionError,
}

/// Ghost model of `OcrEvent`.
pub enum EventModel {
    PathResolved(Seq<char>),
    PathNotResolved,
    BitmapReady,
    BitmapError,
    LanguagesListed(Seq<Seq<char>>),
    RecognizerReady,
    RecognizerUnavailable,
    TextRecognized(Seq<char>),
    RecognitionError,
}

impl View for OcrEvent {
    type V = EventModel;

    open spec fn view(&self) -> EventModel {
        match self {
            OcrEvent::PathResolved(p) => EventModel::PathResolved(p@),
            OcrEvent::PathNotResolved => EventModel::PathNotResolved,
            OcrEvent::BitmapReady => EventModel::BitmapReady,
            OcrEvent::BitmapError => EventModel::BitmapError,
            OcrEvent::LanguagesListed(tags) => EventModel::LanguagesListed(
                tags@.map_values(|t: String| t@),
            ),
            OcrEvent::RecognizerReady => EventModel::RecognizerReady,
            OcrEvent::RecognizerUnavailable => EventModel::RecognizerUnavailable,
            OcrEvent::TextRecognized(t) => EventModel::TextRecognized(t@),
            OcrEvent::RecognitionError => EventModel::RecognitionError,
        }
    }
}

/// What the driver must do next.
#[derive(Debug)]
pub enum OcrAction {
    /// Canonicalize this path.
    ResolvePath(String),
    /// Open this file read-only and decode it into a bitmap.
    LoadBitmap(String),
    /// Query the platform for its recognizer languages.
    ListLanguages,
    /// Bind a recognizer to this language tag.
    CreateRecognizer(String),
    /// Run recognition on the bitmap the driver holds.
    Recognize,
    /// Nothing: the run is over, or the event answered no outstanding action.
    Stop,
}

/// Ghost model of `OcrAction`.
pub enum ActionModel {
    ResolvePath(Seq<char>),
    LoadBitmap(Seq<char>),
    ListLanguages,
    CreateRecognizer(Seq<char>),
    Recognize,
    Stop,
}

impl View for OcrAction {
    type V = ActionModel;

    open spec fn view(&self) -> ActionModel {
        match self {
            OcrAction::ResolvePath(p) => ActionModel::ResolvePath(p@),
            OcrAction::LoadBitmap(p) => ActionModel::LoadBitmap(p@),
            OcrAction::ListLanguages => ActionModel::ListLanguages,
            OcrAction::CreateRecognizer(t) => ActionModel::CreateRecognizer(t@),
            OcrAction::Recognize => ActionModel::Recognize,
            OcrAction::Stop => ActionModel::Stop,
        }
    }
}

/// A run is over once it has produced text or recorded a failure.
pub open spec fn is_terminal(s: StateModel) -> bool {
    s is Done || s is Failed
}

/// The state and first action of a run that begins from an already-decoded
/// bitmap: language selection is entered directly.
pub open spec fn language_entry(m: ModeModel) -> (StateModel, ActionModel) {
    match m {
        ModeModel::Auto => (StateModel::ListingLanguages, ActionModel::ListLanguages),
        ModeModel::Explicit(t) => (
            StateModel::CreatingRecognizer,
            ActionModel::CreateRecognizer(t),
        ),
    }
}

/// One transition of the machine.  An event that answers no outstanding
/// operation of the state leaves the state unchanged and asks for nothing.
pub open spec fn spec_step(m: ModeModel, s: StateModel, e: EventModel) -> (StateModel, ActionModel) {
    match (s, e) {
        (StateModel::ResolvingPath, EventModel::PathResolved(p)) => (
            StateModel::LoadingBitmap,
            ActionModel::LoadBitmap(strip_verbatim(p)),
        ),
        (StateModel::ResolvingPath, EventModel::PathNotResolved) => (
            StateModel::Failed(OcrError::PathUnavailable),
            ActionModel::Stop,
        ),
        (StateModel::LoadingBitmap, EventModel::BitmapReady) => language_entry(m),
        (StateModel::LoadingBitmap, EventModel::BitmapError) => (
            StateModel::Failed(OcrError::DecodeFailed),
            ActionModel::Stop,
        ),
        (StateModel::ListingLanguages, EventModel::LanguagesListed(tags)) => if tags.len() == 0 {
            (StateModel::Failed(OcrError::NoLanguageAvailable), ActionModel::Stop)
        } else {
            (StateModel::CreatingRecognizer, ActionModel::CreateRecognizer(tags[0]))
        },
        (StateModel::CreatingRecognizer, EventModel::RecognizerReady) => (
            StateModel::Recognizing,
            ActionModel::Recognize,
        ),
        (StateModel::CreatingRecognizer, EventModel::RecognizerUnavailable) => (
            StateModel::Failed(OcrError::UnsupportedLanguage),
            ActionModel::Stop,
        ),
        (StateModel::Recognizing, EventModel::TextRecognized(t)) => (
            StateModel::Done(t),
            ActionModel::Stop,
        ),
        (StateModel::Recognizing, EventModel::RecognitionError) => (
            StateModel::Failed(OcrError::RecognitionFailed),
            ActionModel::Stop,
        ),
        (other, _) => (other, ActionModel::Stop),
    }
}

/// Begins a run from a caller-supplied path: the driver must resolve it
/// first.
pub fn start_from_path(path: &str) -> (r: (OcrState, OcrAction))
    ensures
        r.0@ == StateModel::ResolvingPath,
        r.1@ == ActionModel::ResolvePath(path@),
{
    (OcrState::ResolvingPath, OcrAction::ResolvePath(path.to_owned()))
}

/// Begins a run from an already-decoded bitmap the driver holds: path
/// resolution and decoding are skipped.
pub fn start_from_bitmap(mode: &LanguageMode) -> (r: (OcrState, OcrAction))
    ensures
        r.0@ == language_entry(mode@).0,
        r.1@ == language_entry(mode@).1,
{
    match mode {
        LanguageMode::Auto => (OcrState::ListingLanguages, OcrAction::ListLanguages),
        LanguageMode::Explicit(t) => (
            OcrState::CreatingRecognizer,
            OcrAction::CreateRecognizer(t.clone()),
        ),
    }
}

/// Advances the machine by one event and returns the next state and the
/// next action for the driver.
pub fn step(mode: &LanguageMode, state: OcrState, event: OcrEvent) -> (r: (OcrState, OcrAction))
    ensures
        r.0@ == spec_step(mode@, state@, event@).0,
        r.1@ == spec_step(mode@, state@, event@).1,
{
    match (state, event) {
        (OcrState::ResolvingPath, OcrEvent::PathResolved(p)) => {
            let loadable = strip_verbatim_prefix(p.as_str());
            (OcrState::LoadingBitmap, OcrAction::LoadBitmap(loadable))
        },
        (OcrState::ResolvingPath, OcrEvent::PathNotResolved) => (
            OcrState::Failed(OcrError::PathUnavailable),
            OcrAction::Stop,
        ),
        (OcrState::LoadingBitmap, OcrEvent::BitmapReady) => start_from_bitmap(mode),
        (OcrState::LoadingBitmap, OcrEvent::BitmapError) => (
            OcrState::Failed(OcrError::DecodeFailed),
            OcrAction::Stop,
        ),
        (OcrState::ListingLanguages, OcrEvent::LanguagesListed(tags)) => {
            match select_auto_language(tags) {
                Ok(tag) => (OcrState::CreatingRecognizer, OcrAction::CreateRecognizer(tag)),
                Err(e) => (OcrState::Failed(e), OcrAction::Stop),
            }
        },
        (OcrState::CreatingRecognizer, OcrEvent::RecognizerReady) => (
            OcrState::Recognizing,
            OcrAction::Recognize,
        ),
        (OcrState::CreatingRecognizer, OcrEvent::RecognizerUnavailable) => (
            OcrState::Failed(OcrError::UnsupportedLanguage),
            OcrAction::Stop,
        ),
        (OcrState::Recognizing, OcrEvent::TextRecognized(t)) => (
            OcrState::Done(t),
            OcrAction::Stop,
        ),
        (OcrState::Recognizing, OcrEvent::RecognitionError) => (
            OcrState::Failed(OcrError::RecognitionFailed),
            OcrAction::Stop,
        ),
        (other, _) => (other, OcrAction::Stop),
    }
}

} // verus!
