//! A verified core for an OCR pipeline that delegates recognition to a
//! platform service.
//!
//! The library holds the decision logic of the pipeline: normalizing a
//! resolved path, choosing a recognition language, translating failures
//! into a uniform error type, and sequencing the platform operations as a
//! state machine.  A thin driver performs the platform calls themselves
//! (file open, image decode, recognition) and feeds each outcome back into
//! the machine as an event.

mod error;
mod language;
mod machine;
mod path;
mod runs;

pub use error::OcrError;
pub use language::select_auto_language;
pub use machine::{ActionModel, EventModel, LanguageMode, ModeModel, StateModel};
pub use machine::{OcrAction, OcrEvent, OcrState};
pub use machine::{is_terminal, language_entry, spec_step};
pub use machine::{start_from_bitmap, start_from_path, step};
pub use path::{marker_at, strip_verbatim, strip_verbatim_prefix};
pub use path::{lemma_strip_never_grows, lemma_unmarked_path_is_unchanged};
pub use runs::{action_views, actions_of, all_stop, event_views, run, run_script};
pub use runs::{
    lemma_actions_unfold, lemma_decode_failure_is_not_path_failure,
    lemma_empty_language_list_fails, lemma_no_path_failure_after_resolution,
    lemma_path_run_matches_bitmap_run, lemma_run_unfold, lemma_runs_agree,
    lemma_success_returns_platform_text, lemma_terminal_state_is_final,
    lemma_unbindable_tag_is_unsupported, lemma_unresolvable_path_never_decodes,
};
