//! Whole runs of the machine, and what holds of them.
//!
//! A run folds `spec_step` over the events the driver feeds in.  The proof
//! functions here state the run-level guarantees of the pipeline: a failed
//! resolution ends the run at once and no decode is ever requested, each
//! failed operation ends the run with its own error, the outcome is a
//! function of mode, start and events alone, and a run begun from a path
//! continues after a successful decode exactly as one begun from a bitmap.

use vstd::prelude::*;

use crate::error::OcrError;
use crate::machine::{language_entry, spec_step, is_terminal, step};
use crate::machine::{ActionModel, EventModel, ModeModel, StateModel};
use crate::machine::{LanguageMode, OcrAction, OcrEvent, OcrState};

verus! {

/// The state a run reaches after feeding `events`, one by one, into the
/// machine started at `s` under mode `m`.
pub open spec fn run(m: ModeModel, s: StateModel, events: Seq<EventModel>) -> StateModel
    decreases events.len(),
{
    if events.len() == 0 {
        s
    } else {
        run(m, spec_step(m, s, events[0]).0, events.skip(1))
    }
}

/// The actions the machine asks of the driver over such a run, in order.
pub open spec fn actions_of(m: ModeModel, s: StateModel, events: Seq<EventModel>) -> Seq<
    ActionModel,
>
    decreases events.len(),
{
    if events.len() == 0 {
        Seq::empty()
    } else {
        seq![spec_step(m, s, events[0]).1] + actions_of(
            m,
            spec_step(m, s, events[0]).0,
            events.skip(1),
        )
    }
}

/// Every action of the sequence asks nothing of the driver.
pub open spec fn all_stop(acts: Seq<ActionModel>) -> bool {
    forall|i: int| 0 <= i < acts.len() ==> acts[i] == ActionModel::Stop
}

/// The ghost models of a sequence of events.
pub open spec fn event_views(events: Seq<OcrEvent>) -> Seq<EventModel> {
    events.map_values(|e: OcrEvent| e@)
}

/// The ghost models of a sequence of actions.
pub open spec fn action_views(acts: Seq<OcrAction>) -> Seq<ActionModel> {
    acts.map_values(|a: OcrAction| a@)
}

/// Feeds a whole script of events into the machine, one by one, and
/// returns the final state together with every action the machine asked
/// for — the executable counterpart of `run` and `actions_of`, so every
/// run-level guarantee proved of those holds of what this returns.
pub fn run_script(mode: &LanguageMode, state: OcrState, events: Vec<OcrEvent>) -> (r: (
    OcrState,
    Vec<OcrAction>,
))
    ensures
        r.0@ == run(mode@, state@, event_views(events@)),
        action_views(r.1@) == actions_of(mode@, state@, event_views(events@)),
{
    let ghost m = mode@;
    let ghost s0 = state@;
    let ghost all = event_views(events@);
    let mut events = events;
    let mut state = state;
    let mut actions: Vec<OcrAction> = Vec::new();
    proof {
        assert(action_views(actions@) + actions_of(m, state@, event_views(events@)) =~= actions_of(
            m,
            s0,
            all,
        ));
    }
    while events.len() > 0
        invariant
            m == mode@,
            run(m, s0, all) == run(m, state@, event_views(events@)),
            action_views(actions@) + actions_of(m, state@, event_views(events@)) == actions_of(
                m,
                s0,
                all,
            ),
        decreases events@.len(),
    {
        let ghost views_before = event_views(events@);
        let ghost state_before = state@;
        let e = events.remove(0);
        let (next, act) = step(mode, state, e);
        let ghost next_model = next@;
        let ghost act_model = act@;
        proof {
            assert(views_before[0] == e@);
            assert(event_views(events@) =~= views_before.skip(1));
            assert(next_model == spec_step(mode@, state_before, e@).0);
            assert(act_model == spec_step(mode@, state_before, e@).1);
            lemma_run_unfold(m, state_before, views_before);
            lemma_actions_unfold(m, state_before, views_before);
        }
        state = next;
        let ghost actions_before = actions@;
        actions.push(act);
        proof {
            let tail = actions_of(m, state@, event_views(events@));
            assert(state@ == next_model);
            assert(run(m, state_before, views_before) == run(m, state@, event_views(events@)));
            assert(actions_of(m, state_before, views_before) == seq![act_model] + tail);
            assert(action_views(actions@) =~= action_views(actions_before) + seq![act_model]);
            assert((action_views(actions_before) + seq![act_model]) + tail =~= action_views(
                actions_before,
            ) + (seq![act_model] + tail));
        }
    }
    proof {
        assert(event_views(events@) =~= Seq::<EventModel>::empty());
        assert(actions_of(m, state@, event_views(events@)) =~= Seq::<ActionModel>::empty());
        assert(action_views(actions@) + Seq::<ActionModel>::empty() =~= action_views(actions@));
    }
    (state, actions)
}

/// One unfolding of `run`: the first event is stepped, the rest follow.
pub proof fn lemma_run_unfold(m: ModeModel, s: StateModel, events: Seq<EventModel>)
    requires
        events.len() > 0,
    ensures
        run(m, s, events) == run(m, spec_step(m, s, events[0]).0, events.skip(1)),
{
}

/// One unfolding of `actions_of`: the first event's action, then the rest.
pub proof fn lemma_actions_unfold(m: ModeModel, s: StateModel, events: Seq<EventModel>)
    requires
        events.len() > 0,
    ensures
        actions_of(m, s, events) == seq![spec_step(m, s, events[0]).1] + actions_of(
            m,
            spec_step(m, s, events[0]).0,
            events.skip(1),
        ),
{
}

/// A finished run stays finished: once the machine is in `Done` or
/// `Failed`, no further event changes the state, and the driver is never
/// asked to do anything again.
pub proof fn lemma_terminal_state_is_final(m: ModeModel, s: StateModel, events: Seq<EventModel>)
    requires
        is_terminal(s),
    ensures
        run(m, s, events) == s,
        all_stop(actions_of(m, s, events)),
    decreases events.len(),
{
    if events.len() > 0 {
        assert(spec_step(m, s, events[0]).0 == s);
        assert(spec_step(m, s, events[0]).1 == ActionModel::Stop);
        lemma_terminal_state_is_final(m, s, events.skip(1));
        let acts = actions_of(m, s, events);
        let rest = actions_of(m, s, events.skip(1));
        assert forall|i: int| 0 <= i < acts.len() implies acts[i] == ActionModel::Stop by {
            if i == 0 {
                assert(acts[0] == ActionModel::Stop);
            } else {
                assert(acts[i] == rest[i - 1]);
            }
        }
    }
}

/// An unresolvable path fails the whole run with `PathUnavailable`, and
/// the machine never asks the driver to open or decode a file, whatever
/// events follow.
pub proof fn lemma_unresolvable_path_never_decodes(m: ModeModel, events: Seq<EventModel>)
    ensures
        run(m, StateModel::ResolvingPath, seq![EventModel::PathNotResolved] + events)
            == StateModel::Failed(OcrError::PathUnavailable),
        forall|i: int|
            0 <= i < actions_of(m, StateModel::ResolvingPath, seq![EventModel::PathNotResolved] + events).len()
                ==> !(actions_of(
                m,
                StateModel::ResolvingPath,
                seq![EventModel::PathNotResolved] + events,
            )[i] is LoadBitmap),
{
    let evs = seq![EventModel::PathNotResolved] + events;
    let failed = StateModel::Failed(OcrError::PathUnavailable);
    assert(evs[0] == EventModel::PathNotResolved);
    assert(evs.skip(1) =~= events);
    assert(spec_step(m, StateModel::ResolvingPath, evs[0]).0 == failed);
    lemma_terminal_state_is_final(m, failed, events);
    let acts = actions_of(m, StateModel::ResolvingPath, evs);
    let rest = actions_of(m, failed, events);
    assert forall|i: int| 0 <= i < acts.len() implies !(acts[i] is LoadBitmap) by {
        if i == 0 {
            assert(acts[0] == ActionModel::Stop);
        } else {
            assert(acts[i] == rest[i - 1]);
        }
    }
}

/// A file that opens but does not decode fails the run with
/// `DecodeFailed` — never with `PathUnavailable`.
pub proof fn lemma_decode_failure_is_not_path_failure(m: ModeModel, events: Seq<EventModel>)
    ensures
        run(m, StateModel::LoadingBitmap, seq![EventModel::BitmapError] + events)
            == StateModel::Failed(OcrError::DecodeFailed),
        run(m, StateModel::LoadingBitmap, seq![EventModel::BitmapError] + events)
            != StateModel::Failed(OcrError::PathUnavailable),
{
    let evs = seq![EventModel::BitmapError] + events;
    let failed = StateModel::Failed(OcrError::DecodeFailed);
    assert(evs[0] == EventModel::BitmapError);
    assert(evs.skip(1) =~= events);
    assert(spec_step(m, StateModel::LoadingBitmap, evs[0]).0 == failed);
    lemma_terminal_state_is_final(m, failed, events);
}

/// Once the path has resolved, no outcome of the run can be
/// `PathUnavailable`: that failure arises from resolution alone.
pub proof fn lemma_no_path_failure_after_resolution(
    m: ModeModel,
    s: StateModel,
    events: Seq<EventModel>,
)
    requires
        !(s is ResolvingPath),
        s != StateModel::Failed(OcrError::PathUnavailable),
    ensures
        run(m, s, events) != StateModel::Failed(OcrError::PathUnavailable),
    decreases events.len(),
{
    if events.len() > 0 {
        let s1 = spec_step(m, s, events[0]).0;
        assert(!(s1 is ResolvingPath));
        assert(s1 != StateModel::Failed(OcrError::PathUnavailable));
        lemma_no_path_failure_after_resolution(m, s1, events.skip(1));
    }
}

/// In explicit mode, a language tag that no recognizer can be bound to
/// fails the run with `UnsupportedLanguage`, whatever the decoded file
/// was.
pub proof fn lemma_unbindable_tag_is_unsupported(t: Seq<char>, events: Seq<EventModel>)
    ensures
        run(
            ModeModel::Explicit(t),
            StateModel::LoadingBitmap,
            seq![EventModel::BitmapReady, EventModel::RecognizerUnavailable] + events,
        ) == StateModel::Failed(OcrError::UnsupportedLanguage),
{
    let m = ModeModel::Explicit(t);
    let evs = seq![EventModel::BitmapReady, EventModel::RecognizerUnavailable] + events;
    let evs1 = evs.skip(1);
    let failed = StateModel::Failed(OcrError::UnsupportedLanguage);
    assert(evs[0] == EventModel::BitmapReady);
    assert(evs1[0] == EventModel::RecognizerUnavailable);
    assert(evs1.skip(1) =~= events);
    lemma_run_unfold(m, StateModel::LoadingBitmap, evs);
    assert(spec_step(m, StateModel::LoadingBitmap, evs[0]).0 == StateModel::CreatingRecognizer);
    lemma_run_unfold(m, StateModel::CreatingRecognizer, evs1);
    assert(spec_step(m, StateModel::CreatingRecognizer, evs1[0]).0 == failed);
    lemma_terminal_state_is_final(m, failed, evs1.skip(1));
}

/// In automatic mode, an empty platform language list fails the run with
/// `NoLanguageAvailable`.
pub proof fn lemma_empty_language_list_fails(events: Seq<EventModel>)
    ensures
        run(
            ModeModel::Auto,
            StateModel::LoadingBitmap,
            seq![EventModel::BitmapReady, EventModel::LanguagesListed(Seq::empty())] + events,
        ) == StateModel::Failed(OcrError::NoLanguageAvailable),
{
    let m = ModeModel::Auto;
    let evs = seq![EventModel::BitmapReady, EventModel::LanguagesListed(Seq::empty())] + events;
    let evs1 = evs.skip(1);
    let failed = StateModel::Failed(OcrError::NoLanguageAvailable);
    assert(evs[0] == EventModel::BitmapReady);
    assert(evs1[0] == EventModel::LanguagesListed(Seq::empty()));
    assert(evs1.skip(1) =~= events);
    lemma_run_unfold(m, StateModel::LoadingBitmap, evs);
    assert(spec_step(m, StateModel::LoadingBitmap, evs[0]).0 == StateModel::ListingLanguages);
    lemma_run_unfold(m, StateModel::ListingLanguages, evs1);
    assert(spec_step(m, StateModel::ListingLanguages, evs1[0]).0 == failed);
    lemma_terminal_state_is_final(m, failed, evs1.skip(1));
}

/// The machine holds no hidden state: the outcome of a run is a function
/// of the mode, the starting state, and the events alone, so two runs over
/// the same events end in the same state and ask for the same actions.
pub proof fn lemma_runs_agree(
    m: ModeModel,
    s: StateModel,
    events1: Seq<EventModel>,
    events2: Seq<EventModel>,
)
    requires
        events1 =~= events2,
    ensures
        run(m, s, events1) == run(m, s, events2),
        actions_of(m, s, events1) == actions_of(m, s, events2),
{
}

/// A run begun from a path whose resolution and decode succeed continues
/// exactly as a run begun from the already-decoded bitmap: the path-based
/// entry is the composition of decoding with the bitmap-based entry.
pub proof fn lemma_path_run_matches_bitmap_run(m: ModeModel, p: Seq<char>, events: Seq<EventModel>)
    ensures
        run(
            m,
            StateModel::ResolvingPath,
            seq![EventModel::PathResolved(p), EventModel::BitmapReady] + events,
        ) == run(m, language_entry(m).0, events),
{
    let evs = seq![EventModel::PathResolved(p), EventModel::BitmapReady] + events;
    let evs1 = evs.skip(1);
    assert(evs[0] == EventModel::PathResolved(p));
    assert(evs1[0] == EventModel::BitmapReady);
    assert(evs1.skip(1) =~= events);
    lemma_run_unfold(m, StateModel::ResolvingPath, evs);
    assert(spec_step(m, StateModel::ResolvingPath, evs[0]).0 == StateModel::LoadingBitmap);
    lemma_run_unfold(m, StateModel::LoadingBitmap, evs1);
    assert(spec_step(m, StateModel::LoadingBitmap, evs1[0]).0 == language_entry(m).0);
}

/// A fully successful run returns exactly the text the platform
/// recognized, unmodified: in automatic mode with a non-empty language
/// list, and in explicit mode, the run ends `Done` with that text.
pub proof fn lemma_success_returns_platform_text(
    m: ModeModel,
    tags: Seq<Seq<char>>,
    text: Seq<char>,
)
    requires
        tags.len() > 0,
    ensures
        run(
            ModeModel::Auto,
            StateModel::ListingLanguages,
            seq![
                EventModel::LanguagesListed(tags),
                EventModel::RecognizerReady,
                EventModel::TextRecognized(text),
            ],
        ) == StateModel::Done(text),
        run(
            m,
            StateModel::CreatingRecognizer,
            seq![EventModel::RecognizerReady, EventModel::TextRecognized(text)],
        ) == StateModel::Done(text),
{
    let evs = seq![
        EventModel::LanguagesListed(tags),
        EventModel::RecognizerReady,
        EventModel::TextRecognized(text),
    ];
    let evs1 = evs.skip(1);
    let evs2 = evs1.skip(1);
    assert(evs[0] == EventModel::LanguagesListed(tags));
    assert(evs1[0] == EventModel::RecognizerReady);
    assert(evs2[0] == EventModel::TextRecognized(text));
    assert(evs2.skip(1) =~= Seq::<EventModel>::empty());
    lemma_run_unfold(ModeModel::Auto, StateModel::ListingLanguages, evs);
    assert(spec_step(ModeModel::Auto, StateModel::ListingLanguages, evs[0]).0
        == StateModel::CreatingRecognizer);
    lemma_run_unfold(ModeModel::Auto, StateModel::CreatingRecognizer, evs1);
    assert(spec_step(ModeModel::Auto, StateModel::CreatingRecognizer, evs1[0]).0
        == StateModel::Recognizing);
    lemma_run_unfold(ModeModel::Auto, StateModel::Recognizing, evs2);
    assert(spec_step(ModeModel::Auto, StateModel::Recognizing, evs2[0]).0
        == StateModel::Done(text));
    let short = seq![EventModel::RecognizerReady, EventModel::TextRecognized(text)];
    let short1 = short.skip(1);
    assert(short[0] == EventModel::RecognizerReady);
    assert(short1[0] == EventModel::TextRecognized(text));
    assert(short1.skip(1) =~= Seq::<EventModel>::empty());
    lemma_run_unfold(m, StateModel::CreatingRecognizer, short);
    assert(spec_step(m, StateModel::CreatingRecognizer, short[0]).0 == StateModel::Recognizing);
    lemma_run_unfold(m, StateModel::Recognizing, short1);
    assert(spec_step(m, StateModel::Recognizing, short1[0]).0 == StateModel::Done(text));
}

} // verus!
