//! Where success is owed, and how a refusal reads.
use vstd::prelude::*;

use crate::ax::minimized_recovery;
use crate::ax::minimized_recovery::{RecoveryFailure, RecoveryRun};
use crate::ax::bindings::AxCfRange;
use crate::ax::tree_observation::{TreeEvent, TreeObservation};
use crate::ax::tree_provider;
use crate::ax::tree_provider::{
    MacAxTreeProvider, ObserverState, TreeRequest, TreeWalkResult,
};
use crate::contracts;
use crate::contracts::{
    CapabilityCell, Framework, SettlementSignal, SurfaceKind, VerificationLevel, WindowStateKind,
};
use crate::driver::actions::keyboard;
use crate::driver::actions::keyboard::MacKeyboardEventTarget;
use crate::driver::actions::NativeDispatch;
use crate::driver::observation;
use crate::driver::observation::{AttemptError, MacWindowFacts};
use crate::driver::snapshot;
use crate::driver::actions::pointer;
use crate::driver::actions::pointer_dispatch::{PointerDispatch, PointerEvent};
use crate::driver::actions::selection;
use crate::driver::actions::selection::SelectionSpec;
use crate::driver::actions::semantic;
use crate::driver::actions::semantic::ApplicationWindow;
use crate::driver::attempt::{CapturedSurface, Publication};
use crate::driver::frames::{CaptureFreshness, FrameRefusal};
use crate::driver::interaction;
use crate::driver::interaction::MenuMutationIntent;
use crate::driver::menu::MenuSuppressionPlan;
use crate::driver::posture;
use crate::driver::posture::FocusStreamFacts;
use crate::driver::snapshot::{
    AxWalk, RawAxNode, RawAxSnapshot, RawRelatedWindow, RetainedAxElement, WatchClass,
};
use crate::driver::target;
use crate::driver::target::MacTargetState;
use crate::errors::{ErrorCode, ErrorPhase, NativeError};
use crate::evidence;
use crate::text;

verus! {

/// A selection that stands in one place and fits is found; one that stands nowhere is
/// stale, and one that stands in several places is ambiguous.
pub proof fn a_selection_in_one_place_is_found(
    document: &str,
    spec: &SelectionSpec,
    range: Result<AxCfRange, NativeError>,
    at: int,
    other: int,
)
    requires
        call_ensures(selection::resolve_selection_range, (document, spec), range),
        selection::selects(document@, *spec, at),
    ensures
        (forall|k: int| #[trigger] selection::selects(document@, *spec, k) ==> k == at)
            && text::utf16_len(document@) + text::utf16_len(spec.text@) <= isize::MAX
            ==> range is Ok,
        other != at && selection::selects(document@, *spec, other) ==> range is Err
            && range->Err_0.code == ErrorCode::InvalidRequest && !range->Err_0.retryable,
{
    if range is Err {
        assert(range->Err_0@.code == range->Err_0.code);
    }
    if forall|k: int| #[trigger] selection::selects(document@, *spec, k) ==> k == at {
        units_before_are_no_more(document@, at);
        units_before_are_no_more(document@, at + spec.text@.len());
        if range is Err && text::utf16_len(document@) + text::utf16_len(spec.text@) <= isize::MAX {
            assert(selection::selection_location(document@, *spec, at) <= text::utf16_len(
                document@,
            ));
            assert(selection::selection_length(*spec) <= text::utf16_len(spec.text@));
            assert(selection::representable(document@, *spec, at));
            assert(!(exists|left: int, right: int|
                left != right && #[trigger] selection::selects(document@, *spec, left)
                    && #[trigger] selection::selects(document@, *spec, right)));
            let place = choose|place: int| #[trigger]
                selection::only_place(document@, *spec, place) && !selection::representable(
                    document@,
                    *spec,
                    place,
                );
            assert(selection::selects(document@, *spec, place));
            assert(place == at);
        }
    }
}

proof fn units_before_are_no_more(source: Seq<char>, at: int)
    ensures
        0 <= at <= source.len() ==> text::utf16_len(source.take(at)) <= text::utf16_len(source),
    decreases source.len(),
{
    if 0 <= at < source.len() {
        units_before_are_no_more(source.drop_last(), at);
        assert(source.drop_last().take(at) =~= source.take(at));
    } else if at == source.len() {
        assert(source.take(at) =~= source);
    }
}

/// A selection that stands nowhere is stale.
pub proof fn a_selection_that_stands_nowhere_is_stale(
    document: &str,
    spec: &SelectionSpec,
    range: Result<AxCfRange, NativeError>,
)
    requires
        call_ensures(selection::resolve_selection_range, (document, spec), range),
        spec.text@.len() > document@.len(),
    ensures
        range is Err && range->Err_0.code == ErrorCode::ElementStale && range->Err_0.retryable,
{
    assert forall|k: int| !#[trigger] selection::selects(document@, *spec, k) by {}
    if range is Err {
        assert(range->Err_0@.code == range->Err_0.code);
    }
}

/// A suppression is planned where the menu is of the live process and is asked for.
pub proof fn a_suppression_is_refused_across_processes(
    intent: &Option<MenuMutationIntent>,
    pid: i32,
    process: &str,
    action_id: &str,
    required: bool,
    outcome: Result<MenuSuppressionPlan, NativeError>,
)
    requires
        call_ensures(
            interaction::plan_menu_suppression,
            (intent, pid, process, action_id, required),
            outcome,
        ),
    ensures
        *intent is Some && intent->0 is Targeting && intent->0->Targeting_identity.process@
            != process@ ==> outcome is Err && outcome->Err_0.code
            == ErrorCode::UnsupportedInBackground && !outcome->Err_0.retryable,
        *intent is None && !required ==> outcome is Ok,
        *intent is Some && intent->0 is Opening && required ==> outcome is Ok,
        *intent is None && required ==> outcome is Err && outcome->Err_0.code
            == ErrorCode::Internal,
{
    if outcome is Err {
        assert(outcome->Err_0@.code == outcome->Err_0.code);
    }
}

/// A focus stream is taken whole, or the posture cannot be verified.
pub proof fn a_focus_stream_is_taken_whole(facts: FocusStreamFacts, outcome: Result<(), NativeError>)
    requires
        call_ensures(posture::admit_focus_stream, (facts,), outcome),
    ensures
        outcome is Ok <==> facts.application && facts.create_status == 0 && facts.created
            && facts.registered == 2 && facts.source,
        outcome is Err ==> outcome->Err_0.code == ErrorCode::PostureUnverifiable
            && outcome->Err_0.phase == ErrorPhase::Preflight && outcome->Err_0.retryable,
{
    if outcome is Err {
        assert(outcome->Err_0@.code == outcome->Err_0.code);
    }
}

/// A window that is not found again is stale.
pub proof fn a_window_that_is_not_found_again_is_stale(
    available: bool,
    windows: &Vec<ApplicationWindow>,
    window_id: u32,
    window: Result<RetainedAxElement, NativeError>,
)
    requires
        call_ensures(semantic::exact_ax_window, (available, windows, window_id), window),
    ensures
        !available ==> window is Err,
        window is Err ==> window->Err_0.code == ErrorCode::ElementStale && window->Err_0.retryable,
{
    if window is Err {
        assert(window->Err_0@.code == window->Err_0.code);
    }
}

/// A menu that did not do as expected is stale, and something was done.
pub proof fn a_menu_that_did_not_follow_is_stale(
    found: bool,
    now: u64,
    deadline: u64,
    opened: Result<bool, NativeError>,
    dismissed: Result<bool, NativeError>,
)
    requires
        call_ensures(pointer::wait_for_opened_menu, (found, now, deadline), opened),
        call_ensures(pointer::wait_for_dismissed_menu, (found, now, deadline), dismissed),
    ensures
        opened is Err ==> opened->Err_0.code == ErrorCode::MenuStateStale
            && opened->Err_0@.details["native_side_effect_started"@] == evidence::DetailView::Bool(
            true,
        ),
        dismissed is Err ==> dismissed->Err_0.code == ErrorCode::MenuStateStale
            && dismissed->Err_0@.details["native_side_effect_started"@]
            == evidence::DetailView::Bool(true),
{
    if opened is Err {
        assert(opened->Err_0@.code == opened->Err_0.code);
    }
    if dismissed is Err {
        assert(dismissed->Err_0@.code == dismissed->Err_0.code);
    }
}

/// A write that was refused failed at its dispatch.
pub proof fn a_refused_write_failed_at_its_dispatch(
    pid: i32,
    window: u32,
    status: i32,
    outcome: Result<(), RecoveryFailure>,
    run: RecoveryRun,
)
    requires
        call_ensures(minimized_recovery::recovery_write_outcome, (pid, window, status), outcome),
        call_ensures(RecoveryRun::begin, (pid, window), run),
    ensures
        outcome is Err ==> outcome->Err_0.code@ == "dispatch_failed"@ && outcome->Err_0.phase@
            == "dispatch"@,
        run@.stage is Preflight && !run@.write_started && run@.result is None,
        run@.pid == pid && run@.window_id == window,
{
    if outcome is Err {
        assert(outcome->Err_0@.code == outcome->Err_0.code@);
    }
}

/// A surface changes nothing else of a publication or of its target.
pub proof fn a_surface_changes_nothing_else(
    publication: &mut Publication,
    target: &mut MacTargetState,
    capture: &CapturedSurface,
    outcome: Result<CaptureFreshness, FrameRefusal>,
)
    requires
        call_ensures(Publication::surface, (publication, target, capture), outcome),
    ensures
        final(publication).epoch == old(publication).epoch,
        final(publication).window == old(publication).window,
        final(publication).accessibility == old(publication).accessibility,
        final(target).elements == old(target).elements,
        final(target).signals == old(target).signals,
        final(target).observing == old(target).observing,
{
}

/// A notification names its element, unless that element is new; only a change of one
/// element keeps a reference to it.
pub proof fn a_notification_names_its_element(
    state: &mut ObserverState,
    name: &str,
    hash: usize,
    reference: usize,
)
    requires
        call_ensures(ObserverState::record, (state, name, Some((hash, reference))), ()),
        old(state).wf(),
        old(state).epoch < u64::MAX,
    ensures
        name@ == "AXCreated"@ ==> final(state).events@.last().render_id is None,
        name@ != "AXCreated"@ ==> final(state).events@.last().render_id == Some(hash),
        final(state).events@.last().kind is Targeted ==> final(state).events@.last().element_ptr
            == reference,
        !(final(state).events@.last().kind is Targeted)
            ==> final(state).events@.last().element_ptr == 0,
{
}

/// Where no button is down, a failed post needs no cleanup.
pub proof fn a_failed_post_without_a_button_needs_no_cleanup(
    run: &mut PointerDispatch,
    error: NativeError,
    signals: Vec<SettlementSignal>,
)
    requires
        call_ensures(
            PointerDispatch::advance,
            (
                run,
                PointerEvent::Posted {
                    outcome: Err::<(), NativeError>(error),
                    boundary_started: false,
                },
            ),
            signals,
        ),
        old(run)@.wf(),
        old(run).stage is Post,
        old(run)@.completed() == 0,
    ensures
        final(run)@.stage is Done,
        !final(run)@.run.evidence.cleanup_attempted,
        final(run)@.run.evidence.cleanup_succeeded,
        !final(run)@.run.evidence.may_have_partially_landed,
        !final(run)@.invalidates_target,
        final(run)@.result->0->Err_0.retryable == error.retryable,
{
}

/// A tree is refreshed where no structural change touched it and nothing moved
/// meanwhile; else it is walked.
pub proof fn a_tree_is_refreshed_or_walked(
    observation: &mut TreeObservation,
    provider: &mut MacAxTreeProvider,
    tree: TreeWalkResult,
    refreshed: Vec<bool>,
    epoch: u64,
    borrow: u64,
    i: int,
)
    requires
        call_ensures(
            TreeObservation::advance,
            (
                observation,
                provider,
                TreeEvent::Refreshed {
                    tree,
                    refreshed,
                    observer_epoch: epoch,
                    action_borrow_epoch: borrow,
                },
            ),
            (),
        ),
        old(observation).wf(),
        old(observation).stage is Refresh,
    ensures
        final(observation)@.served is Some ==> epoch
            == old(observation).stage->Refresh_through_epoch && borrow
            == old(observation)@.action_borrow_epoch && !tree_provider::any_resync(
            old(observation)@.tree->0.result.nodes,
            old(observation)@.dirty,
        ),
        final(observation)@.served is Some && 0 <= i < refreshed@.len() ==> refreshed@[i],
        final(observation)@.served is None ==> final(observation)@.stage is Walk
            && final(observation)@.tree is None,
        final(observation)@.served is Some ==> final(observation)@.served->0.result.nodes
            == tree@.nodes && final(observation)@.served->0.result.tree_markdown
            == tree@.tree_markdown,
        final(observation)@.served is Some ==> (final(observation)@.served->0.cache_status
            == "targeted_refetch"@ || refreshed@.len() == 0),
{
}

/// A walk that was followed is kept under the epoch it was followed to, where all of
/// it was.
pub proof fn a_followed_walk_is_kept_where_all_was_followed(
    observation: &mut TreeObservation,
    provider: &mut MacAxTreeProvider,
    tree: TreeWalkResult,
    refreshed: Vec<bool>,
    epoch: u64,
    i: int,
)
    requires
        call_ensures(
            TreeObservation::advance,
            (
                observation,
                provider,
                TreeEvent::Followed { tree, refreshed, observer_epoch: epoch },
            ),
            (),
        ),
        old(observation).wf(),
        old(observation).stage is Follow,
    ensures
        final(observation)@.stage is Update,
        final(observation)@.cache_epoch is Some ==> final(observation)@.cache_epoch->0 == epoch
            && epoch == old(observation).stage->Follow_through_epoch
            && !tree_provider::any_resync(
            old(observation)@.tree->0.result.nodes,
            old(observation)@.dirty,
        ),
        final(observation)@.cache_epoch is Some && 0 <= i < refreshed@.len() ==> refreshed@[i],
        final(observation)@.tree is Some && final(observation)@.tree->0.result.nodes == tree@.nodes,
{
}

/// A tree from the cache is looked at only where it may be used again and nothing was
/// borrowed since; else the window is walked.
pub proof fn an_observation_starts_with_the_cache_or_a_walk(
    provider: &MacAxTreeProvider,
    request: TreeRequest,
    observer: &Option<ObserverState>,
    reliable: bool,
    borrow: u64,
    observation: TreeObservation,
)
    requires
        call_ensures(
            TreeObservation::begin,
            (provider, request, observer, reliable, borrow),
            observation,
        ),
    ensures
        !request.allow_cache_reuse || *observer is None || !reliable
            ==> observation@.stage is Walk && observation@.tree is None,
        !provider@.contains_key((request.pid, request.window_id)) ==> observation@.stage is Walk,
        observation@.stage is Confirm ==> observation@.tree is Some
            && observation@.tree->0.observer_epoch == observer->0.epoch
            && observation@.tree->0.action_borrow_epoch == borrow,
        !(observation@.stage is Walk) ==> observation@.tree == Some(
            provider@[(request.pid, request.window_id)],
        ),
        observation@.served is None,
        observation@.request == request,
{
}

/// A related window has a surface where it is on the screen and was seen; else it is
/// told why.
pub proof fn a_related_window_on_the_screen_has_a_surface(
    registered: &Vec<MacWindowFacts>,
    related: &Vec<RawRelatedWindow>,
    kinds: Result<Vec<SurfaceKind>, NativeError>,
)
    requires
        call_ensures(observation::related_surfaces, (registered, related), kinds),
        registered@.len() == 1,
    ensures
        !registered@[0].is_on_screen ==> kinds is Err && kinds->Err_0.code
            == ErrorCode::UnsupportedInBackground,
        registered@[0].is_on_screen && related@.len() == 0 ==> kinds is Err && kinds->Err_0.code
            == ErrorCode::SurfaceStale,
        registered@[0].is_on_screen && related@.len() > 0 && related@.last().window_id
            == registered@[0].cg_window_id ==> kinds is Ok,
{
    let views = observation::facts_view(registered@);
    assert(views.len() == 1);
    assert(views[0] == registered@[0]@);
    assert(views.last() == views[0]);
    assert(views.drop_last() =~= Seq::empty());
    reveal_with_fuel(observation::surface_refusal, 3);
    if kinds is Err {
        assert(kinds->Err_0@.code == kinds->Err_0.code);
    }
}

/// No related windows have no surfaces, and nothing is wrong with that.
pub proof fn no_related_windows_have_no_surfaces(
    registered: &Vec<MacWindowFacts>,
    related: &Vec<RawRelatedWindow>,
    kinds: Result<Vec<SurfaceKind>, NativeError>,
)
    requires
        call_ensures(observation::related_surfaces, (registered, related), kinds),
        registered@.len() == 0,
    ensures
        kinds is Ok && kinds->Ok_0@.len() == 0,
{
    assert(observation::facts_view(registered@).len() == 0);
}

/// Texts, text areas, web areas and documents make up the document text, in order, with
/// the values they have; nothing else does.
pub proof fn a_document_is_made_of_its_texts(
    nodes: Seq<snapshot::NodeView>,
    node: snapshot::NodeView,
)
    ensures
        snapshot::document_values(Seq::<snapshot::NodeView>::empty()).len() == 0,
        (node.role == "AXStaticText"@ || node.role == "AXTextArea"@ || node.role == "AXWebArea"@
            || node.role == "AXDocument"@) && node.value is Some ==> snapshot::document_values(
            nodes.push(node),
        ) == snapshot::document_values(nodes).push(node.value->0),
        node.value is None ==> snapshot::document_values(nodes.push(node))
            == snapshot::document_values(nodes),
        node.role != "AXStaticText"@ && node.role != "AXTextArea"@ && node.role != "AXWebArea"@
            && node.role != "AXDocument"@ ==> snapshot::document_values(nodes.push(node))
            == snapshot::document_values(nodes),
{
    assert(nodes.push(node).drop_last() =~= nodes);
}

/// Elements that can be edited or are selected are watched before containers, and
/// those before any others.
pub proof fn elements_are_watched_by_class(node: snapshot::NodeView)
    ensures
        WatchClass::Any.covers(node),
        WatchClass::Editable.covers(node) <==> node.selected || node.value_settable == Some(true)
            || node.selected_text_settable == Some(true) || node.selected_text_range_settable
            == Some(true),
        node.role == "AXWindow"@ || node.role == "AXMenu"@ || node.role == "AXScrollArea"@
            || node.role == "AXScrollBar"@ || node.role == "AXTextArea"@ || node.role
            == "AXTextField"@ <==> WatchClass::Container.covers(node),
{
}

/// Typing and keys are told of for every framework and every state of a window.
pub proof fn every_use_of_keys_is_told_of(
    os_version: &str,
    cells: Vec<CapabilityCell>,
    framework: Framework,
    types: bool,
    state: WindowStateKind,
)
    requires
        call_ensures(keyboard::keyboard_capability_cells, (os_version,), cells),
    ensures
        exists|i: int|
            #![trigger cells@[i]]
            0 <= i < cells@.len() && cells@[i]@.framework == framework && (
            cells@[i]@.action is TypeText <==> types) && cells@[i]@.window_state == state,
{
    let views = contracts::cells_view(cells@);
    assert(views.len() == cells@.len());
    let f: int = match framework {
        Framework::Unknown => 0,
        Framework::AppKit => 1,
        Framework::Chromium => 2,
        Framework::WebKit => 3,
        Framework::Electron => 4,
        Framework::Catalyst => 5,
    };
    let s: int = crate::laws::capabilities::state_place(state);
    let i = 10 * f + 2 * s + if types {
        0int
    } else {
        1int
    };
    assert(i / 10 == f && (i / 2) % 5 == s && (i % 2 == 0 <==> types));
    assert(views[i] == cells@[i]@);
}

/// An insertion that was seen tells how many units it has.
pub proof fn a_seen_insertion_tells_its_units(
    target: &MacKeyboardEventTarget,
    inserted: &str,
    readback: Result<bool, NativeError>,
    outcome: (Result<NativeDispatch, NativeError>, Option<SettlementSignal>),
)
    requires
        call_ensures(
            keyboard::finish_semantic_insertion,
            (target, inserted, readback),
            outcome,
        ),
    ensures
        outcome.0 is Ok ==> outcome.0->Ok_0@.fields["inserted_utf16_units"@]
            == evidence::DetailView::Int(text::utf16_len(inserted@) as int),
        outcome.0 is Ok ==> outcome.0->Ok_0@.verification == VerificationLevel::EffectVerified,
        readback is Ok && !readback->Ok_0 ==> outcome.0 is Err && outcome.0->Err_0.code
            == ErrorCode::VerificationFailed && outcome.0->Err_0.phase == ErrorPhase::Verify
            && outcome.0->Err_0.retryable,
{
    if outcome.0 is Err {
        assert(outcome.0->Err_0@.code == outcome.0->Err_0.code);
    }
}

/// A menu that did not open in time is stale, and something was done.
pub proof fn a_menu_that_did_not_open_is_stale(
    found: bool,
    now: u64,
    deadline: u64,
    opened: Result<bool, NativeError>,
)
    requires
        call_ensures(semantic::wait_for_opened_menu, (found, now, deadline), opened),
    ensures
        opened is Err <==> !found && now >= deadline,
        opened is Err ==> opened->Err_0.code == ErrorCode::MenuStateStale
            && opened->Err_0@.details["native_side_effect_started"@] == evidence::DetailView::Bool(
            true,
        ),
{
    if opened is Err {
        assert(opened->Err_0@.code == opened->Err_0.code);
    }
}

/// A lost race says where it was lost.
pub proof fn a_lost_race_says_where(
    error: NativeError,
    attempt: AttemptError,
    before: &RawAxSnapshot,
    after: &RawAxSnapshot,
    outcome: Result<(), AttemptError>,
)
    requires
        call_ensures(observation::classify_stamp_error, (error,), attempt),
        call_ensures(observation::revalidate_related_identities, (before, after), outcome),
    ensures
        attempt is Raced ==> attempt->stage@ == "window_registry_identity_revalidation"@,
        outcome is Err ==> outcome->Err_0 is Raced && outcome->Err_0->stage@
            == "related_ax_identity_revalidation"@,
{
    if attempt is Raced {
        assert(attempt@ is Raced);
    }
    if outcome is Err {
        assert(outcome->Err_0@ is Raced);
    }
}

/// The text of a longer walk is that of the shorter one, and the last text on a line of
/// its own below it.
pub proof fn a_document_is_read_line_by_line(
    shorter: AxWalk,
    longer: AxWalk,
    node: RawAxNode,
    first: Result<RawAxSnapshot, NativeError>,
    second: Result<RawAxSnapshot, NativeError>,
)
    requires
        call_ensures(
            AxWalk::finish,
            (shorter, None::<RetainedAxElement>, None::<String>, true),
            first,
        ),
        call_ensures(
            AxWalk::finish,
            (longer, None::<RetainedAxElement>, None::<String>, true),
            second,
        ),
        first is Ok && second is Ok,
        longer.nodes@ == shorter.nodes@.push(node),
        node.role@ == "AXStaticText"@,
        node.value is Some,
    ensures
        first->Ok_0.document_text->0@.len() > 0 ==> second->Ok_0.document_text->0@
            == first->Ok_0.document_text->0@ + "\n"@ + node.value->0@,
        shorter.nodes@.len() == 0 ==> second->Ok_0.document_text->0@ == node.value->0@,
{
    let before = snapshot::nodes_view(shorter.nodes@);
    let after = snapshot::nodes_view(longer.nodes@);
    assert(after =~= before.push(node@));
    a_document_is_made_of_its_texts(before, node@);
    let values = snapshot::document_values(before);
    assert(values.push(node.value->0@).drop_last() =~= values);
    if shorter.nodes@.len() == 0 {
        assert(before =~= Seq::empty());
        assert(values.len() == 0);
        assert(values.push(node.value->0@) =~= seq![node.value->0@]);
    }
    assert(text::optional_text(first->Ok_0.document_text) is Some);
    assert(text::optional_text(second->Ok_0.document_text) is Some);
}

} // verus!
