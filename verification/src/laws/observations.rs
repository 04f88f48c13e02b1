//! What an observation holds, and when it is published.
use vstd::prelude::*;

use crate::contracts::{ResolvedWindowStamp, SettlementSignal, SurfaceKind};
use crate::driver::observation;
use crate::driver::observation::{
    AttemptError, Bracket, MacWindowFacts, ObservationLoop, ResolvedWindow, SettleProbe,
    SurfaceGeometry, SurfaceScaling, TargetSettle,
};
use crate::driver::frames::{WindowFrameEvidence, WindowFrameMetadata};
use crate::driver::observer;
use crate::driver::observer::{AxObserverRun, Handshake, ObserverReport};
use crate::driver::settlement::SettleStep;
use crate::driver::snapshot;
use crate::driver::snapshot::{AxWalk, ElementFacts, RawAxSnapshot, RetainedAxElement, ValueRead};
use crate::errors::{ErrorCode, NativeError};
use crate::text;

verus! {

/// A node says what was read of its element: its role, subrole and orientation, the
/// first of title and description that is not blank as its label, its text as its
/// value, or the placeholder where it has no text.
pub proof fn a_recorded_node_says_what_was_read(
    walk: &mut AxWalk,
    facts: ElementFacts,
    children: &Vec<RetainedAxElement>,
)
    requires
        call_ensures(AxWalk::record, (walk, facts, children), ()),
        old(walk).current is Some,
    ensures
        final(walk).nodes@.len() == old(walk).nodes@.len() + 1,
        ({
            let node = final(walk).nodes@.last()@;
            let frame = old(walk).current->0;
            &&& node.element == frame.element.identity
            &&& node.depth == frame.depth
            &&& node.role == if facts.role is Some {
                facts.role->0@
            } else {
                "AXUnknown"@
            }
            &&& node.role_proven <==> facts.role is Some
            &&& node.subrole == text::optional_text(facts.subrole)
            &&& node.orientation == text::optional_text(facts.orientation)
            &&& facts.title is Some && !text::blank(facts.title->0@) ==> node.label == Some(
                facts.title->0@,
            )
            &&& (facts.title is None || text::blank(facts.title->0@)) && facts.description is Some
                && !text::blank(facts.description->0@) ==> node.label == Some(
                facts.description->0@,
            )
            &&& node.label is Some ==> !text::blank(node.label->0)
            &&& facts.value matches ValueRead::Present { proof, text: Some(value) } ==> node.value
                == Some(value@) && node.string_value == Some(value@)
            &&& !(facts.value matches ValueRead::Present { proof, text: Some(_) }) ==> node.value
                == text::optional_text(facts.placeholder) && node.string_value is None
            &&& node.bounds == facts.bounds
            &&& node.selected <==> facts.selected == Some(true)
            &&& facts.actions is Some ==> node.actions == text::texts(facts.actions->0@)
            &&& facts.actions is None ==> node.actions.len() == 0 && !node.actions_proven
        }),
{
}

/// The children of a node are read next, below it, first child first.
pub proof fn children_are_read_below_their_parent(
    walk: &mut AxWalk,
    facts: ElementFacts,
    children: &Vec<RetainedAxElement>,
)
    requires
        call_ensures(AxWalk::record, (walk, facts, children), ()),
        old(walk).wf(),
        old(walk).current is Some,
        old(walk).nodes@.len() + 1 < 2_000,
        children@.len() > 0,
    ensures
        final(walk).pending@.len() == old(walk).pending@.len() + children@.len(),
        final(walk).pending@.last().element == children@[0],
        final(walk).pending@.last().parent == Some(old(walk).current->0.element),
        final(walk).pending@.last().depth == old(walk).current->0.depth + 1,
        final(walk).truncated == old(walk).truncated,
{
}

/// A transient that is a window of its own owns what lies below it; everything else
/// belongs to the window around it.
pub proof fn transients_own_what_lies_below(
    native: Option<u32>,
    transient: Option<SurfaceKind>,
    target: u32,
    inherited: u32,
    owner: u32,
)
    requires
        call_ensures(
            snapshot::structural_owner_window_id,
            (native, transient, target, inherited),
            owner,
        ),
    ensures
        native is Some && transient is Some && native->0 != target ==> owner == native->0,
        native is None || transient is None || native->0 == target ==> owner == inherited,
{
}

/// Menus, popovers and sheets are transients, each of its own kind.
pub proof fn transients_are_menus_popovers_and_sheets(role: &str, kind: Option<SurfaceKind>)
    requires
        call_ensures(snapshot::transient_kind, (role,), kind),
    ensures
        kind == Some(SurfaceKind::Menu) <==> role@ == "AXMenu"@,
        kind == Some(SurfaceKind::Popover) <==> role@ == "AXPopover"@,
        kind == Some(SurfaceKind::Sheet) <==> role@ == "AXSheet"@,
{
    reveal_strlit("AXMenu");
    reveal_strlit("AXPopover");
    reveal_strlit("AXSheet");
    assert("AXMenu"@.len() == 6);
    assert("AXPopover"@.len() == 9);
    assert("AXSheet"@.len() == 7);
}

/// A snapshot holds what was walked; its focus is one of its elements, or none; its
/// selected text goes with the focus; its text is there exactly where it was asked
/// for.
pub proof fn a_snapshot_holds_what_was_walked(
    walk: AxWalk,
    focused: Option<RetainedAxElement>,
    selected_text: Option<String>,
    include_text: bool,
    snapshot: Result<RawAxSnapshot, NativeError>,
)
    requires
        call_ensures(AxWalk::finish, (walk, focused, selected_text, include_text), snapshot),
        snapshot is Ok,
    ensures
        snapshot->Ok_0.nodes == walk.nodes,
        snapshot->Ok_0.truncated == walk.truncated,
        snapshot->Ok_0.related_windows == walk.related_windows,
        snapshot->Ok_0.focused is Some ==> snapshot->Ok_0.focused == focused && exists|i: int|
            0 <= i < walk.nodes@.len() && (#[trigger] walk.nodes@[i]).element.identity
                == focused->0.identity,
        focused is Some && (exists|i: int|
            0 <= i < walk.nodes@.len() && (#[trigger] walk.nodes@[i]).element.identity
                == focused->0.identity) ==> snapshot->Ok_0.focused == focused
            && text::optional_text(snapshot->Ok_0.selected_text) == text::optional_text(
            selected_text,
        ),
        snapshot->Ok_0.focused is None ==> snapshot->Ok_0.selected_text is None,
        snapshot->Ok_0.document_text is Some <==> include_text,
{
    let nodes = snapshot::nodes_view(walk.nodes@);
    assert(nodes.len() == walk.nodes@.len());
    if focused is Some && snapshot::among(nodes, focused->0.identity) {
        let i = choose|i: int|
            0 <= i < nodes.len() && (#[trigger] nodes[i]).element == focused->0.identity;
        assert(walk.nodes@[i].element.identity == focused->0.identity);
    }
    if focused is Some && exists|i: int|
        0 <= i < walk.nodes@.len() && (#[trigger] walk.nodes@[i]).element.identity
            == focused->0.identity {
        let i = choose|i: int|
            0 <= i < walk.nodes@.len() && (#[trigger] walk.nodes@[i]).element.identity
                == focused->0.identity;
        assert(nodes[i].element == focused->0.identity);
    }
}

/// A tree that holds nothing but a bare window was not built yet.
pub proof fn a_bare_window_is_no_tree(
    walk: AxWalk,
    focused: Option<RetainedAxElement>,
    selected_text: Option<String>,
    include_text: bool,
    snapshot: Result<RawAxSnapshot, NativeError>,
)
    requires
        call_ensures(AxWalk::finish, (walk, focused, selected_text, include_text), snapshot),
    ensures
        snapshot is Err <==> walk.nodes@.len() == 1 && walk.nodes@[0]@.role == "AXWindow"@
            && walk.nodes@[0]@.actions.len() == 0 && walk.nodes@[0]@.value is None,
{
    let nodes = snapshot::nodes_view(walk.nodes@);
    assert(nodes.len() == walk.nodes@.len());
    if walk.nodes@.len() == 1 {
        assert(nodes[0] == walk.nodes@[0]@);
    }
}

/// Two snapshots differ for their readers exactly where their contents do.
pub proof fn snapshots_differ_where_their_contents_do(
    left: &RawAxSnapshot,
    right: &RawAxSnapshot,
    difference: Option<&'static str>,
)
    requires
        call_ensures(snapshot::ax_snapshot_contract_difference, (left, right), difference),
    ensures
        difference is None <==> left@ == right@,
        left@.truncated != right@.truncated ==> difference is Some && difference->0@
            == "ax_snapshot_truncation_changed"@,
        left@.truncated == right@.truncated && left@.nodes == right@.nodes && left@.focused
            != right@.focused ==> difference is Some && difference->0@
            == "ax_snapshot_focus_changed"@,
{
    snapshot::no_difference_means_the_same_contract(left@, right@);
    if left@.nodes == right@.nodes {
        snapshot::no_difference_means_the_same_contract(
            left@,
            (snapshot::SnapshotView {
                truncated: left@.truncated,
                focused: left@.focused,
                selected_text: left@.selected_text,
                document_text: left@.document_text,
                ..right@
            }),
        );
    }
}

/// The elements that are watched begin with the focus, are all different and at
/// most eight.
pub proof fn the_focus_is_watched_first(
    snapshot: &RawAxSnapshot,
    elements: Vec<RetainedAxElement>,
)
    requires
        call_ensures(RawAxSnapshot::notification_elements, (snapshot,), elements),
    ensures
        elements@.len() <= 8,
        snapshot.focused is Some ==> elements@.len() > 0 && elements@[0] == snapshot.focused->0,
        forall|i: int, j: int|
            0 <= i < j < elements@.len() ==> (#[trigger] elements@[i]).identity != (
            #[trigger] elements@[j]).identity,
{
    snapshot::watch_set_is_bounded_and_distinct(*snapshot);
}

/// A published observation was the same before and after it was made: its related
/// windows, its facts, its window, and its signals or its tree.
pub proof fn only_coherent_observations_are_published(
    bracket: &Bracket<'_>,
    epoch: Result<u64, AttemptError>,
)
    requires
        call_ensures(Bracket::publish_epoch, (bracket,), epoch),
    ensures
        epoch is Ok ==> {
            &&& bracket.related_unchanged
            &&& bracket.facts_a@ == bracket.facts_b@
            &&& bracket.target@.same_window(bracket.facts_b.stamp@)
            &&& epoch->Ok_0 == bracket.epoch_b
            &&& bracket.epoch_a == bracket.epoch_b || bracket.snapshot_a@ == bracket.snapshot_b@
        },
        bracket.related_unchanged && bracket.facts_a@ == bracket.facts_b@
            && bracket.target@.same_window(bracket.facts_b.stamp@) && (bracket.epoch_a
            == bracket.epoch_b || bracket.snapshot_a@ == bracket.snapshot_b@) ==> epoch is Ok,
        epoch is Err ==> epoch->Err_0 is Raced,
{
    snapshot::no_difference_means_the_same_contract(bracket.snapshot_a@, bracket.snapshot_b@);
}

/// A stamp error that says that the target moved is a race; any other ends the
/// observation.
pub proof fn a_target_that_moved_is_looked_at_again(error: NativeError, attempt: AttemptError)
    requires
        call_ensures(observation::classify_stamp_error, (error,), attempt),
    ensures
        attempt is Raced <==> error.code == ErrorCode::ObservationStale || error.code
            == ErrorCode::ObservationRaced || error.code == ErrorCode::WindowIdentityChanged
            || error.code == ErrorCode::WindowNotFound,
        attempt is Fatal ==> attempt->Fatal_0@ == error@,
{
}

/// A stale surface is a race; any other failure to capture ends the observation.
pub proof fn a_stale_surface_is_captured_again(error: NativeError, attempt: AttemptError)
    requires
        call_ensures(observation::classify_capture_error, (error,), attempt),
    ensures
        attempt is Raced <==> error.code == ErrorCode::SurfaceStale,
        attempt is Fatal ==> attempt->Fatal_0@ == error@,
{
}

/// Two looks at a window agree where nothing was signalled between them and all its
/// facts are the same.
pub proof fn a_bracket_is_coherent_where_nothing_moved(
    target: &ResolvedWindowStamp,
    a: &MacWindowFacts,
    b: &MacWindowFacts,
    epoch_a: u64,
    epoch_b: u64,
    coherent: bool,
)
    requires
        call_ensures(observation::coherent_window_bracket, (target, a, b, epoch_a, epoch_b), coherent),
    ensures
        coherent ==> epoch_a == epoch_b && a@.bounds == b@.bounds && a@.state == b@.state
            && a@.stamp
            == b@.stamp && a@.cg_window_id == b@.cg_window_id && a@.pid == b@.pid && a@.minimized
            == b@.minimized && target@.same_window(b.stamp@),
        epoch_a == epoch_b && a@ == b@ && target@.same_window(b.stamp@) ==> coherent,
{
}

/// What is committed is published; a commit that came too late is a race.
pub proof fn a_late_commit_is_a_race(
    outcome: Result<Option<u64>, NativeError>,
    published: Result<u64, AttemptError>,
)
    requires
        call_ensures(observation::committed::<u64>, (outcome,), published),
    ensures
        published is Ok <==> outcome is Ok && outcome->Ok_0 is Some,
        published is Ok ==> published->Ok_0 == outcome->Ok_0->0,
        outcome is Ok && outcome->Ok_0 is None ==> published->Err_0 is Raced,
        outcome is Err ==> published->Err_0 is Fatal && published->Err_0->Fatal_0@
            == outcome->Err_0@,
{
}

/// A window is refreshed from facts of the same window, as they say.
pub proof fn a_window_is_refreshed_from_its_own_facts(
    prior: &ResolvedWindow,
    facts: &MacWindowFacts,
    resolved: Result<ResolvedWindow, NativeError>,
)
    requires
        call_ensures(observation::resolved_from_facts, (prior, facts), resolved),
    ensures
        resolved is Ok <==> prior.stamp@.same_window(facts.stamp@) && facts.scale_factor is Some,
        resolved is Ok ==> resolved->Ok_0.stamp@ == facts.stamp@ && resolved->Ok_0.bounds
            == facts.bounds && resolved->Ok_0.state == facts.state && Some(
            resolved->Ok_0.scale_factor,
        ) == facts.scale_factor,
{
}

/// A window is observed exactly where it is on the screen or only covered, is known
/// not to be minimized, is not on another space, and has a usable scale.
pub proof fn only_a_window_in_sight_is_observed(
    facts: &MacWindowFacts,
    outcome: Result<(), NativeError>,
)
    requires
        call_ensures(observation::validate_observable, (facts,), outcome),
    ensures
        outcome is Ok <==> {
            &&& facts.state is Visible || facts.state is Occluded
            &&& facts.minimized == Some(false)
            &&& facts.on_current_space != Some(false)
            &&& facts.is_on_screen || facts.state is Occluded
            &&& facts.scale_factor is Some && facts.scale_factor->0.usable
        },
        outcome is Err ==> outcome->Err_0.code == ErrorCode::UnsupportedInBackground,
{
}

/// A target that is gone shows as gone; any other failure to look is a failure.
pub proof fn a_target_that_is_gone_has_vanished(facts: Result<(), NativeError>, probe: SettleProbe)
    requires
        call_ensures(observation::settle_probe, (facts,), probe),
    ensures
        probe is Present <==> facts is Ok,
        probe is Vanished <==> facts is Err && (facts->Err_0.code == ErrorCode::WindowNotFound
            || facts->Err_0.code == ErrorCode::WindowIdentityChanged),
        probe is Failed ==> probe->Failed_0 == facts->Err_0,
{
}

/// A slice of waiting ends after twenty milliseconds, or with the deadline.
pub proof fn a_slice_ends_with_the_deadline(now: u64, deadline: u64, slice: u64)
    requires
        call_ensures(observation::slice_deadline, (now, deadline), slice),
    ensures
        slice <= deadline,
        slice == deadline || slice == now + 20_000_000,
        now + 20_000_000 < deadline ==> slice == now + 20_000_000,
{
}

/// A target that vanishes while it settles is signalled, and is waited for no
/// further.
pub proof fn a_vanished_target_is_signalled(
    settle: &mut TargetSettle,
    facts: Result<(), NativeError>,
    now: u64,
    signal: Option<SettlementSignal>,
)
    requires
        call_ensures(TargetSettle::probed, (settle, facts, now), signal),
        old(settle).wf(),
        old(settle).stage is Probe,
    ensures
        signal == Some(SettlementSignal::WindowListChanged) <==> facts is Err && (
        facts->Err_0.code == ErrorCode::WindowNotFound || facts->Err_0.code
            == ErrorCode::WindowIdentityChanged),
        signal is Some && final(settle).stage is Settle ==> final(settle).stage->until
            == old(settle).deadline,
        facts is Ok ==> final(settle).stage is Settle
            && final(settle).stage->until <= old(settle).deadline,
        facts is Err && signal is None ==> final(settle).stage is Done && final(settle).result
            == Some(Err::<SettleStep, NativeError>(facts->Err_0)),
{
}

/// A target that has settled is done; one that has not is looked for again until
/// its deadline.
pub proof fn a_target_is_looked_for_until_it_settles(settle: &mut TargetSettle, step: SettleStep)
    requires
        call_ensures(TargetSettle::settled, (settle, step), ()),
        old(settle).wf(),
        old(settle).stage is Settle,
    ensures
        final(settle).stage is Done <==> step is Settled || old(settle).stage->until
            == old(settle).deadline,
        final(settle).stage is Done ==> final(settle).result == Some(
            Ok::<SettleStep, NativeError>(step),
        ),
        !(final(settle).stage is Done) ==> final(settle).stage is Probe,
{
}

/// An observation has ten seconds, and is not begun on a poisoned target.
pub proof fn an_observation_has_ten_seconds(
    invalidated: bool,
    now: u64,
    attempts: Result<ObservationLoop, NativeError>,
)
    requires
        call_ensures(ObservationLoop::begin, (invalidated, now), attempts),
        now <= u64::MAX - 10_000_000_000,
    ensures
        attempts is Ok <==> !invalidated,
        attempts is Ok ==> attempts->Ok_0.deadline == now + 10_000_000_000
            && attempts->Ok_0.race_count == 0,
{
}

/// A race is counted and tried again; a failure is handed out.
pub proof fn races_are_tried_again(
    attempts: &mut ObservationLoop,
    error: AttemptError,
    outcome: Result<(), NativeError>,
)
    requires
        call_ensures(ObservationLoop::retry, (attempts, error), outcome),
        old(attempts).race_count < u64::MAX,
    ensures
        outcome is Ok <==> error is Raced,
        error is Raced ==> final(attempts).race_count == old(attempts).race_count + 1,
        error is Fatal ==> outcome == Err::<(), NativeError>(error->Fatal_0),
        final(attempts).deadline == old(attempts).deadline,
{
}

/// There is another attempt until the deadline.
pub proof fn attempts_end_at_the_deadline(
    attempts: &ObservationLoop,
    now: u64,
    outcome: Result<(), NativeError>,
)
    requires
        call_ensures(ObservationLoop::another_attempt, (attempts, now), outcome),
    ensures
        outcome is Ok <==> now < attempts.deadline,
        outcome is Err ==> outcome->Err_0.code == ErrorCode::ObservationRaced
            && outcome->Err_0.retryable,
{
}

/// A surface is scaled by what captured it, and only where everything agrees.
pub proof fn a_surface_is_scaled_where_all_agrees(
    evidence: WindowFrameEvidence,
    metadata: &WindowFrameMetadata,
    geometry: SurfaceGeometry,
    scaling: Result<SurfaceScaling, NativeError>,
)
    requires
        call_ensures(observation::surface_scaling, (evidence, metadata, geometry), scaling),
    ensures
        evidence is StreamAttachments ==> (scaling is Ok <==> metadata.scale_factor is Some
            && metadata.content_scale == Some(true) && metadata.content_rect is Some
            && geometry.frame_agrees && geometry.stream_scale_agrees && geometry.content_agrees),
        !(evidence is StreamAttachments) ==> (scaling is Ok <==> geometry.pixel_width > 0
            && geometry.pixel_height > 0 && geometry.frame_agrees && geometry.raster_scale_agrees),
        scaling is Ok ==> (scaling->Ok_0 is Content <==> evidence is StreamAttachments),
        scaling is Ok ==> (scaling->Ok_0 is Raster <==> !(evidence is StreamAttachments)),
        scaling is Err ==> scaling->Err_0.code == ErrorCode::SurfaceStale,
{
}

/// A capture is given what is left of the time, less a tenth of a second.
pub proof fn a_capture_leaves_time_to_tear_down(
    window: u32,
    deadline: u64,
    now: u64,
    timeout: Result<u64, NativeError>,
)
    requires
        call_ensures(observation::capture_timeout, (window, deadline, now), timeout),
    ensures
        timeout is Ok <==> now + 100_000_000 < deadline,
        timeout is Ok ==> now + timeout->Ok_0 + 100_000_000 == deadline,
{
}

/// A truncated tree is warned of, and only that.
pub proof fn truncation_is_warned_of(truncated: bool, warnings: Vec<String>)
    requires
        call_ensures(observation::publication_warnings, (truncated,), warnings),
    ensures
        warnings@.len() == if truncated {
            1int
        } else {
            0int
        },
{
    assert(text::texts(warnings@).len() == warnings@.len());
}

/// The target of a capture is the first window with its number.
pub proof fn a_capture_takes_the_window_of_its_number(
    available: bool,
    windows: &Vec<Option<u32>>,
    target: u32,
    at: Result<usize, NativeError>,
)
    requires
        call_ensures(snapshot::capture_target, (available, windows, target), at),
    ensures
        at is Ok <==> available && windows@.contains(Some(target)),
        at is Ok ==> at->Ok_0 < windows@.len() && windows@[at->Ok_0 as int] == Some(target),
{
    if at is Ok {
        assert(windows@[at->Ok_0 as int] == Some(target));
    }
}

/// An observer is made for the application's own window of the number it was asked
/// for.
pub proof fn an_observer_looks_for_its_window(
    run: &mut AxObserverRun,
    windows: Vec<Option<u32>>,
    answer: Option<Result<(), NativeError>>,
)
    requires
        call_ensures(AxObserverRun::advance, (run, ObserverReport::Windows(windows)), answer),
        old(run).stage is Windows,
    ensures
        final(run).failure is None && old(run).failure is None ==> final(run).stage is Create
            && final(run).target is Some && windows@[final(run).target->0 as int] == Some(
            old(run).target_window_id,
        ),
        (forall|i: int| 0 <= i < windows@.len() ==> #[trigger] windows@[i] != Some(
            old(run).target_window_id,
        )) ==> final(run).failure is Some && final(run).stage is Done,
{
    let wanted = old(run).target_window_id;
    if observer::lists_window(windows@, wanted) {
        let at = choose|at: int| observer::first_window(windows@, wanted, at);
        assert(windows@[at] == Some(wanted));
        assert(windows.len() == windows@.len());
    }
}

/// An observer serves only once the window and the focus are both registered.
pub proof fn an_observer_registers_window_and_focus(
    run: &mut AxObserverRun,
    target: usize,
    focus: usize,
    answer: Option<Result<(), NativeError>>,
)
    requires
        call_ensures(
            AxObserverRun::advance,
            (run, ObserverReport::Registered { target, focus }),
            answer,
        ),
        old(run).stage is Register,
    ensures
        final(run).stage is Source <==> target > 0 && focus > 0,
        final(run).stage is Done <==> target == 0 || focus == 0,
        final(run).stage is Done ==> final(run).failure is Some,
{
}

/// An observer watches the elements that it was last told to.
pub proof fn an_observer_watches_what_it_was_told(
    run: &mut AxObserverRun,
    elements: Vec<u64>,
    answer: Option<Result<(), NativeError>>,
)
    requires
        call_ensures(AxObserverRun::advance, (run, ObserverReport::Replace { elements }), answer),
        old(run).stage is Serving,
    ensures
        final(run).watched@ == elements@,
        answer is Some <==> old(run).watched@ == elements@,
        answer is Some ==> answer->0 is Ok && final(run).stage is Serving,
        answer is None ==> final(run).stage is Replacing,
        final(run).target == old(run).target,
{
}

/// A registration is heard of, or failed as it says.
pub proof fn a_registration_is_heard_of(heard: Handshake, outcome: Result<(), NativeError>)
    requires
        call_ensures(observer::registration_handshake, (heard,), outcome),
    ensures
        outcome is Ok <==> heard is Registered,
        heard is Failed ==> outcome->Err_0@ == heard->Failed_0@,
{
}

/// A menu that is found is an outermost one, and the only one.
pub proof fn a_menu_is_found_where_it_is_outermost(
    snapshot: &RawAxSnapshot,
    menu: Result<Option<RetainedAxElement>, NativeError>,
)
    requires
        call_ensures(snapshot::discover_native_menu, (snapshot,), menu),
    ensures
        menu is Ok && menu->Ok_0 is Some ==> exists|i: int|
            0 <= i < snapshot.nodes@.len() && (#[trigger] snapshot.nodes@[i]).role@ == "AXMenu"@
                && snapshot.nodes@[i].element == menu->Ok_0->0,
        menu is Err ==> menu->Err_0.code == ErrorCode::MenuStateStale,
{
    if menu is Ok && menu->Ok_0 is Some {
        let i = choose|i: int|
            {
                &&& #[trigger] snapshot::outermost_menu(snapshot.nodes@, i)
                &&& snapshot.nodes@[i].element == menu->Ok_0->0
            };
        assert(snapshot.nodes@[i].role@ == "AXMenu"@);
    }
}

/// A menu that lies above every other is the one that is found, and two that lie equally
/// high are none.
pub proof fn the_menu_above_all_others_is_found(
    snapshot: &RawAxSnapshot,
    menu: Result<Option<RetainedAxElement>, NativeError>,
    at: int,
    other: int,
)
    requires
        call_ensures(snapshot::discover_native_menu, (snapshot,), menu),
        0 <= at < snapshot.nodes@.len(),
        snapshot.nodes@[at].role@ == "AXMenu"@,
    ensures
        (forall|j: int|
            0 <= j < snapshot.nodes@.len() && j != at && (#[trigger] snapshot.nodes@[j]).role@
                == "AXMenu"@ ==> snapshot.nodes@[at].depth < snapshot.nodes@[j].depth)
            ==> menu is Ok && menu->Ok_0 == Some(snapshot.nodes@[at].element),
        snapshot::outermost_menu(snapshot.nodes@, at) && 0 <= other < snapshot.nodes@.len()
            && other != at && snapshot.nodes@[other].role@ == "AXMenu"@
            && snapshot.nodes@[other].depth == snapshot.nodes@[at].depth ==> menu is Err,
        menu is Err || menu->Ok_0 is Some,
{
    let nodes = snapshot.nodes@;
    assert(nodes[at].role@ == "AXMenu"@);
    if forall|j: int|
        0 <= j < nodes.len() && j != at && (#[trigger] nodes[j]).role@ == "AXMenu"@
            ==> nodes[at].depth < nodes[j].depth {
        assert(snapshot::outermost_menu(nodes, at));
        assert forall|j: int| #[trigger] snapshot::outermost_menu(nodes, j) implies j == at by {
            if j != at {
                assert(nodes[j].depth <= nodes[at].depth);
            }
        }
    }
    if snapshot::outermost_menu(nodes, at) && 0 <= other < nodes.len() && other != at
        && nodes[other].role@ == "AXMenu"@ && nodes[other].depth == nodes[at].depth {
        assert(snapshot::outermost_menu(nodes, other));
    }
}

} // verus!
