//! What is published of the elements of a window.
use vstd::prelude::*;

use crate::contracts::{ResolvedWindowStamp, SurfaceKind};
use crate::driver::attempt::{
    AttemptEvent, CapturedSurface, ObservationAttempt, ObservationUpdate, Publication,
};
use crate::driver::elements;
use crate::driver::elements::{
    AxPublication, MacElementRegistry, RegisteredElementSnapshot, RelatedOwner,
};
use crate::driver::frames::{CaptureFreshness, FrameRefusal};
use crate::driver::observation;
use crate::driver::observation::MacWindowFacts;
use crate::driver::actions::pointer::SurfaceOwner;
use crate::driver::snapshot;
use crate::driver::snapshot::{RawAxNode, RawAxSnapshot, RawRelatedWindow};
use crate::driver::target::MacTargetState;
use crate::errors::{ErrorCode, NativeError};
use crate::text;

verus! {

/// What a node is looked at as holds what the node holds.
pub proof fn a_node_is_what_it_holds(node: RawAxNode)
    ensures
        node@.element == node.element.identity,
        node.parent is Some ==> node@.parent == Some(node.parent->0.identity),
        node.parent is None ==> node@.parent is None,
        node@.depth == node.depth,
        node@.owner_window_id == node.owner_window_id,
        node@.role == node.role@,
        node.subrole is Some ==> node@.subrole == Some(node.subrole->0@),
        node.label is Some ==> node@.label == Some(node.label->0@),
        node.label is None ==> node@.label is None,
        node.value is Some ==> node@.value == Some(node.value->0@),
        node.value is None ==> node@.value is None,
        node.string_value is Some ==> node@.string_value == Some(node.string_value->0@),
        node@.bounds == node.bounds,
        node@.selected == node.selected,
        node@.actions.len() == node.actions@.len(),
        forall|i: int| 0 <= i < node.actions@.len() ==> #[trigger] node@.actions[i]
            == node.actions@[i]@,
        node@.value_settable == node.value_settable,
        node@.selected_text_range == node.selected_text_range,
        node@.selected_text_settable == node.selected_text_settable,
        node@.selected_text_range_settable == node.selected_text_range_settable,
{
}

/// What a registered element is looked at as holds what it holds.
pub proof fn a_registered_element_is_what_it_holds(state: RegisteredElementSnapshot)
    ensures
        state@.element == state.element,
        state@.parent == state.parent,
        state@.owner == state.owner@,
        state@.owner_window_id == state.owner_window_id,
        state@.role == state.role@,
        state.subrole is Some ==> state@.subrole == Some(state.subrole->0@),
        state.label is Some ==> state@.label == Some(state.label->0@),
        state.string_value is Some ==> state@.string_value == Some(state.string_value->0@),
        state.string_value is None ==> state@.string_value is None,
        state@.value_settable == state.value_settable,
        state@.selected_text_range == state.selected_text_range,
        state@.selected_text_settable == state.selected_text_settable,
        state@.selected_text_range_settable == state.selected_text_range_settable,
        state@.actions == text::texts(state.actions@),
{
}

/// Every node is published, in order, as what it is: with its role, label, value,
/// bounds and actions, and under the window that owns it.
pub proof fn every_node_is_published_as_it_is(
    registry: &mut MacElementRegistry,
    snapshot: RawAxSnapshot,
    window_id: u32,
    target: &ResolvedWindowStamp,
    related: &Vec<RelatedOwner>,
    fresh: &Vec<String>,
    publication: Result<AxPublication, NativeError>,
    i: int,
)
    requires
        call_ensures(
            MacElementRegistry::reconcile,
            (registry, snapshot, window_id, target, related, fresh),
            publication,
        ),
        publication is Ok,
        0 <= i < snapshot.nodes@.len(),
    ensures
        publication->Ok_0.elements@.len() == snapshot.nodes@.len(),
        final(registry)@.len() == snapshot.nodes@.len(),
        ({
            let element = publication->Ok_0.elements@[i]@;
            let node = snapshot.nodes@[i]@;
            let entry = final(registry)@[i];
            &&& element.role == node.role
            &&& element.subrole == node.subrole
            &&& element.label == node.label
            &&& element.value == node.value
            &&& element.bounds == node.bounds
            &&& element.actions == node.actions
            &&& node.owner_window_id == window_id ==> element.owner == target@
            &&& entry.id == element.id
            &&& entry.native == element.native
            &&& entry.state.element == snapshot.nodes@[i].element
            &&& entry.state.owner == element.owner
            &&& entry.state.role == node.role
            &&& entry.state.string_value == node.string_value
            &&& entry.state.actions == node.actions
            &&& entry.state.value_settable == node.value_settable
            &&& entry.state.selected_text_range == node.selected_text_range
        }),
        publication->Ok_0.truncated == snapshot.truncated,
        publication->Ok_0.selected_text == snapshot.selected_text,
        publication->Ok_0.document_text == snapshot.document_text,
{
    let views = elements::published_view(publication->Ok_0.elements@);
    assert(views.len() == publication->Ok_0.elements@.len());
    assert(views[i] == publication->Ok_0.elements@[i]@);
}

/// A node of the target's own window is always registered; one whose window nobody
/// knows ends the publication, and nothing stays registered.
pub proof fn a_node_of_an_unknown_window_ends_the_publication(
    registry: &mut MacElementRegistry,
    snapshot: RawAxSnapshot,
    window_id: u32,
    target: &ResolvedWindowStamp,
    related: &Vec<RelatedOwner>,
    fresh: &Vec<String>,
    publication: Result<AxPublication, NativeError>,
)
    requires
        call_ensures(
            MacElementRegistry::reconcile,
            (registry, snapshot, window_id, target, related, fresh),
            publication,
        ),
    ensures
        publication is Err ==> final(registry)@.len() == 0 && publication->Err_0.code
            == ErrorCode::ElementStale && publication->Err_0.retryable,
        (forall|i: int|
            0 <= i < snapshot.nodes@.len() ==> (#[trigger] snapshot.nodes@[i]).owner_window_id
                == window_id) ==> publication is Ok,
{
    if publication is Err {
        let work = elements::Reconciliation {
            entries: old(registry)@,
            nodes: snapshot.nodes@,
            fresh_ids: text::texts(fresh@),
            window_id,
            target: target@,
            related: related@,
        };
        let i = choose|i: int| #[trigger] work.first_unowned(i);
        assert(work.owner(i) is None);
        assert(snapshot.nodes@[i].owner_window_id != window_id);
    }
}

/// The focus that is published is that of the focused element, and none where
/// nothing is focused.
pub proof fn the_published_focus_is_the_focused_element(
    registry: &mut MacElementRegistry,
    snapshot: RawAxSnapshot,
    window_id: u32,
    target: &ResolvedWindowStamp,
    related: &Vec<RelatedOwner>,
    fresh: &Vec<String>,
    publication: Result<AxPublication, NativeError>,
    i: int,
)
    requires
        call_ensures(
            MacElementRegistry::reconcile,
            (registry, snapshot, window_id, target, related, fresh),
            publication,
        ),
        publication is Ok,
        0 <= i < snapshot.nodes@.len(),
        elements::distinct_nodes(snapshot.nodes@),
    ensures
        snapshot.focused is None ==> publication->Ok_0.focused_element is None,
        snapshot.focused is Some && snapshot.focused->0.identity
            == snapshot.nodes@[i].element.identity ==> publication->Ok_0.focused_element is Some
            && publication->Ok_0.focused_element->0@ == publication->Ok_0.elements@[i].id@,
{
    let work = elements::Reconciliation {
        entries: old(registry)@,
        nodes: snapshot.nodes@,
        fresh_ids: text::texts(fresh@),
        window_id,
        target: target@,
        related: related@,
    };
    let views = elements::published_view(publication->Ok_0.elements@);
    assert(views.len() == publication->Ok_0.elements@.len());
    assert(views[i] == publication->Ok_0.elements@[i]@);
    if snapshot.focused is None {
        no_focus_among(work, work.nodes.len() as int);
    } else if snapshot.focused->0.identity == snapshot.nodes@[i].element.identity {
        focus_among_is_its_id(work, snapshot.focused->0.identity, work.nodes.len() as int, i);
    }
}

proof fn no_focus_among(work: elements::Reconciliation, count: int)
    ensures
        work.focus_among(None, count) is None,
    decreases count,
{
    if count > 0 {
        no_focus_among(work, count - 1);
    }
}

proof fn focus_among_is_its_id(
    work: elements::Reconciliation,
    identity: u64,
    count: int,
    i: int,
)
    requires
        0 <= i < count <= work.nodes.len(),
        work.nodes[i].element.identity == identity,
        elements::distinct_nodes(work.nodes),
    ensures
        work.focus_among(Some(identity), count) == Some(work.id(i)),
    decreases count,
{
    if i < count - 1 {
        assert(work.nodes[count - 1].element.identity != identity);
        focus_among_is_its_id(work, identity, count - 1, i);
    }
}

/// The selected elements that are published are those of the selected nodes, and
/// every one of them.
pub proof fn the_published_selection_is_of_the_selected_nodes(
    registry: &mut MacElementRegistry,
    snapshot: RawAxSnapshot,
    window_id: u32,
    target: &ResolvedWindowStamp,
    related: &Vec<RelatedOwner>,
    fresh: &Vec<String>,
    publication: Result<AxPublication, NativeError>,
    i: int,
)
    requires
        call_ensures(
            MacElementRegistry::reconcile,
            (registry, snapshot, window_id, target, related, fresh),
            publication,
        ),
        publication is Ok,
        0 <= i < snapshot.nodes@.len(),
        snapshot.nodes@[i].selected,
    ensures
        text::texts(publication->Ok_0.selected_elements@).contains(
            publication->Ok_0.elements@[i].id@,
        ),
{
    let work = elements::Reconciliation {
        entries: old(registry)@,
        nodes: snapshot.nodes@,
        fresh_ids: text::texts(fresh@),
        window_id,
        target: target@,
        related: related@,
    };
    let views = elements::published_view(publication->Ok_0.elements@);
    assert(views.len() == publication->Ok_0.elements@.len());
    assert(views[i] == publication->Ok_0.elements@[i]@);
    selected_among_holds(work, work.nodes.len() as int, i);
}

proof fn selected_among_holds(work: elements::Reconciliation, count: int, i: int)
    requires
        0 <= i < count <= work.nodes.len(),
        work.nodes[i].selected,
    ensures
        work.selected_among(count).contains(work.id(i)),
    decreases count,
{
    let listed = work.selected_among(count);
    if i == count - 1 {
        assert(listed.last() == work.id(i));
        assert(listed[listed.len() - 1] == work.id(i));
    } else {
        selected_among_holds(work, count - 1, i);
        let before = work.selected_among(count - 1);
        let k = choose|k: int| 0 <= k < before.len() && before[k] == work.id(i);
        assert(listed[k] == work.id(i));
    }
}

/// A selection of nothing is published as none.
pub proof fn no_selection_is_published_for_none(
    registry: &mut MacElementRegistry,
    snapshot: RawAxSnapshot,
    window_id: u32,
    target: &ResolvedWindowStamp,
    related: &Vec<RelatedOwner>,
    fresh: &Vec<String>,
    publication: Result<AxPublication, NativeError>,
)
    requires
        call_ensures(
            MacElementRegistry::reconcile,
            (registry, snapshot, window_id, target, related, fresh),
            publication,
        ),
        publication is Ok,
        forall|i: int| 0 <= i < snapshot.nodes@.len() ==> !(#[trigger] snapshot.nodes@[i]).selected,
    ensures
        publication->Ok_0.selected_elements@.len() == 0,
{
    let work = elements::Reconciliation {
        entries: old(registry)@,
        nodes: snapshot.nodes@,
        fresh_ids: text::texts(fresh@),
        window_id,
        target: target@,
        related: related@,
    };
    none_selected(work, work.nodes.len() as int);
    assert(text::texts(publication->Ok_0.selected_elements@).len()
        == publication->Ok_0.selected_elements@.len());
}

proof fn none_selected(work: elements::Reconciliation, count: int)
    requires
        count <= work.nodes.len(),
        forall|i: int| 0 <= i < work.nodes.len() ==> !(#[trigger] work.nodes[i]).selected,
    ensures
        work.selected_among(count).len() == 0,
    decreases count,
{
    if count > 0 {
        none_selected(work, count - 1);
    }
}

/// An element keeps its id from one publication to the next, and a new one gets a
/// fresh id.
pub proof fn an_element_keeps_its_id(
    registry: &mut MacElementRegistry,
    snapshot: RawAxSnapshot,
    window_id: u32,
    target: &ResolvedWindowStamp,
    related: &Vec<RelatedOwner>,
    fresh: &Vec<String>,
    publication: Result<AxPublication, NativeError>,
    i: int,
    k: int,
)
    requires
        call_ensures(
            MacElementRegistry::reconcile,
            (registry, snapshot, window_id, target, related, fresh),
            publication,
        ),
        publication is Ok,
        elements::distinct_entries(old(registry)@),
        elements::distinct_nodes(snapshot.nodes@),
        0 <= i < snapshot.nodes@.len(),
        snapshot.nodes@.len() <= fresh@.len(),
    ensures
        0 <= k < old(registry)@.len() && old(registry)@[k].state.element.identity
            == snapshot.nodes@[i].element.identity ==> publication->Ok_0.elements@[i].id@
                == old(registry)@[k].id,
        (forall|j: int|
            0 <= j < old(registry)@.len() ==> (#[trigger] old(registry)@[j]).state.element.identity
                != snapshot.nodes@[i].element.identity) ==> publication->Ok_0.elements@[i].id@
            == fresh@[i]@,
{
    let work = elements::Reconciliation {
        entries: old(registry)@,
        nodes: snapshot.nodes@,
        fresh_ids: text::texts(fresh@),
        window_id,
        target: target@,
        related: related@,
    };
    let views = elements::published_view(publication->Ok_0.elements@);
    assert(views.len() == publication->Ok_0.elements@.len());
    assert(views[i] == publication->Ok_0.elements@[i]@);
    elements::ids_follow_native_identity(work, i);
    assert(text::texts(fresh@)[i] == fresh@[i]@);
}

/// The tree that is published shows every node on a line of its own.
pub proof fn the_published_tree_has_a_line_for_each_node(
    registry: &mut MacElementRegistry,
    snapshot: RawAxSnapshot,
    window_id: u32,
    target: &ResolvedWindowStamp,
    related: &Vec<RelatedOwner>,
    fresh: &Vec<String>,
    publication: Result<AxPublication, NativeError>,
    line: String,
)
    requires
        call_ensures(
            MacElementRegistry::reconcile,
            (registry, snapshot, window_id, target, related, fresh),
            publication,
        ),
        publication is Ok,
        snapshot.nodes@.len() == 1,
        line@ == elements::ax_line(publication->Ok_0.elements@[0].id@, snapshot.nodes@[0]@),
    ensures
        publication->Ok_0.normalized_tree@ == line@,
{
    let work = elements::Reconciliation {
        entries: old(registry)@,
        nodes: snapshot.nodes@,
        fresh_ids: text::texts(fresh@),
        window_id,
        target: target@,
        related: related@,
    };
    let views = elements::published_view(publication->Ok_0.elements@);
    assert(views.len() == publication->Ok_0.elements@.len());
    assert(views[0] == publication->Ok_0.elements@[0]@);
    assert(work.lines()[0] == work.line(0));
}

/// A surface is recorded as what was captured, under the window that owns it, at the
/// epoch of the publication.
pub proof fn a_captured_surface_is_recorded_as_it_is(
    publication: &mut Publication,
    target: &mut MacTargetState,
    capture: &CapturedSurface,
    outcome: Result<CaptureFreshness, FrameRefusal>,
)
    requires
        call_ensures(Publication::surface, (publication, target, capture), outcome),
    ensures
        outcome is Err ==> *final(publication) == *old(publication),
        outcome is Ok ==> {
            let record = final(publication).surfaces@.last();
            &&& final(publication).surfaces@.len() == old(publication).surfaces@.len() + 1
            &&& record.kind == capture.kind
            &&& record.pixel_width == capture.pixel_width
            &&& record.pixel_height == capture.pixel_height
            &&& record.observation_epoch == Some(old(publication).epoch)
            &&& record.freshness == outcome->Ok_0
            &&& record.approximate_bytes == capture.sample.png_bytes@.len()
            &&& capture.related_owner is None <==> record.owner is Target
            &&& record.owner matches SurfaceOwner::Target(owner) ==> owner@
                == old(publication).window.stamp@
            &&& record.owner matches SurfaceOwner::RelatedTransient { owner, parent } ==> owner@
                == capture.related_owner->0@ && parent@ == old(publication).window.stamp@
        },
        final(target).window == old(target).window,
        final(target).poisoned == old(target).poisoned,
{
}

/// A publication hands out its own window, elements and surfaces, and the target
/// takes the window over.
pub proof fn a_publication_hands_out_what_it_holds(
    publication: Publication,
    target: &mut MacTargetState,
    update: ObservationUpdate,
)
    requires
        call_ensures(Publication::finish, (publication, target), update),
    ensures
        update.window == publication.window,
        update.accessibility == publication.accessibility,
        update.surfaces == publication.surfaces,
        update.captured_at_unix_ms == publication.captured_at_unix_ms,
        update.warnings@.len() > 0 <==> publication.accessibility.truncated,
        final(target).window@ == publication.window.stamp@,
        final(target).poisoned == old(target).poisoned,
{
    assert(text::texts(update.warnings@).len() == update.warnings@.len());
}

/// An attempt goes on from the facts of a window in sight only.
pub proof fn an_attempt_starts_with_a_window_in_sight(
    attempt: &mut ObservationAttempt,
    facts: MacWindowFacts,
)
    requires
        call_ensures(
            ObservationAttempt::advance,
            (attempt, AttemptEvent::Facts(Ok::<_, NativeError>(facts))),
            (),
        ),
        old(attempt)@.wf(),
        old(attempt).stage is Facts,
    ensures
        final(attempt)@.stage is Snapshot || final(attempt)@.stage is Done,
        final(attempt)@.stage is Snapshot ==> (facts.state is Visible || facts.state is Occluded)
            && final(attempt)@.facts == Some(facts@),
        final(attempt)@.stage is Done ==> final(attempt)@.result->0 is Err,
{
}

/// An attempt captures its window and each related surface where screenshots were
/// asked for, and none where they were not.
pub proof fn an_attempt_captures_what_was_asked_for(
    attempt: &mut ObservationAttempt,
    related: Vec<MacWindowFacts>,
)
    requires
        call_ensures(
            ObservationAttempt::advance,
            (attempt, AttemptEvent::Related(Ok::<_, NativeError>(related))),
            (),
        ),
        old(attempt)@.wf(),
        old(attempt).stage is Related,
        final(attempt)@.result is None,
    ensures
        final(attempt)@.stage is Capture <==> old(attempt).include_screenshots,
        final(attempt)@.stage is SnapshotAgain <==> !old(attempt).include_screenshots,
        final(attempt)@.related == observation::facts_view(related@),
        final(attempt)@.kinds.len() == related@.len(),
{
}

/// An attempt succeeds only where everything is at its end what it was at its start.
pub proof fn an_attempt_succeeds_where_nothing_moved(
    attempt: &mut ObservationAttempt,
    again: MacWindowFacts,
    epoch: u64,
)
    requires
        call_ensures(
            ObservationAttempt::advance,
            (attempt, AttemptEvent::FactsAgain { again: Ok::<_, NativeError>(again), epoch }),
            (),
        ),
        old(attempt)@.wf(),
        old(attempt).stage is FactsAgain,
    ensures
        final(attempt)@.stage is Done,
        final(attempt)@.result->0 is Ok <==> {
            &&& old(attempt)@.facts == Some(again@)
            &&& old(attempt)@.target.same_window(again@.stamp)
            &&& epoch == old(attempt).epoch || old(attempt).snapshot->0@
                == old(attempt).snapshot_again->0@
        },
        final(attempt)@.result->0 is Ok ==> final(attempt)@.result->0->Ok_0 == epoch,
        final(attempt)@.result->0 is Err ==> final(attempt)@.result->0->Err_0 is Raced,
{
    snapshot::no_difference_means_the_same_contract(
        old(attempt).snapshot->0@,
        old(attempt).snapshot_again->0@,
    );
}

/// A related surface has the kind that its window was last seen with.
pub proof fn a_related_surface_has_its_kind(
    registered: &Vec<MacWindowFacts>,
    related: &Vec<RawRelatedWindow>,
    kinds: Result<Vec<SurfaceKind>, NativeError>,
    i: int,
)
    requires
        call_ensures(observation::related_surfaces, (registered, related), kinds),
        kinds is Ok,
        0 <= i < registered@.len(),
        related@.len() > 0,
        related@.last().window_id == registered@[i].cg_window_id,
    ensures
        kinds->Ok_0@.len() == registered@.len(),
        kinds->Ok_0@[i] == related@.last().kind,
{
    let views = observation::facts_view(registered@);
    assert(views.len() == registered@.len());
    assert(views[i] == registered@[i]@);
}

/// A capture counts the window first and then each related surface; the attempt goes on
/// once all of them were captured.
pub proof fn an_attempt_captures_every_surface(attempt: &mut ObservationAttempt, event: AttemptEvent)
    requires
        call_ensures(ObservationAttempt::advance, (attempt, event), ()),
        event is Captured,
        event->Captured_0 is Ok,
        old(attempt)@.wf(),
        old(attempt).stage is Capture,
    ensures
        final(attempt)@.window_captured,
        !old(attempt)@.window_captured ==> final(attempt)@.captured == old(attempt)@.captured,
        old(attempt)@.window_captured && old(attempt)@.captured < usize::MAX
            ==> final(attempt)@.captured == old(attempt)@.captured + 1,
        final(attempt)@.stage is SnapshotAgain <==> final(attempt)@.captured
            == old(attempt)@.kinds.len(),
        final(attempt)@.stage is SnapshotAgain || final(attempt)@.stage is Capture,
        final(attempt)@.result is None,
{
}

/// A capture that went stale is a race; any other failure of it ends the observation.
pub proof fn a_stale_capture_is_a_race(attempt: &mut ObservationAttempt, event: AttemptEvent)
    requires
        call_ensures(ObservationAttempt::advance, (attempt, event), ()),
        event is Captured,
        event->Captured_0 is Err,
        old(attempt)@.wf(),
        old(attempt).stage is Capture,
    ensures
        final(attempt)@.stage is Done && final(attempt)@.result is Some
            && final(attempt)@.result->0 is Err,
        final(attempt)@.result->0->Err_0 is Raced <==> event->Captured_0->Err_0.code
            == ErrorCode::SurfaceStale,
        final(attempt)@.result->0->Err_0 is Fatal ==> final(attempt)@.result->0->Err_0->Fatal_0
            == event->Captured_0->Err_0@,
{
}

/// A tree that cannot be read ends the observation; one that can leads to the related
/// windows.
pub proof fn a_tree_leads_to_the_related_windows(
    attempt: &mut ObservationAttempt,
    event: AttemptEvent,
)
    requires
        call_ensures(ObservationAttempt::advance, (attempt, event), ()),
        event is Snapshot,
        old(attempt)@.wf(),
        old(attempt).stage is Snapshot,
    ensures
        event->Snapshot_0 is Ok ==> final(attempt)@.stage is Related && final(attempt)@.snapshot
            == Some(event->Snapshot_0->Ok_0),
        event->Snapshot_0 is Err ==> final(attempt)@.result is Some
            && final(attempt)@.result->0 is Err && final(attempt)@.result->0->Err_0 is Fatal,
{
}

/// The second tree shows the same related windows, or a race was lost.
pub proof fn the_second_tree_shows_the_same_related_windows(
    attempt: &mut ObservationAttempt,
    event: AttemptEvent,
)
    requires
        call_ensures(ObservationAttempt::advance, (attempt, event), ()),
        event is Snapshot,
        event->Snapshot_0 is Ok,
        old(attempt)@.wf(),
        old(attempt).stage is SnapshotAgain,
    ensures
        final(attempt)@.stage is RelatedAgain || final(attempt)@.stage is Done,
        final(attempt)@.stage is RelatedAgain ==> old(attempt).snapshot->0.related_windows@.len()
            == event->Snapshot_0->Ok_0.related_windows@.len() && final(attempt)@.snapshot_again
            == Some(event->Snapshot_0->Ok_0),
        final(attempt)@.stage is Done ==> final(attempt)@.result->0 is Err
            && final(attempt)@.result->0->Err_0 is Raced,
        old(attempt).snapshot->0.related_windows@.len() == 0
            && event->Snapshot_0->Ok_0.related_windows@.len() == 0
            ==> final(attempt)@.stage is RelatedAgain,
{
}

/// The related windows are the same again, or a race was lost.
pub proof fn the_related_windows_are_the_same_again(
    attempt: &mut ObservationAttempt,
    event: AttemptEvent,
)
    requires
        call_ensures(ObservationAttempt::advance, (attempt, event), ()),
        event is RelatedAgain,
        event->RelatedAgain_0 is Ok,
        old(attempt)@.wf(),
        old(attempt).stage is RelatedAgain,
    ensures
        final(attempt)@.stage is FactsAgain <==> observation::facts_view(
            event->RelatedAgain_0->Ok_0@,
        ) == old(attempt)@.related,
        !(final(attempt)@.stage is FactsAgain) ==> final(attempt)@.result is Some
            && final(attempt)@.result->0 is Err && final(attempt)@.result->0->Err_0 is Raced,
{
}

/// A node of a related window is published under that window.
pub proof fn a_node_of_a_related_window_is_published_under_it(
    registry: &mut MacElementRegistry,
    snapshot: RawAxSnapshot,
    window_id: u32,
    target: &ResolvedWindowStamp,
    related: &Vec<RelatedOwner>,
    fresh: &Vec<String>,
    publication: Result<AxPublication, NativeError>,
    i: int,
)
    requires
        call_ensures(
            MacElementRegistry::reconcile,
            (registry, snapshot, window_id, target, related, fresh),
            publication,
        ),
        publication is Ok,
        0 <= i < snapshot.nodes@.len(),
        snapshot.nodes@[i].owner_window_id != window_id,
        related@.len() > 0,
        related@[0].cg_window_id == snapshot.nodes@[i].owner_window_id,
    ensures
        publication->Ok_0.elements@[i].owner@ == related@[0].stamp@,
{
    let views = elements::published_view(publication->Ok_0.elements@);
    assert(views.len() == publication->Ok_0.elements@.len());
    assert(views[i] == publication->Ok_0.elements@[i]@);
}

} // verus!
