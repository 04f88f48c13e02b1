//! What a pointer sequence does on the screen.
use vstd::prelude::*;

use crate::contracts::{
    ActionShape, Modifier, MouseButton, ResolvedWindowStamp, Route, SettlementSignal,
    VerificationLevel,
};
use crate::driver::actions::NativeDispatch;
use crate::driver::actions::pointer;
use crate::driver::actions::pointer::{
    EventPoint, FailurePlan, LiveOwner, MacPreparedPointerAction, NativePoint, PointFacts,
    PointerDispatchEvidence, PointerMenuStep, PointerRun, PreparedMouseEventKind,
    PreparedPointerEvent, PreparedSequence, ResolvedPoint, SurfaceOwner,
};
use crate::driver::interaction::MenuMutationIntent;
use crate::errors::{ErrorCode, NativeError};
use crate::evidence;
use crate::evidence::Fields;

verus! {

/// How far along its way from the start to the end a point lies.
pub open spec fn halves(at: EventPoint) -> int {
    match at {
        EventPoint::Start => 0,
        EventPoint::Midpoint => 1,
        EventPoint::End => 2,
    }
}

/// The events of a sequence, as mouse events.
pub open spec fn mouse_at(sequence: PreparedSequence, i: int) -> pointer::MouseView {
    sequence.events@[i]@->Mouse_0
}

/// An item that is dragged is picked up at the start and dropped at the end: the
/// button goes down first, at the start, and up last, at the end and where the
/// motion has ended; in between it only moves, always on, by way of the middle.
pub proof fn a_drag_drops_at_its_end(
    start: NativePoint,
    end: NativePoint,
    button: MouseButton,
    modifiers: &Vec<Modifier>,
    duration_ms: u32,
    sequence: PreparedSequence,
)
    requires
        call_ensures(pointer::build_drag, (start, end, button, modifiers, duration_ms), sequence),
    ensures
        sequence.start == start,
        sequence.target == end,
        sequence.events@.len() >= 3,
        forall|i: int|
            0 <= i < sequence.events@.len() ==> (#[trigger] sequence.events@[i])@ is Mouse
                && mouse_at(sequence, i).button == button && mouse_at(sequence, i).modifiers
                == modifiers@,
        mouse_at(sequence, 0).kind == PreparedMouseEventKind::Down,
        mouse_at(sequence, 0).at == EventPoint::Start,
        mouse_at(sequence, 0).click_state == 1,
        mouse_at(sequence, 0).scheduled_after_ms == 0,
        sequence.events@.last()@.point() == EventPoint::End,
        mouse_at(sequence, sequence.events@.len() - 1).kind == PreparedMouseEventKind::Up,
        mouse_at(sequence, sequence.events@.len() - 1).at == EventPoint::End,
        mouse_at(sequence, sequence.events@.len() - 1).click_state == 1,
        mouse_at(sequence, sequence.events@.len() - 1).scheduled_after_ms == duration_ms,
        mouse_at(sequence, sequence.events@.len() - 2).at == mouse_at(
            sequence,
            sequence.events@.len() - 1,
        ).at,
        forall|i: int|
            0 < i < sequence.events@.len() - 1 ==> {
                &&& (#[trigger] mouse_at(sequence, i)).kind == PreparedMouseEventKind::Dragged
                &&& mouse_at(sequence, i).click_state == 0
            },
        forall|i: int, j: int|
            0 <= i <= j < sequence.events@.len() ==> {
                &&& halves((#[trigger] mouse_at(sequence, i)).at) <= halves(
                    (#[trigger] mouse_at(sequence, j)).at,
                )
                &&& mouse_at(sequence, i).scheduled_after_ms <= mouse_at(
                    sequence,
                    j,
                ).scheduled_after_ms
            },
        exists|i: int|
            0 < i < sequence.events@.len() - 1 && (#[trigger] mouse_at(sequence, i)).at
                == EventPoint::Midpoint && mouse_at(sequence, i).scheduled_after_ms
                == duration_ms as int / 2,
{
    let events = pointer::events_view(sequence.events@);
    assert(events.len() == sequence.events@.len());
    assert forall|i: int| 0 <= i < events.len() implies events[i] == (
    #[trigger] sequence.events@[i])@ by {}
    assert(events[0] == sequence.events@[0]@);
    assert(events[1] == sequence.events@[1]@);
    assert(events[2] == sequence.events@[2]@);
    assert(events[3] == sequence.events@[3]@);
    assert(events[4] == sequence.events@[4]@);
    assert(mouse_at(sequence, 2).at == EventPoint::Midpoint);
}

/// A click presses and lets go once for each click, at one point, with the
/// button and the modifiers asked for: every press is let go a tenth of a second
/// later, and the click state counts the clicks.
pub proof fn every_click_presses_and_lets_go(
    point: NativePoint,
    button: MouseButton,
    click_count: u8,
    modifiers: &Vec<Modifier>,
    sequence: PreparedSequence,
    click: int,
)
    requires
        call_ensures(pointer::build_click, (point, button, click_count, modifiers), sequence),
        0 <= click < click_count,
    ensures
        sequence.target@ == point@,
        sequence.start@ == point@,
        sequence.events@.len() == click_count + click_count,
        ({
            let down = sequence.events@[2 * click]@;
            let up = sequence.events@[2 * click + 1]@;
            &&& down == pointer::EventView::Mouse(
                pointer::MouseView {
                    kind: PreparedMouseEventKind::Down,
                    at: EventPoint::Start,
                    button,
                    click_state: (click + 1) as u8,
                    modifiers: modifiers@,
                    scheduled_after_ms: (200 * click) as u64,
                },
            )
            &&& up == pointer::EventView::Mouse(
                pointer::MouseView {
                    kind: PreparedMouseEventKind::Up,
                    scheduled_after_ms: (200 * click + 100) as u64,
                    ..down->Mouse_0
                },
            )
        }),
{
    let events = pointer::events_view(sequence.events@);
    assert(events.len() == sequence.events@.len());
    assert(events[2 * click] == sequence.events@[2 * click]@);
    assert(events[2 * click + 1] == sequence.events@[2 * click + 1]@);
    assert((2 * click) % 2 == 0);
    assert((2 * click + 1) % 2 == 1);
    assert((2 * click) / 2 == click);
    assert((2 * click + 1) / 2 == click);
}

/// What is posted for a scroll is the opposite of what was asked for: the same
/// amount the other way, and twice the opposite is the amount itself.
pub proof fn the_opposite_has_the_other_sign(bits: i64)
    ensures
        (bits < 0) != (pointer::opposite(bits) < 0),
        pointer::opposite(pointer::opposite(bits)) == bits,
        bits >= 0 ==> bits - pointer::opposite(bits) == 0x8000_0000_0000_0000int,
{
}

/// An event at the end of a sequence goes to its target, one at the start to its
/// start.
pub proof fn events_go_to_their_points(sequence: PreparedSequence)
    ensures
        sequence.place(EventPoint::End) == sequence.target@,
        sequence.place(EventPoint::Start) == sequence.start@,
{
}

/// Of a failure with its button down, what reached the target decides: a button
/// that may be down is let go where it went down, and nothing else is.
pub proof fn a_button_counts_as_down_from_its_press(
    events: Seq<pointer::EventView>,
    count: nat,
    press: int,
)
    requires
        0 <= press < count <= events.len(),
        events[press] is Mouse,
        events[press]->Mouse_0.kind == PreparedMouseEventKind::Down,
        forall|i: int|
            press < i < count ==> !((#[trigger] events[i]) is Mouse && events[i]->Mouse_0.kind
                != PreparedMouseEventKind::Dragged),
    ensures
        pointer::pressed_after(events, count) == Some(
            (events[press]->Mouse_0.button, events[press]->Mouse_0.at),
        ),
    decreases count,
{
    if count > press + 1 {
        a_button_counts_as_down_from_its_press(events, (count - 1) as nat, press);
        assert(!(events[count - 1] is Mouse && events[count - 1]->Mouse_0.kind
            != PreparedMouseEventKind::Dragged));
    }
}

/// After a release no button counts as down.
pub proof fn a_release_leaves_nothing_down(events: Seq<pointer::EventView>, count: nat)
    requires
        0 < count <= events.len(),
        events[count - 1] is Mouse,
        events[count - 1]->Mouse_0.kind == PreparedMouseEventKind::Up,
    ensures
        pointer::pressed_after(events, count) is None,
{
}

/// A sequence is prepared exactly where its last event comes before the
/// deadline.
pub proof fn a_sequence_fits_exactly_where_it_ends_in_time(
    sequence: PreparedSequence,
    route_name: &'static str,
    now: u64,
    deadline: u64,
    prepared: Result<MacPreparedPointerAction, NativeError>,
)
    requires
        call_ensures(pointer::prepare_sequence, (sequence, route_name, now, deadline), prepared),
        sequence.events@.len() > 0,
    ensures
        prepared is Ok <==> now + sequence.events@.last()@.after() * 1_000_000 <= deadline,
        prepared is Ok ==> prepared->Ok_0.sequence == sequence && prepared->Ok_0.route_name@
            == route_name@,
{
    assert(pointer::events_view(sequence.events@).last() == sequence.events@.last()@);
}

/// A failure reports how many events went out and what became of the button; one
/// whose button is stuck is never tried again.
pub proof fn a_stuck_button_is_not_retried(
    error: crate::errors::ErrorView,
    cleanup: pointer::CleanupResult,
    completed: usize,
)
    ensures
        ({
            let reported = pointer::with_cleanup(error, cleanup, completed);
            &&& reported.code == error.code
            &&& reported.message == error.message
            &&& reported.phase == error.phase
            &&& cleanup.attempted && !cleanup.succeeded ==> !reported.retryable
            &&& !(cleanup.attempted && !cleanup.succeeded) ==> reported.retryable
                == error.retryable
            &&& reported.details["completed_events"@] == crate::evidence::DetailView::Int(
                completed as int,
            )
            &&& reported.details["cleanup_attempted"@] == crate::evidence::DetailView::Bool(
                cleanup.attempted,
            )
            &&& reported.details["cleanup_succeeded"@] == crate::evidence::DetailView::Bool(
                cleanup.succeeded,
            )
        }),
{
    reveal_strlit("completed_events");
    reveal_strlit("cleanup_attempted");
    reveal_strlit("cleanup_succeeded");
    assert("cleanup_attempted"@[8] == 'a');
    assert("cleanup_succeeded"@[8] == 's');
}

/// A scroll posts one event, at its point, by what was asked for.
pub proof fn a_scroll_is_one_event_at_its_point(
    point: NativePoint,
    delta_x: i64,
    delta_y: i64,
    sequence: PreparedSequence,
)
    requires
        call_ensures(pointer::build_delta_scroll, (point, delta_x, delta_y), sequence),
    ensures
        sequence.target == point,
        sequence.start@ == point@,
        sequence.events@.len() == 1,
        sequence.events@[0]@ is PixelScroll,
        sequence.events@[0]@->delta_x == delta_x,
        sequence.events@[0]@->delta_y == delta_y,
        sequence.events@[0]@.after() == 0,
{
    let events = pointer::events_view(sequence.events@);
    assert(events.len() == sequence.events@.len());
    assert(events[0] == sequence.events@[0]@);
}

/// The button that is let go is the one that is down, where it went down.
pub proof fn a_cleanup_lets_the_button_go(
    button: MouseButton,
    at: EventPoint,
    event: PreparedPointerEvent,
)
    requires
        call_ensures(pointer::cleanup_event, (button, at), event),
    ensures
        event@ is Mouse,
        event@->Mouse_0.kind == PreparedMouseEventKind::Up,
        event@->Mouse_0.button == button,
        event@->Mouse_0.at == at,
        event@->Mouse_0.modifiers.len() == 0,
{
}

/// A point is used only in the window that it was captured for, at the same
/// geometry, and where its surface belongs to that window.
pub proof fn a_point_belongs_to_its_target(
    target: &ResolvedWindowStamp,
    owner: &ResolvedWindowStamp,
    point: &ResolvedPoint,
    outcome: Result<(), NativeError>,
)
    requires
        call_ensures(pointer::check_point_owner, (target, owner, point), outcome),
    ensures
        outcome is Ok <==> {
            &&& point.window@ == target@
            &&& owner@ == target@
            &&& point.geometry_revision@ == target@.geometry_revision
            &&& point.transform_agrees
            &&& match point.surface_owner {
                SurfaceOwner::Target(stamp) => stamp@ == target@,
                SurfaceOwner::RelatedTransient { owner: _, parent } => parent@ == target@,
            }
        },
        outcome is Err ==> outcome->Err_0.code == ErrorCode::SurfaceStale
            && outcome->Err_0.retryable,
{
}

/// A native point is made of the live facts, and only where those are of the same
/// surface and the point is in it.
pub proof fn a_native_point_is_made_of_live_facts(
    point: &ResolvedPoint,
    facts: &PointFacts,
    native: Result<NativePoint, NativeError>,
)
    requires
        call_ensures(pointer::prepare_point, (point, facts), native),
    ensures
        native is Ok <==> {
            &&& match point.surface_owner {
                SurfaceOwner::Target(_) => facts.stamp@ == point.window@,
                SurfaceOwner::RelatedTransient { owner, parent: _ } => facts.stamp@ == owner@,
            }
            &&& facts.contains_point
            &&& facts.reproduces_point
            &&& point.observation_epoch is Some
        },
        native is Ok ==> {
            &&& native->Ok_0.screen == facts.screen
            &&& native->Ok_0.window_local == facts.window_local
            &&& native->Ok_0.pid == facts.pid
            &&& native->Ok_0.cg_window_id == facts.cg_window_id
            &&& native->Ok_0.owner_bounds == facts.bounds
            &&& native->Ok_0.surface_id@ == point.surface_id@
            &&& native->Ok_0.capture_revision@ == point.capture_revision@
            &&& native->Ok_0.geometry_revision@ == point.geometry_revision@
            &&& Some(native->Ok_0.observation_epoch) == point.observation_epoch
        },
{
}

/// A drag stays on one surface.
pub proof fn a_drag_stays_on_one_surface(
    start: &NativePoint,
    end: &NativePoint,
    outcome: Result<(), NativeError>,
)
    requires
        call_ensures(pointer::ensure_same_drag_surface, (start, end), outcome),
    ensures
        outcome is Ok <==> {
            &&& start@.pid == end@.pid
            &&& start@.cg_window_id == end@.cg_window_id
            &&& start@.owner == end@.owner
            &&& start@.surface_id == end@.surface_id
            &&& start@.capture_revision == end@.capture_revision
            &&& start@.geometry_revision == end@.geometry_revision
            &&& start@.observation_epoch == end@.observation_epoch
        },
{
}

/// Each pointer action has its own route, and only a live pointer scope has any.
pub proof fn pointer_routes_are_named_for_their_actions(
    invalidated: bool,
    route: Route,
    shape: &ActionShape,
    has_point: bool,
    name: Result<&'static str, NativeError>,
)
    requires
        call_ensures(pointer::begin_prepare, (invalidated, route, shape, has_point), name),
    ensures
        invalidated || route != Route::TargetedPointer ==> name is Err,
        !invalidated && route == Route::TargetedPointer ==> {
            &&& shape is PointClick ==> name is Ok && name->Ok_0@ == "macos_targeted_pointer_click"@
            &&& shape is Drag ==> name is Ok && name->Ok_0@ == "macos_targeted_pointer_drag"@
            &&& shape is DeltaScroll ==> name is Ok && name->Ok_0@
                == "macos_targeted_pointer_pixel_scroll"@
            &&& shape is ElementScroll ==> (name is Ok <==> has_point)
            &&& shape is ElementScroll && has_point ==> name->Ok_0@
                == "macos_signed_page_scroll_post_to_pid"@
            &&& shape is PressKey || shape is TypeText ==> name is Err
        },
{
}

/// A sequence goes out only to the target that it was prepared for, at the epoch and
/// the geometry that its point was captured at.
pub proof fn a_sequence_goes_out_undisturbed(
    invalidated: bool,
    target: &ResolvedWindowStamp,
    owner: &ResolvedWindowStamp,
    window: &ResolvedWindowStamp,
    epoch: u64,
    sequence: &PreparedSequence,
    begun: Result<(), NativeError>,
    timely: Result<(), NativeError>,
    scoped: Result<(), NativeError>,
)
    requires
        call_ensures(pointer::ensure_dispatch_target, (invalidated, target, owner), begun),
        call_ensures(
            pointer::ensure_dispatch_epoch,
            (invalidated, target, owner, epoch, sequence),
            timely,
        ),
        call_ensures(pointer::revalidate_sequence_scope, (target, owner, window, sequence), scoped),
    ensures
        begun is Ok <==> !invalidated && owner@ == target@,
        timely is Ok <==> begun is Ok && epoch == sequence.target.observation_epoch,
        scoped is Ok <==> owner@ == target@ && window@ == target@
            && sequence.target.geometry_revision@ == target.geometry_revision@,
        begun is Err ==> begun->Err_0.code == ErrorCode::WindowIdentityChanged,
        timely is Err ==> timely->Err_0.code == ErrorCode::ObservationRaced,
        scoped is Err ==> scoped->Err_0.code == ErrorCode::WindowIdentityChanged,
{
}

/// A sequence goes out only where its owner is still what it was.
pub proof fn a_sequence_goes_to_its_live_owner(
    sequence: &PreparedSequence,
    owner: &LiveOwner,
    agrees: bool,
    outcome: Result<(), NativeError>,
)
    requires
        call_ensures(pointer::revalidate_sequence_target, (sequence, owner, agrees), outcome),
        sequence.events@.len() > 0,
    ensures
        outcome is Ok ==> agrees && sequence.target.pid == owner.pid
            && sequence.target.cg_window_id == owner.cg_window_id && sequence.target.owner_bounds
            == owner.bounds && sequence.target.owner@ == owner.stamp@,
        !agrees ==> outcome is Err,
        sequence.target.pid != owner.pid || sequence.target.cg_window_id != owner.cg_window_id
            || sequence.target.owner_bounds != owner.bounds || sequence.target.owner@
            != owner.stamp@ ==> outcome is Err,
        agrees && sequence.target.pid == owner.pid && sequence.target.cg_window_id
            == owner.cg_window_id && sequence.target.owner_bounds == owner.bounds
            && sequence.target.owner@ == owner.stamp@ && sequence.start@ == sequence.target@
            ==> outcome is Ok,
        outcome is Err ==> outcome->Err_0.code == ErrorCode::SurfaceStale
            && outcome->Err_0.retryable,
{
    let events = pointer::events_view(sequence.events@);
    assert(events.len() == sequence.events@.len());
}

/// What a failure owes depends on what may have gone out.
pub proof fn a_failure_owes_what_is_down(run: &PointerRun, boundary_started: bool, plan: FailurePlan)
    requires
        call_ensures(PointerRun::failure, (run, boundary_started), plan),
    ensures
        plan.dispatch_started <==> boundary_started || run.evidence.completed_events > 0,
        plan.dispatch_started ==> plan.release == run.pressed,
        !plan.dispatch_started ==> plan.release is None,
{
}

/// A failed cleanup, and nothing else, poisons the target.
pub proof fn only_a_failed_cleanup_poisons(evidence: &PointerDispatchEvidence, poisons: bool)
    requires
        call_ensures(PointerDispatchEvidence::poisons_target, (evidence,), poisons),
    ensures
        poisons <==> evidence.cleanup_attempted && !evidence.cleanup_succeeded,
{
}

/// The logical cursor follows releases and scrolls, to where they happened.
pub proof fn the_cursor_follows_what_ends(
    run: &mut PointerRun,
    sequence: &PreparedSequence,
    cursor: Option<EventPoint>,
)
    requires
        call_ensures(PointerRun::posted, (run, sequence), cursor),
        old(run).wf(*sequence),
        old(run).posting,
    ensures
        ({
            let event = sequence.events@[old(run).evidence.completed_events as int]@;
            &&& cursor is Some <==> event is PixelScroll || event->Mouse_0.kind
                == PreparedMouseEventKind::Up
            &&& cursor is Some ==> cursor->0 == event.point()
        }),
        final(run).evidence.completed_events == old(run).evidence.completed_events + 1,
{
    let events = pointer::events_view(sequence.events@);
    assert(events.len() == sequence.events@.len());
    assert(sequence.events.len() == sequence.events@.len());
    assert(events[old(run).evidence.completed_events as int]
        == sequence.events@[old(run).evidence.completed_events as int]@);
}

/// A wait for an event lasts until its time and is refused past the deadline.
pub proof fn a_wait_lasts_until_its_time(
    scheduled: u128,
    now: u64,
    deadline: u64,
    wait: Result<u64, NativeError>,
)
    requires
        call_ensures(pointer::wait_until, (scheduled, now, deadline), wait),
    ensures
        wait is Ok <==> now <= deadline && scheduled <= deadline,
        wait is Ok && scheduled >= now ==> now + wait->Ok_0 == scheduled,
        wait is Ok && scheduled < now ==> wait->Ok_0 == 0,
        wait is Err ==> !wait->Err_0.retryable,
{
}

/// A pointer action is in step with its menu: what opens one waits for it, what
/// acts in one for its reaction, what closes one for its end.
pub proof fn pointer_actions_wait_for_their_menus(
    intent: &Option<MenuMutationIntent>,
    step: PointerMenuStep,
)
    requires
        call_ensures(pointer::pointer_menu_step, (intent,), step),
    ensures
        step is Nothing <==> intent is None,
        step is WaitForOpened <==> intent is Some && intent->0 is Opening,
        step is AwaitReaction <==> intent is Some && intent->0 is Targeting,
        step is WaitForDismissed <==> intent is Some && intent->0 is Dismissing,
{
}

/// Menus are waited for until they are there, or gone, or time is up.
pub proof fn menus_are_awaited_until_the_deadline(
    found: bool,
    now: u64,
    deadline: u64,
    opened: Result<bool, NativeError>,
    dismissed: Result<bool, NativeError>,
)
    requires
        call_ensures(pointer::wait_for_opened_menu, (found, now, deadline), opened),
        call_ensures(pointer::wait_for_dismissed_menu, (found, now, deadline), dismissed),
    ensures
        opened == Ok::<bool, NativeError>(true) <==> found,
        opened is Err <==> !found && now >= deadline,
        dismissed == Ok::<bool, NativeError>(true) <==> !found,
        dismissed is Err <==> found && now >= deadline,
{
}

/// A whole sequence is reported as posted, never as seen.
pub proof fn a_sequence_reports_what_was_posted(
    sequence: &PreparedSequence,
    route_name: &str,
    outcome: (NativeDispatch, SettlementSignal),
)
    requires
        call_ensures(pointer::finish_dispatch, (sequence, route_name), outcome),
    ensures
        outcome.1 == SettlementSignal::PointerSequenceComplete,
        outcome.0@.verification == VerificationLevel::DispatchUnverified,
{
}

/// What a scroll posts is the opposite of what was asked for, and both are in the
/// evidence.
pub proof fn a_scroll_is_posted_the_other_way(sequence: &PreparedSequence, fields: &mut Fields)
    requires
        call_ensures(pointer::append_sequence_evidence, (sequence, fields), ()),
        sequence.events@.len() > 0,
        sequence.events@[0]@ is PixelScroll,
    ensures
        final(fields)@["scroll_requested_delta_x"@] == evidence::DetailView::Real(
            sequence.events@[0]@->delta_x,
        ),
        final(fields)@["scroll_requested_delta_y"@] == evidence::DetailView::Real(
            sequence.events@[0]@->delta_y,
        ),
        ({
            let x = final(fields)@["scroll_posted_delta_x"@]->Real_0;
            let y = final(fields)@["scroll_posted_delta_y"@]->Real_0;
            &&& (x < 0) != (sequence.events@[0]@->delta_x < 0)
            &&& (y < 0) != (sequence.events@[0]@->delta_y < 0)
        }),
{
    let events = pointer::events_view(sequence.events@);
    assert(events.len() == sequence.events@.len());
    assert(events[0] == sequence.events@[0]@);
    reveal_strlit("scroll_requested_delta_x");
    reveal_strlit("scroll_requested_delta_y");
    reveal_strlit("scroll_posted_delta_x");
    reveal_strlit("scroll_posted_delta_y");
    reveal_strlit("scroll_units");
    reveal_strlit("scroll_native_primitive");
    assert("scroll_requested_delta_x"@.len() == 24);
    assert("scroll_requested_delta_y"@.len() == 24);
    assert("scroll_requested_delta_x"@[23] == 'x');
    assert("scroll_requested_delta_y"@[23] == 'y');
    assert("scroll_posted_delta_x"@.len() == 21);
    assert("scroll_posted_delta_y"@.len() == 21);
    assert("scroll_posted_delta_x"@[20] == 'x');
    assert("scroll_posted_delta_y"@[20] == 'y');
    assert("scroll_units"@.len() == 12);
    assert("scroll_native_primitive"@.len() == 23);
}

/// A click is reported with its button.
pub proof fn a_click_is_reported_with_its_button(sequence: &PreparedSequence, fields: &mut Fields)
    requires
        call_ensures(pointer::append_sequence_evidence, (sequence, fields), ()),
        sequence.events@.len() > 0,
        sequence.events@[0]@ is Mouse,
    ensures
        final(fields)@["pointer_button"@] == evidence::DetailView::Text(
            match sequence.events@[0]@->Mouse_0.button {
                MouseButton::Left => "left"@,
                MouseButton::Right => "right"@,
                MouseButton::Middle => "middle"@,
            },
        ),
{
    let events = pointer::events_view(sequence.events@);
    assert(events.len() == sequence.events@.len());
    assert(events[0] == sequence.events@[0]@);
    reveal_strlit("pointer_button");
    reveal_strlit("pointer_click_count");
    assert("pointer_button"@.len() == 14);
    assert("pointer_click_count"@.len() == 19);
}

} // verus!
