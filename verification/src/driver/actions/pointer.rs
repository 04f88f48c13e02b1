//! Exact window-stamped targeted pointer sequences: what is posted, when, and
//! how a button that was pressed is let go whatever happens.
use vstd::prelude::*;

use crate::contracts;
use crate::contracts::{
    ActionShape, Modifier, MouseButton, ResolvedWindowStamp, Route, SettlementSignal,
    VerificationLevel,
};
use crate::driver::actions;
use crate::driver::actions::NativeDispatch;
use crate::driver::interaction::MenuMutationIntent;
use crate::driver::settlement::MacSignalJournal;
use crate::driver::snapshot::AxBounds;
use crate::errors;
use crate::errors::{ErrorCode, ErrorPhase, NativeError};
use crate::evidence;
use crate::evidence::{Detail, Fields};
use crate::text;
use crate::text::same_text;

verus! {

/// Milliseconds between pressing a button and letting it go.
pub const CLICK_UP_DELAY_MS: u64 = 100;

/// The pointer action provider, over a registry of windows.
#[derive(Debug)]
pub struct MacPointerActions<W> {
    pub windows: W,
}

impl<W> MacPointerActions<W> {
    pub fn new(windows: W) -> (provider: MacPointerActions<W>)
        ensures
            provider.windows == windows,
    {
        MacPointerActions { windows }
    }
}

/// The captured surface that a point lies on, by its owner.
#[derive(Debug)]
pub enum SurfaceOwner {
    Target(ResolvedWindowStamp),
    RelatedTransient { owner: ResolvedWindowStamp, parent: ResolvedWindowStamp },
}

impl SurfaceOwner {
    pub open spec fn stamp(&self) -> contracts::StampView {
        match self {
            SurfaceOwner::Target(owner) => owner@,
            SurfaceOwner::RelatedTransient { owner, .. } => owner@,
        }
    }
}

/// The window that owns a captured surface.
pub fn surface_owner_stamp(owner: &SurfaceOwner) -> (stamp: &ResolvedWindowStamp)
    ensures
        stamp@ == owner.stamp(),
{
    match owner {
        SurfaceOwner::Target(owner) => owner,
        SurfaceOwner::RelatedTransient { owner, .. } => owner,
    }
}

/// A point of a capture, as a request names it.
#[derive(Debug)]
pub struct ResolvedPoint {
    pub window: ResolvedWindowStamp,
    pub geometry_revision: String,
    pub surface_owner: SurfaceOwner,
    pub surface_id: String,
    pub capture_revision: String,
    pub observation_epoch: Option<u64>,
    /// The point's place in the window and on the screen agree.
    pub transform_agrees: bool,
}

/// A place in points, by the bits of its coordinates.
#[derive(Debug, Clone, Copy, PartialEq, Eq, Structural)]
pub struct PointBits {
    pub x: i64,
    pub y: i64,
}

/// What is known of the live window under a point.
#[derive(Debug)]
pub struct PointFacts {
    pub screen: PointBits,
    pub window_local: PointBits,
    pub stamp: ResolvedWindowStamp,
    pub pid: i32,
    pub cg_window_id: u32,
    pub bounds: AxBounds,
    /// The point lies in the window.
    pub contains_point: bool,
    /// The point's place in the window leads back to its place on the screen.
    pub reproduces_point: bool,
}

/// Where a prepared event goes.
#[derive(Debug)]
pub struct NativePoint {
    pub screen: PointBits,
    pub window_local: PointBits,
    pub pid: i32,
    pub cg_window_id: u32,
    pub owner_bounds: AxBounds,
    pub owner: ResolvedWindowStamp,
    pub surface_id: String,
    pub capture_revision: String,
    pub geometry_revision: String,
    pub observation_epoch: u64,
}

#[verifier::ext_equal]
pub ghost struct PointView {
    pub screen: PointBits,
    pub window_local: PointBits,
    pub pid: i32,
    pub cg_window_id: u32,
    pub owner_bounds: AxBounds,
    pub owner: contracts::StampView,
    pub surface_id: Seq<char>,
    pub capture_revision: Seq<char>,
    pub geometry_revision: Seq<char>,
    pub observation_epoch: u64,
}

impl View for NativePoint {
    type V = PointView;

    open spec fn view(&self) -> PointView {
        PointView {
            screen: self.screen,
            window_local: self.window_local,
            pid: self.pid,
            cg_window_id: self.cg_window_id,
            owner_bounds: self.owner_bounds,
            owner: self.owner@,
            surface_id: self.surface_id@,
            capture_revision: self.capture_revision@,
            geometry_revision: self.geometry_revision@,
            observation_epoch: self.observation_epoch,
        }
    }
}

impl Clone for NativePoint {
    fn clone(&self) -> (copy: Self)
        ensures
            copy@ == self@,
    {
        NativePoint {
            screen: self.screen,
            window_local: self.window_local,
            pid: self.pid,
            cg_window_id: self.cg_window_id,
            owner_bounds: self.owner_bounds,
            owner: self.owner.clone(),
            surface_id: self.surface_id.clone(),
            capture_revision: self.capture_revision.clone(),
            geometry_revision: self.geometry_revision.clone(),
            observation_epoch: self.observation_epoch,
        }
    }
}

pub open spec fn surface_stale(point: ResolvedPoint, message: Seq<char>) -> errors::ErrorView {
    errors::ErrorView::stale(ErrorCode::SurfaceStale, message).with(
        "surface_id"@,
        evidence::DetailView::Text(point.surface_id@),
    ).with("capture_revision"@, evidence::DetailView::Text(point.capture_revision@)).with(
        "geometry_revision"@,
        evidence::DetailView::Text(point.geometry_revision@),
    )
}

/// A captured point that no longer stands for a place on its surface.
pub fn stale_surface(point: &ResolvedPoint, message: &str) -> (error: NativeError)
    ensures
        error@ == surface_stale(*point, message@),
{
    NativeError::stale(ErrorCode::SurfaceStale, message).with_text(
        "surface_id",
        point.surface_id.as_str(),
    ).with_text("capture_revision", point.capture_revision.as_str()).with_text(
        "geometry_revision",
        point.geometry_revision.as_str(),
    )
}

/// Why a point does not belong to the target that an action is bound to.
pub open spec fn point_refusal(
    target: contracts::StampView,
    scope_owner: contracts::StampView,
    point: ResolvedPoint,
) -> Option<errors::ErrorView> {
    if point.window@ != target || scope_owner != target || point.geometry_revision@
        != target.geometry_revision {
        Some(
            surface_stale(
                point,
                "point/window/geometry revision no longer matches the target controller"@,
            ),
        )
    } else if !point.transform_agrees {
        Some(
            surface_stale(
                point,
                "captured point no longer matches its observation-owned window transform"@,
            ),
        )
    } else {
        None
    }
}

pub fn ensure_point_matches_target(
    target: &ResolvedWindowStamp,
    scope_owner: &ResolvedWindowStamp,
    point: &ResolvedPoint,
) -> (outcome: Result<(), NativeError>)
    ensures
        match outcome {
            Ok(_) => point_refusal(target@, scope_owner@, *point) is None,
            Err(error) => point_refusal(target@, scope_owner@, *point) == Some(error@),
        },
{
    if !point.window.same(target) || !scope_owner.same(target) || !same_text(
        point.geometry_revision.as_str(),
        target.geometry_revision.as_str(),
    ) {
        return Err(
            stale_surface(
                point,
                "point/window/geometry revision no longer matches the target controller",
            ),
        );
    }
    if !point.transform_agrees {
        return Err(
            stale_surface(
                point,
                "captured point no longer matches its observation-owned window transform",
            ),
        );
    }
    Ok(())
}

/// Why a point's surface does not belong to the target.
pub open spec fn owner_refusal(target: contracts::StampView, point: ResolvedPoint) -> Option<
    errors::ErrorView,
> {
    match point.surface_owner {
        SurfaceOwner::Target(owner) => if owner@ != target {
            Some(
                surface_stale(
                    point,
                    "captured target surface owner no longer matches the target controller"@,
                ),
            )
        } else {
            None
        },
        SurfaceOwner::RelatedTransient { parent, .. } => if parent@ != target {
            Some(
                surface_stale(
                    point,
                    "captured transient parent no longer matches the target controller"@,
                ),
            )
        } else {
            None
        },
    }
}

/// Checks a point before the live facts of its surface are looked up.
pub fn check_point_owner(
    target: &ResolvedWindowStamp,
    scope_owner: &ResolvedWindowStamp,
    point: &ResolvedPoint,
) -> (outcome: Result<(), NativeError>)
    ensures
        match outcome {
            Ok(_) => point_refusal(target@, scope_owner@, *point) is None && owner_refusal(
                target@,
                *point,
            ) is None,
            Err(error) => match point_refusal(target@, scope_owner@, *point) {
                Some(refusal) => error@ == refusal,
                None => owner_refusal(target@, *point) == Some(error@),
            },
        },
{
    if let Err(error) = ensure_point_matches_target(target, scope_owner, point) {
        return Err(error);
    }
    match &point.surface_owner {
        SurfaceOwner::Target(owner) => {
            if !owner.same(target) {
                return Err(
                    stale_surface(
                        point,
                        "captured target surface owner no longer matches the target controller",
                    ),
                );
            }
        },
        SurfaceOwner::RelatedTransient { parent, .. } => {
            if !parent.same(target) {
                return Err(
                    stale_surface(
                        point,
                        "captured transient parent no longer matches the target controller",
                    ),
                );
            }
        },
    }
    Ok(())
}

/// Why the live facts of a surface do not hold a point.
pub open spec fn facts_refusal(point: ResolvedPoint, facts: PointFacts) -> Option<
    errors::ErrorView,
> {
    if point.surface_owner is Target && facts.stamp@ != point.window@ {
        Some(
            surface_stale(point, "live target window facts changed after point observation"@),
        )
    } else if point.surface_owner is RelatedTransient && facts.stamp@
        != point.surface_owner.stamp() {
        Some(
            surface_stale(point, "live transient window facts changed after point observation"@),
        )
    } else if !facts.contains_point {
        Some(
            surface_stale(point, "captured point lies outside its live native surface owner"@),
        )
    } else if !facts.reproduces_point {
        Some(
            surface_stale(
                point,
                "captured point transform no longer reproduces its live screen point"@,
            ),
        )
    } else if point.observation_epoch is None {
        Some(
            surface_stale(
                point,
                "captured point has no exact native observation journal epoch"@,
            ),
        )
    } else {
        None
    }
}

/// Where an event at a checked point goes.
pub fn prepare_point(point: &ResolvedPoint, facts: &PointFacts) -> (native: Result<
    NativePoint,
    NativeError,
>)
    ensures
        match native {
            Ok(native) => facts_refusal(*point, *facts) is None && native@ == (PointView {
                screen: facts.screen,
                window_local: facts.window_local,
                pid: facts.pid,
                cg_window_id: facts.cg_window_id,
                owner_bounds: facts.bounds,
                owner: point.surface_owner.stamp(),
                surface_id: point.surface_id@,
                capture_revision: point.capture_revision@,
                geometry_revision: point.geometry_revision@,
                observation_epoch: point.observation_epoch->0,
            }),
            Err(error) => facts_refusal(*point, *facts) == Some(error@),
        },
{
    match &point.surface_owner {
        SurfaceOwner::Target(_) => {
            if !facts.stamp.same(&point.window) {
                return Err(
                    stale_surface(
                        point,
                        "live target window facts changed after point observation",
                    ),
                );
            }
        },
        SurfaceOwner::RelatedTransient { owner, .. } => {
            if !facts.stamp.same(owner) {
                return Err(
                    stale_surface(
                        point,
                        "live transient window facts changed after point observation",
                    ),
                );
            }
        },
    }
    if !facts.contains_point {
        return Err(
            stale_surface(point, "captured point lies outside its live native surface owner"),
        );
    }
    if !facts.reproduces_point {
        return Err(
            stale_surface(
                point,
                "captured point transform no longer reproduces its live screen point",
            ),
        );
    }
    let observation_epoch: u64 = match point.observation_epoch {
        Some(epoch) => epoch,
        None => {
            return Err(
                stale_surface(
                    point,
                    "captured point has no exact native observation journal epoch",
                ),
            );
        },
    };
    Ok(
        NativePoint {
            screen: facts.screen,
            window_local: facts.window_local,
            pid: facts.pid,
            cg_window_id: facts.cg_window_id,
            owner_bounds: facts.bounds,
            owner: surface_owner_stamp(&point.surface_owner).clone(),
            surface_id: point.surface_id.clone(),
            capture_revision: point.capture_revision.clone(),
            geometry_revision: point.geometry_revision.clone(),
            observation_epoch,
        },
    )
}

/// Whether two points lie on one captured surface.
pub open spec fn same_surface(start: PointView, end: PointView) -> bool {
    PointView {
        screen: end.screen,
        window_local: end.window_local,
        owner_bounds: end.owner_bounds,
        ..start
    } == end
}

/// A drag begins and ends on one captured surface.
pub fn ensure_same_drag_surface(start: &NativePoint, end: &NativePoint) -> (outcome: Result<
    (),
    NativeError,
>)
    ensures
        outcome is Ok <==> same_surface(start@, end@),
        outcome matches Err(error) ==> error@ == errors::ErrorView::stale(
            ErrorCode::SurfaceStale,
            "drag endpoints do not belong to the same captured native surface"@,
        ),
{
    if start.pid != end.pid || start.cg_window_id != end.cg_window_id || !start.owner.same(
        &end.owner,
    ) || !same_text(start.surface_id.as_str(), end.surface_id.as_str()) || !same_text(
        start.capture_revision.as_str(),
        end.capture_revision.as_str(),
    ) || !same_text(start.geometry_revision.as_str(), end.geometry_revision.as_str())
        || start.observation_epoch != end.observation_epoch {
        return Err(
            NativeError::stale(
                ErrorCode::SurfaceStale,
                "drag endpoints do not belong to the same captured native surface",
            ),
        );
    }
    Ok(())
}

#[derive(Debug, Clone, Copy, PartialEq, Eq, Structural)]
pub enum PreparedMouseEventKind {
    Down,
    Dragged,
    Up,
}

/// Which of a sequence's points an event is at.
#[derive(Debug, Clone, Copy, PartialEq, Eq, Structural)]
pub enum EventPoint {
    Start,
    /// Halfway from the start to the end.
    Midpoint,
    End,
}

#[derive(Debug)]
pub struct PreparedMouseEvent {
    pub kind: PreparedMouseEventKind,
    pub at: EventPoint,
    pub button: MouseButton,
    pub click_state: u8,
    pub modifiers: Vec<Modifier>,
    pub scheduled_after_ms: u64,
}

#[derive(Debug)]
pub enum PreparedPointerEvent {
    Mouse(PreparedMouseEvent),
    /// Scrolls by the requested delta, which is given by its bits.
    PixelScroll { at: EventPoint, delta_x: i64, delta_y: i64, scheduled_after_ms: u64 },
}

#[verifier::ext_equal]
pub ghost struct MouseView {
    pub kind: PreparedMouseEventKind,
    pub at: EventPoint,
    pub button: MouseButton,
    pub click_state: u8,
    pub modifiers: Seq<Modifier>,
    pub scheduled_after_ms: u64,
}

#[verifier::ext_equal]
pub ghost enum EventView {
    Mouse(MouseView),
    PixelScroll { at: EventPoint, delta_x: i64, delta_y: i64, scheduled_after_ms: u64 },
}

impl View for PreparedPointerEvent {
    type V = EventView;

    open spec fn view(&self) -> EventView {
        match self {
            PreparedPointerEvent::Mouse(event) => EventView::Mouse(
                MouseView {
                    kind: event.kind,
                    at: event.at,
                    button: event.button,
                    click_state: event.click_state,
                    modifiers: event.modifiers@,
                    scheduled_after_ms: event.scheduled_after_ms,
                },
            ),
            PreparedPointerEvent::PixelScroll { at, delta_x, delta_y, scheduled_after_ms } =>
                EventView::PixelScroll {
                    at: *at,
                    delta_x: *delta_x,
                    delta_y: *delta_y,
                    scheduled_after_ms: *scheduled_after_ms,
                },
        }
    }
}

impl EventView {
    pub open spec fn point(self) -> EventPoint {
        match self {
            EventView::Mouse(event) => event.at,
            EventView::PixelScroll { at, .. } => at,
        }
    }

    pub open spec fn after(self) -> u64 {
        match self {
            EventView::Mouse(event) => event.scheduled_after_ms,
            EventView::PixelScroll { scheduled_after_ms, .. } => scheduled_after_ms,
        }
    }
}

impl PreparedPointerEvent {
    pub fn point(&self) -> (at: EventPoint)
        ensures
            at == self@.point(),
    {
        match self {
            PreparedPointerEvent::Mouse(event) => event.at,
            PreparedPointerEvent::PixelScroll { at, .. } => *at,
        }
    }

    /// Milliseconds from the start of the sequence to the event.
    pub fn scheduled_after(&self) -> (after: u64)
        ensures
            after == self@.after(),
    {
        match self {
            PreparedPointerEvent::Mouse(event) => event.scheduled_after_ms,
            PreparedPointerEvent::PixelScroll { scheduled_after_ms, .. } => *scheduled_after_ms,
        }
    }
}

pub open spec fn events_view(events: Seq<PreparedPointerEvent>) -> Seq<EventView> {
    events.map_values(|event: PreparedPointerEvent| event@)
}

/// Events that are posted together, to one target.
#[derive(Debug)]
pub struct PreparedSequence {
    pub start: NativePoint,
    pub target: NativePoint,
    pub events: Vec<PreparedPointerEvent>,
}

fn clone_modifiers(modifiers: &Vec<Modifier>) -> (copy: Vec<Modifier>)
    ensures
        copy@ == modifiers@,
{
    let mut copy: Vec<Modifier> = Vec::new();
    let mut index: usize = 0;
    while index < modifiers.len()
        invariant
            index <= modifiers.len(),
            copy@ == modifiers@.take(index as int),
        decreases modifiers.len() - index,
    {
        copy.push(modifiers[index]);
        index = index + 1;
        assert(copy@ =~= modifiers@.take(index as int));
    }
    assert(modifiers@.take(index as int) =~= modifiers@);
    copy
}

fn mouse_event(
    kind: PreparedMouseEventKind,
    at: EventPoint,
    button: MouseButton,
    click_state: u8,
    modifiers: &Vec<Modifier>,
    scheduled_after_ms: u64,
) -> (event: PreparedPointerEvent)
    ensures
        event@ == EventView::Mouse(
            MouseView {
                kind,
                at,
                button,
                click_state,
                modifiers: modifiers@,
                scheduled_after_ms,
            },
        ),
{
    PreparedPointerEvent::Mouse(
        PreparedMouseEvent {
            kind,
            at,
            button,
            click_state,
            modifiers: clone_modifiers(modifiers),
            scheduled_after_ms,
        },
    )
}

/// The events of a click: the button goes down and up once for each click, and
/// the click state counts up.
pub open spec fn click_event(button: MouseButton, modifiers: Seq<Modifier>, i: int) -> EventView {
    EventView::Mouse(
        MouseView {
            kind: if i % 2 == 0 {
                PreparedMouseEventKind::Down
            } else {
                PreparedMouseEventKind::Up
            },
            at: EventPoint::Start,
            button,
            click_state: (i / 2 + 1) as u8,
            modifiers,
            scheduled_after_ms: (i * CLICK_UP_DELAY_MS) as u64,
        },
    )
}

pub open spec fn click_events(
    button: MouseButton,
    click_count: u8,
    modifiers: Seq<Modifier>,
) -> Seq<EventView> {
    Seq::new((2 * click_count) as nat, |i: int| click_event(button, modifiers, i))
}

pub fn build_click(
    point: NativePoint,
    button: MouseButton,
    click_count: u8,
    modifiers: &Vec<Modifier>,
) -> (sequence: PreparedSequence)
    ensures
        sequence.target == point,
        sequence.start@ == point@,
        events_view(sequence.events@) == click_events(button, click_count, modifiers@),
{
    let mut events: Vec<PreparedPointerEvent> = Vec::new();
    let mut pair: u8 = 0;
    while pair < click_count
        invariant
            pair <= click_count,
            events@.len() == 2 * pair,
            forall|i: int|
                0 <= i < events@.len() ==> (#[trigger] events@[i])@ == click_event(
                    button,
                    modifiers@,
                    i,
                ),
        decreases click_count - pair,
    {
        let down_index: u64 = pair as u64 * 2;
        events.push(
            mouse_event(
                PreparedMouseEventKind::Down,
                EventPoint::Start,
                button,
                pair + 1,
                modifiers,
                down_index * CLICK_UP_DELAY_MS,
            ),
        );
        events.push(
            mouse_event(
                PreparedMouseEventKind::Up,
                EventPoint::Start,
                button,
                pair + 1,
                modifiers,
                (down_index + 1) * CLICK_UP_DELAY_MS,
            ),
        );
        pair = pair + 1;
    }
    assert(events_view(events@) =~= click_events(button, click_count, modifiers@));
    PreparedSequence { start: point.clone(), target: point, events }
}

pub open spec fn drag_event(
    kind: PreparedMouseEventKind,
    at: EventPoint,
    button: MouseButton,
    click_state: u8,
    modifiers: Seq<Modifier>,
    after: u64,
) -> EventView {
    EventView::Mouse(
        MouseView { kind, at, button, click_state, modifiers, scheduled_after_ms: after },
    )
}

/// The events of a drag: down at the start, motion at the start, halfway and at
/// the end, and up at the end.
pub open spec fn drag_events(
    button: MouseButton,
    modifiers: Seq<Modifier>,
    duration_ms: u32,
) -> Seq<EventView> {
    let duration = duration_ms as u64;
    seq![
        drag_event(
            PreparedMouseEventKind::Down,
            EventPoint::Start,
            button,
            1,
            modifiers,
            0,
        ),
        drag_event(
            PreparedMouseEventKind::Dragged,
            EventPoint::Start,
            button,
            0,
            modifiers,
            0,
        ),
        drag_event(
            PreparedMouseEventKind::Dragged,
            EventPoint::Midpoint,
            button,
            0,
            modifiers,
            duration / 2,
        ),
        drag_event(
            PreparedMouseEventKind::Dragged,
            EventPoint::End,
            button,
            0,
            modifiers,
            duration,
        ),
        drag_event(PreparedMouseEventKind::Up, EventPoint::End, button, 1, modifiers, duration),
    ]
}

pub fn build_drag(
    start: NativePoint,
    end: NativePoint,
    button: MouseButton,
    modifiers: &Vec<Modifier>,
    duration_ms: u32,
) -> (sequence: PreparedSequence)
    ensures
        sequence.start == start,
        sequence.target == end,
        events_view(sequence.events@) == drag_events(button, modifiers@, duration_ms),
{
    let duration: u64 = duration_ms as u64;
    let mut events: Vec<PreparedPointerEvent> = Vec::new();
    events.push(
        mouse_event(PreparedMouseEventKind::Down, EventPoint::Start, button, 1, modifiers, 0),
    );
    events.push(
        mouse_event(PreparedMouseEventKind::Dragged, EventPoint::Start, button, 0, modifiers, 0),
    );
    events.push(
        mouse_event(
            PreparedMouseEventKind::Dragged,
            EventPoint::Midpoint,
            button,
            0,
            modifiers,
            duration / 2,
        ),
    );
    events.push(
        mouse_event(
            PreparedMouseEventKind::Dragged,
            EventPoint::End,
            button,
            0,
            modifiers,
            duration,
        ),
    );
    events.push(
        mouse_event(PreparedMouseEventKind::Up, EventPoint::End, button, 1, modifiers, duration),
    );
    assert(events_view(events@) =~= drag_events(button, modifiers@, duration_ms));
    PreparedSequence { start, target: end, events }
}

/// One scroll event at a point, by a delta that is given by its bits.
pub fn build_delta_scroll(point: NativePoint, delta_x: i64, delta_y: i64) -> (sequence:
    PreparedSequence)
    ensures
        sequence.target == point,
        sequence.start@ == point@,
        events_view(sequence.events@) == seq![
            EventView::PixelScroll {
                at: EventPoint::Start,
                delta_x,
                delta_y,
                scheduled_after_ms: 0,
            },
        ],
{
    let events: Vec<PreparedPointerEvent> = vec![
        PreparedPointerEvent::PixelScroll {
            at: EventPoint::Start,
            delta_x,
            delta_y,
            scheduled_after_ms: 0,
        },
    ];
    assert(events_view(events@) =~= seq![
        EventView::PixelScroll { at: EventPoint::Start, delta_x, delta_y, scheduled_after_ms: 0 },
    ]);
    PreparedSequence { start: point.clone(), target: point, events }
}

/// When a sequence is over, in milliseconds from its start.
pub open spec fn sequence_duration(events: Seq<EventView>) -> u64 {
    if events.len() == 0 {
        0
    } else {
        events.last().after()
    }
}

/// Why a sequence that starts now is not over in time.
pub open spec fn deadline_refusal(events: Seq<EventView>, now: u64, deadline: u64) -> Option<
    errors::ErrorView,
> {
    let duration = sequence_duration(events);
    let completes_at = now + duration * 1_000_000;
    if completes_at > u64::MAX {
        Some(
            errors::ErrorView::new(
                ErrorCode::DispatchFailed,
                ErrorPhase::Preflight,
                false,
                "pointer sequence duration exceeds the platform clock range"@,
            ),
        )
    } else if completes_at > deadline {
        Some(
            errors::ErrorView::new(
                ErrorCode::DispatchFailed,
                ErrorPhase::Preflight,
                true,
                "pointer sequence cannot complete inside the controller-owned work deadline"@,
            ).with("sequence_duration_ms"@, evidence::DetailView::Int(duration as int)),
        )
    } else {
        None
    }
}

/// A sequence has to be over before the deadline of its action; times are in
/// nanoseconds.
pub fn ensure_sequence_fits_deadline(sequence: &PreparedSequence, now: u64, deadline: u64) -> (outcome:
    Result<(), NativeError>)
    ensures
        match outcome {
            Ok(_) => deadline_refusal(events_view(sequence.events@), now, deadline) is None,
            Err(error) => deadline_refusal(events_view(sequence.events@), now, deadline) == Some(
                error@,
            ),
        },
{
    let duration: u64 = if sequence.events.len() == 0 {
        0
    } else {
        assert(events_view(sequence.events@).last() == sequence.events@.last()@);
        sequence.events[sequence.events.len() - 1].scheduled_after()
    };
    let completes_at: u128 = now as u128 + duration as u128 * 1_000_000u128;
    if completes_at > u64::MAX as u128 {
        return Err(
            NativeError::new(
                ErrorCode::DispatchFailed,
                ErrorPhase::Preflight,
                false,
                "pointer sequence duration exceeds the platform clock range",
            ),
        );
    }
    if completes_at > deadline as u128 {
        return Err(
            NativeError::new(
                ErrorCode::DispatchFailed,
                ErrorPhase::Preflight,
                true,
                "pointer sequence cannot complete inside the controller-owned work deadline",
            ).with_int("sequence_duration_ms", duration as i128),
        );
    }
    Ok(())
}

/// A pointer action that is ready to be dispatched. Afterwards the logical
/// cursor is at the sequence's target.
#[derive(Debug)]
pub struct MacPreparedPointerAction {
    pub sequence: PreparedSequence,
    pub route_name: &'static str,
}

/// Prepares a sequence that can be over in time.
pub fn prepare_sequence(
    sequence: PreparedSequence,
    route_name: &'static str,
    now: u64,
    deadline: u64,
) -> (prepared: Result<MacPreparedPointerAction, NativeError>)
    ensures
        match prepared {
            Ok(prepared) => deadline_refusal(events_view(sequence.events@), now, deadline) is None
                && prepared.sequence == sequence && prepared.route_name@ == route_name@,
            Err(error) => deadline_refusal(events_view(sequence.events@), now, deadline) == Some(
                error@,
            ),
        },
{
    match ensure_sequence_fits_deadline(&sequence, now, deadline) {
        Ok(_) => Ok(MacPreparedPointerAction { sequence, route_name }),
        Err(error) => Err(error),
    }
}

/// A scroll delta has to be a whole number of 32 bits; `value` is there where
/// it is one.
pub fn validate_integral_scroll_delta(value: Option<i32>, field: &str) -> (delta: Result<
    i32,
    NativeError,
>)
    ensures
        match value {
            Some(value) => delta == Ok::<i32, NativeError>(value),
            None => delta matches Err(error) && error@ == errors::ErrorView::new(
                ErrorCode::UnsupportedInBackground,
                ErrorPhase::Preflight,
                false,
                "the recovered macOS pixel-scroll route requires an integral 32-bit logical delta"@,
            ).with(
                "recipe_status"@,
                evidence::DetailView::Text("native_integer_delta_required"@),
            ).with("field"@, evidence::DetailView::Text(field@)),
        },
{
    match value {
        Some(value) => Ok(value),
        None => Err(
            NativeError::new(
                ErrorCode::UnsupportedInBackground,
                ErrorPhase::Preflight,
                false,
                "the recovered macOS pixel-scroll route requires an integral 32-bit logical delta",
            ).with_text("recipe_status", "native_integer_delta_required").with_text("field", field),
        ),
    }
}

/// A page scroll by the pointer needs the bounds of its element.
pub fn page_scroll_bounds(has_bounds: bool) -> (outcome: Result<(), NativeError>)
    ensures
        outcome is Ok <==> has_bounds,
        outcome matches Err(error) ==> error@ == errors::ErrorView::unsupported(
            "signed-compatible page scroll requires exact current element bounds"@,
        ).with("recipe_status"@, evidence::DetailView::Text("element_bounds_required"@)),
{
    if has_bounds {
        Ok(())
    } else {
        Err(
            NativeError::unsupported(
                "signed-compatible page scroll requires exact current element bounds",
            ).with_text("recipe_status", "element_bounds_required"),
        )
    }
}

/// The name of the pointer route of an action.
pub open spec fn pointer_route_of(shape: ActionShape, has_point: bool) -> Option<Seq<char>> {
    match shape {
        ActionShape::PointClick { .. } => Some("macos_targeted_pointer_click"@),
        ActionShape::Drag => Some("macos_targeted_pointer_drag"@),
        ActionShape::ElementScroll => if has_point {
            Some("macos_signed_page_scroll_post_to_pid"@)
        } else {
            None
        },
        ActionShape::DeltaScroll => Some("macos_targeted_pointer_pixel_scroll"@),
        _ => None,
    }
}

/// Starts to prepare a pointer action: the target has to be live, in a pointer
/// scope, and the action one of the pointer's.
pub fn begin_prepare(invalidated: bool, route: Route, shape: &ActionShape, has_point: bool) -> (name:
    Result<&'static str, NativeError>)
    ensures
        if invalidated || !(route is TargetedPointer) {
            name matches Err(error) && error@ == errors::ErrorView::stale(
                ErrorCode::WindowIdentityChanged,
                "targeted pointer prepare requires a live targeted-pointer scope"@,
            )
        } else {
            match pointer_route_of(*shape, has_point) {
                Some(wanted) => name matches Ok(name) && name@ == wanted,
                None => name matches Err(error) && error@ == errors::ErrorView::new(
                    ErrorCode::Internal,
                    ErrorPhase::Preflight,
                    false,
                    "non-pointer action reached macOS pointer prepare"@,
                ),
            }
        },
{
    if invalidated || route != Route::TargetedPointer {
        return Err(
            NativeError::stale(
                ErrorCode::WindowIdentityChanged,
                "targeted pointer prepare requires a live targeted-pointer scope",
            ),
        );
    }
    match shape {
        ActionShape::PointClick { .. } => Ok("macos_targeted_pointer_click"),
        ActionShape::Drag => Ok("macos_targeted_pointer_drag"),
        ActionShape::ElementScroll if has_point => Ok("macos_signed_page_scroll_post_to_pid"),
        ActionShape::DeltaScroll => Ok("macos_targeted_pointer_pixel_scroll"),
        _ => Err(
            NativeError::new(
                ErrorCode::Internal,
                ErrorPhase::Preflight,
                false,
                "non-pointer action reached macOS pointer prepare",
            ),
        ),
    }
}

/// A pointer dispatch needs the target that it was prepared for.
pub fn ensure_dispatch_target(
    invalidated: bool,
    target: &ResolvedWindowStamp,
    scope_owner: &ResolvedWindowStamp,
) -> (outcome: Result<(), NativeError>)
    ensures
        outcome is Ok <==> !invalidated && scope_owner@ == target@,
        outcome matches Err(error) ==> error@ == errors::ErrorView::stale(
            ErrorCode::WindowIdentityChanged,
            "targeted pointer dispatch target changed after prepare"@,
        ),
{
    if invalidated || !scope_owner.same(target) {
        return Err(
            NativeError::stale(
                ErrorCode::WindowIdentityChanged,
                "targeted pointer dispatch target changed after prepare",
            ),
        );
    }
    Ok(())
}

/// Nothing may have happened to the target since its point was captured.
pub fn ensure_dispatch_epoch(
    invalidated: bool,
    target: &ResolvedWindowStamp,
    scope_owner: &ResolvedWindowStamp,
    epoch: u64,
    sequence: &PreparedSequence,
) -> (outcome: Result<(), NativeError>)
    ensures
        outcome is Ok <==> !invalidated && scope_owner@ == target@ && epoch
            == sequence.target.observation_epoch,
        outcome matches Err(error) ==> error@ == errors::ErrorView::stale(
            ErrorCode::ObservationRaced,
            "pointer target or observation epoch changed during final live-facts validation"@,
        ),
{
    if invalidated || !scope_owner.same(target) || epoch != sequence.target.observation_epoch {
        return Err(
            NativeError::stale(
                ErrorCode::ObservationRaced,
                "pointer target or observation epoch changed during final live-facts validation",
            ),
        );
    }
    Ok(())
}

/// The scope and the geometry of a sequence are those it was prepared in.
pub fn revalidate_sequence_scope(
    target: &ResolvedWindowStamp,
    scope_owner: &ResolvedWindowStamp,
    scope_window: &ResolvedWindowStamp,
    sequence: &PreparedSequence,
) -> (outcome: Result<(), NativeError>)
    ensures
        outcome is Ok <==> scope_owner@ == target@ && scope_window@ == target@
            && sequence.target.geometry_revision@ == target.geometry_revision@,
        outcome matches Err(error) ==> error@ == errors::ErrorView::stale(
            ErrorCode::WindowIdentityChanged,
            "pointer target/window geometry changed after native action preparation"@,
        ),
{
    if !scope_owner.same(target) || !scope_window.same(target) || !same_text(
        sequence.target.geometry_revision.as_str(),
        target.geometry_revision.as_str(),
    ) {
        return Err(
            NativeError::stale(
                ErrorCode::WindowIdentityChanged,
                "pointer target/window geometry changed after native action preparation",
            ),
        );
    }
    Ok(())
}

/// The live owner of a sequence's surface.
#[derive(Debug)]
pub struct LiveOwner {
    pub pid: i32,
    pub cg_window_id: u32,
    pub bounds: AxBounds,
    pub stamp: ResolvedWindowStamp,
}

/// A point still lies on its live owner.
pub open spec fn on_owner(point: PointView, owner: LiveOwner) -> bool {
    point.pid == owner.pid && point.cg_window_id == owner.cg_window_id && point.owner_bounds
        == owner.bounds && point.owner == owner.stamp@
}

fn is_on_owner(point: &NativePoint, owner: &LiveOwner) -> (on: bool)
    ensures
        on == on_owner(point@, *owner),
{
    point.pid == owner.pid && point.cg_window_id == owner.cg_window_id && point.owner_bounds
        == owner.bounds && point.owner.same(&owner.stamp)
}

impl PreparedSequence {
    /// Where an event of the sequence goes; halfway is on the start's surface.
    pub open spec fn place(&self, at: EventPoint) -> PointView {
        match at {
            EventPoint::End => self.target@,
            _ => self.start@,
        }
    }
}

/// Why a sequence must not be posted to its live owner. `screen_agrees` says
/// that every event's place in the window leads to its place on the screen.
pub open spec fn sequence_refusal(
    sequence: PreparedSequence,
    owner: LiveOwner,
    screen_agrees: bool,
) -> Option<errors::ErrorView> {
    let events = events_view(sequence.events@);
    if !on_owner(sequence.target@, owner) {
        Some(
            errors::ErrorView::stale(
                ErrorCode::SurfaceStale,
                "pointer surface owner facts or geometry changed before the first native post"@,
            ).with("surface_id"@, evidence::DetailView::Text(sequence.target.surface_id@)).with(
                "capture_revision"@,
                evidence::DetailView::Text(sequence.target.capture_revision@),
            ).with(
                "geometry_revision"@,
                evidence::DetailView::Text(sequence.target.geometry_revision@),
            ),
        )
    } else if events.len() > 0 && !(screen_agrees && forall|i: int|
        0 <= i < events.len() ==> on_owner(
            sequence.place((#[trigger] events[i]).point()),
            owner,
        )) {
        Some(
            errors::ErrorView::stale(
                ErrorCode::SurfaceStale,
                "prepared pointer event no longer matches final live surface geometry"@,
            ),
        )
    } else {
        None
    }
}

/// The last proof before a sequence is posted: its surface is where it was.
pub fn revalidate_sequence_target(
    sequence: &PreparedSequence,
    owner: &LiveOwner,
    screen_agrees: bool,
) -> (outcome: Result<(), NativeError>)
    ensures
        match outcome {
            Ok(_) => sequence_refusal(*sequence, *owner, screen_agrees) is None,
            Err(error) => sequence_refusal(*sequence, *owner, screen_agrees) == Some(error@),
        },
{
    if !is_on_owner(&sequence.target, owner) {
        return Err(
            NativeError::stale(
                ErrorCode::SurfaceStale,
                "pointer surface owner facts or geometry changed before the first native post",
            ).with_text("surface_id", sequence.target.surface_id.as_str()).with_text(
                "capture_revision",
                sequence.target.capture_revision.as_str(),
            ).with_text("geometry_revision", sequence.target.geometry_revision.as_str()),
        );
    }
    let start_on_owner: bool = is_on_owner(&sequence.start, owner);
    let ghost events = events_view(sequence.events@);
    let mut index: usize = 0;
    while index < sequence.events.len()
        invariant
            index <= sequence.events.len(),
            events == events_view(sequence.events@),
            start_on_owner == on_owner(sequence.start@, *owner),
            on_owner(sequence.target@, *owner),
            index > 0 ==> screen_agrees,
            forall|i: int|
                0 <= i < index ==> on_owner(
                    sequence.place((#[trigger] events[i]).point()),
                    *owner,
                ),
        decreases sequence.events.len() - index,
    {
        assert(events[index as int] == sequence.events@[index as int]@);
        let here: bool = match sequence.events[index].point() {
            EventPoint::End => true,
            _ => start_on_owner,
        };
        if !here || !screen_agrees {
            assert(!here ==> !on_owner(sequence.place(events[index as int].point()), *owner));
            return Err(
                NativeError::stale(
                    ErrorCode::SurfaceStale,
                    "prepared pointer event no longer matches final live surface geometry",
                ),
            );
        }
        index = index + 1;
    }
    Ok(())
}

/// Makes the first post of a sequence only if nothing was signalled since its
/// point was captured: otherwise nothing is posted.
pub fn commit_first_post<T, F: FnOnce() -> Result<T, NativeError>>(
    journal: &MacSignalJournal,
    expected: u64,
    post: F,
) -> (outcome: Result<T, NativeError>)
    requires
        journal.mutations() == expected ==> post.requires(()),
    ensures
        journal.mutations() != expected ==> (outcome matches Err(error) && error@
            == errors::ErrorView::stale(
            ErrorCode::ObservationRaced,
            "native signal journal advanced after the captured-point observation"@,
        ).with("observed_epoch"@, evidence::DetailView::Int(expected as int)).with(
            "current_epoch"@,
            evidence::DetailView::Int(journal.mutations() as int),
        )),
        journal.mutations() == expected ==> post.ensures((), outcome),
{
    match journal.commit_if_epoch(expected, post) {
        Err(error) => Err(error),
        Ok(Some(value)) => Ok(value),
        Ok(None) => Err(
            NativeError::stale(
                ErrorCode::ObservationRaced,
                "native signal journal advanced after the captured-point observation",
            ).with_int("observed_epoch", expected as i128).with_int(
                "current_epoch",
                journal.epoch() as i128,
            ),
        ),
    }
}

/// What became of a button that was still down.
#[derive(Debug, Clone, Copy, PartialEq, Eq, Structural)]
pub struct CleanupResult {
    pub attempted: bool,
    pub succeeded: bool,
}

impl CleanupResult {
    pub fn not_needed() -> (result: CleanupResult)
        ensures
            result == (CleanupResult { attempted: false, succeeded: true }),
    {
        CleanupResult { attempted: false, succeeded: true }
    }
}

/// The event that lets a button go, without modifiers.
pub fn cleanup_event(button: MouseButton, at: EventPoint) -> (event: PreparedPointerEvent)
    ensures
        event@ == EventView::Mouse(
            MouseView {
                kind: PreparedMouseEventKind::Up,
                at,
                button,
                click_state: 1,
                modifiers: Seq::empty(),
                scheduled_after_ms: 0,
            },
        ),
{
    let none: Vec<Modifier> = Vec::new();
    assert(none@ =~= Seq::<Modifier>::empty());
    mouse_event(PreparedMouseEventKind::Up, at, button, 1, &none, 0)
}

/// What a failure reports of its cleanup.
pub open spec fn with_cleanup(
    error: errors::ErrorView,
    cleanup: CleanupResult,
    completed_events: usize,
) -> errors::ErrorView {
    let error = error.with(
        "completed_events"@,
        evidence::DetailView::Int(completed_events as int),
    ).with("cleanup_attempted"@, evidence::DetailView::Bool(cleanup.attempted)).with(
        "cleanup_succeeded"@,
        evidence::DetailView::Bool(cleanup.succeeded),
    );
    if cleanup.attempted && !cleanup.succeeded {
        errors::ErrorView { retryable: false, ..error }
    } else {
        error
    }
}

pub fn error_with_cleanup(error: NativeError, cleanup: CleanupResult, completed_events: usize) -> (reported:
    NativeError)
    ensures
        reported@ == with_cleanup(error@, cleanup, completed_events),
{
    let mut error: NativeError = error.with_int(
        "completed_events",
        completed_events as i128,
    ).with_bool("cleanup_attempted", cleanup.attempted).with_bool(
        "cleanup_succeeded",
        cleanup.succeeded,
    );
    if cleanup.attempted && !cleanup.succeeded {
        error.retryable = false;
    }
    error
}

/// What a dispatch reports of itself.
#[derive(Debug, Clone, Copy, PartialEq, Eq, Structural)]
pub struct PointerDispatchEvidence {
    pub completed_events: usize,
    pub cleanup_attempted: bool,
    pub cleanup_succeeded: bool,
    pub modifiers_cleared: bool,
    pub may_have_partially_landed: bool,
    pub hardware_cursor_warp_attempted: bool,
}

impl PointerDispatchEvidence {
    pub open spec fn blank() -> PointerDispatchEvidence {
        PointerDispatchEvidence {
            completed_events: 0,
            cleanup_attempted: false,
            cleanup_succeeded: false,
            modifiers_cleared: false,
            may_have_partially_landed: false,
            hardware_cursor_warp_attempted: false,
        }
    }

    pub fn new() -> (evidence: PointerDispatchEvidence)
        ensures
            evidence == PointerDispatchEvidence::blank(),
    {
        PointerDispatchEvidence {
            completed_events: 0,
            cleanup_attempted: false,
            cleanup_succeeded: false,
            modifiers_cleared: false,
            may_have_partially_landed: false,
            hardware_cursor_warp_attempted: false,
        }
    }

    pub open spec fn merged(self, fields: Map<Seq<char>, evidence::DetailView>) -> Map<
        Seq<char>,
        evidence::DetailView,
    > {
        fields.insert(
            "pointer_completed_events"@,
            evidence::DetailView::Int(self.completed_events as int),
        ).insert(
            "pointer_cleanup_attempted"@,
            evidence::DetailView::Bool(self.cleanup_attempted),
        ).insert(
            "pointer_cleanup_succeeded"@,
            evidence::DetailView::Bool(self.cleanup_succeeded),
        ).insert(
            "pointer_modifiers_cleared"@,
            evidence::DetailView::Bool(self.modifiers_cleared),
        ).insert(
            "pointer_dispatch_may_have_partially_landed"@,
            evidence::DetailView::Bool(self.may_have_partially_landed),
        ).insert(
            "hardware_cursor_warp_attempted"@,
            evidence::DetailView::Bool(self.hardware_cursor_warp_attempted),
        )
    }

    pub fn merge_into(&self, fields: &mut Fields)
        ensures
            final(fields)@ == self.merged(old(fields)@),
    {
        fields.insert("pointer_completed_events", Detail::Int(self.completed_events as i128));
        fields.insert("pointer_cleanup_attempted", Detail::Bool(self.cleanup_attempted));
        fields.insert("pointer_cleanup_succeeded", Detail::Bool(self.cleanup_succeeded));
        fields.insert("pointer_modifiers_cleared", Detail::Bool(self.modifiers_cleared));
        fields.insert(
            "pointer_dispatch_may_have_partially_landed",
            Detail::Bool(self.may_have_partially_landed),
        );
        fields.insert(
            "hardware_cursor_warp_attempted",
            Detail::Bool(self.hardware_cursor_warp_attempted),
        );
    }

    /// A button that could not be let go leaves the target unusable.
    pub fn poisons_target(&self) -> (poisons: bool)
        ensures
            poisons == (self.cleanup_attempted && !self.cleanup_succeeded),
    {
        self.cleanup_attempted && !self.cleanup_succeeded
    }
}

/// The button that counts as down once an event is being posted. A failed post
/// may have landed, so a press counts from then on.
pub open spec fn pressing(
    pressed: Option<(MouseButton, EventPoint)>,
    event: EventView,
) -> Option<(MouseButton, EventPoint)> {
    match event {
        EventView::Mouse(mouse) if mouse.kind is Down => Some((mouse.button, mouse.at)),
        _ => pressed,
    }
}

/// The button that is down after an event was posted.
pub open spec fn posted_state(
    pressed: Option<(MouseButton, EventPoint)>,
    event: EventView,
) -> Option<(MouseButton, EventPoint)> {
    match event {
        EventView::Mouse(mouse) if mouse.kind is Up => None,
        _ => pressing(pressed, event),
    }
}

/// The button that is down after the first few events of a sequence.
pub open spec fn pressed_after(events: Seq<EventView>, count: nat) -> Option<
    (MouseButton, EventPoint),
>
    decreases count,
{
    if count == 0 {
        None
    } else {
        posted_state(pressed_after(events, (count - 1) as nat), events[count - 1])
    }
}

/// A sequence while it is being posted. Times are in nanoseconds.
#[derive(Debug, Clone, Copy)]
pub struct PointerRun {
    pub started_at: u64,
    pub deadline: u64,
    /// An event is being posted.
    pub posting: bool,
    pub pressed: Option<(MouseButton, EventPoint)>,
    pub evidence: PointerDispatchEvidence,
}

/// What is owed when a sequence fails.
#[derive(Debug, Clone, Copy)]
pub struct FailurePlan {
    /// Something may have reached the target.
    pub dispatch_started: bool,
    /// The button to let go, and where.
    pub release: Option<(MouseButton, EventPoint)>,
}

pub open spec fn timed_out() -> errors::ErrorView {
    errors::ErrorView::new(
        ErrorCode::DispatchFailed,
        ErrorPhase::Dispatch,
        false,
        "targeted pointer sequence exceeded the controller-owned work deadline"@,
    )
}

/// How long to wait for an event, or that it comes too late.
pub fn wait_until(scheduled: u128, now: u64, deadline: u64) -> (wait: Result<u64, NativeError>)
    ensures
        match wait {
            Ok(wait) => now <= deadline && scheduled <= deadline && wait == if scheduled > now {
                scheduled - now
            } else {
                0
            },
            Err(error) => (now > deadline || scheduled > deadline) && error@ == timed_out(),
        },
{
    if now > deadline || scheduled > deadline as u128 {
        return Err(
            NativeError::new(
                ErrorCode::DispatchFailed,
                ErrorPhase::Dispatch,
                false,
                "targeted pointer sequence exceeded the controller-owned work deadline",
            ),
        );
    }
    if scheduled > now as u128 {
        Ok((scheduled - now as u128) as u64)
    } else {
        Ok(0)
    }
}

impl PointerRun {
    /// The run has posted what it counts, and knows which button is down.
    pub open spec fn wf(&self, sequence: PreparedSequence) -> bool {
        let events = events_view(sequence.events@);
        let completed = self.evidence.completed_events;
        &&& completed <= events.len()
        &&& if self.posting {
            completed < events.len() && self.pressed == pressing(
                pressed_after(events, completed as nat),
                events[completed as int],
            )
        } else {
            self.pressed == pressed_after(events, completed as nat)
        }
        &&& !self.evidence.hardware_cursor_warp_attempted
    }

    pub fn begin(now: u64, deadline: u64, sequence: &PreparedSequence) -> (run: PointerRun)
        ensures
            run.wf(*sequence),
            run == (PointerRun {
                started_at: now,
                deadline,
                posting: false,
                pressed: None,
                evidence: PointerDispatchEvidence::blank(),
            }),
    {
        PointerRun {
            started_at: now,
            deadline,
            posting: false,
            pressed: None,
            evidence: PointerDispatchEvidence::new(),
        }
    }

    /// The event that comes next; none once all were posted.
    pub fn next(&self, sequence: &PreparedSequence) -> (index: Option<usize>)
        requires
            self.wf(*sequence),
        ensures
            match index {
                Some(index) => index == self.evidence.completed_events && index
                    < sequence.events@.len(),
                None => self.evidence.completed_events == sequence.events@.len(),
            },
    {
        if self.evidence.completed_events < sequence.events.len() {
            Some(self.evidence.completed_events)
        } else {
            None
        }
    }

    /// How long to wait before the next event.
    pub fn schedule(&self, sequence: &PreparedSequence, now: u64) -> (wait: Result<
        u64,
        NativeError,
    >)
        requires
            self.wf(*sequence),
            self.evidence.completed_events < sequence.events@.len(),
        ensures
            ({
                let event = events_view(sequence.events@)[self.evidence.completed_events as int];
                let scheduled = self.started_at + event.after() * 1_000_000;
                match wait {
                    Ok(wait) => now <= self.deadline && scheduled <= self.deadline && wait
                        == if scheduled > now {
                        scheduled - now
                    } else {
                        0
                    },
                    Err(error) => (now > self.deadline || scheduled > self.deadline) && error@
                        == timed_out(),
                }
            }),
    {
        let after: u64 = sequence.events[self.evidence.completed_events].scheduled_after();
        let scheduled: u128 = self.started_at as u128 + after as u128 * 1_000_000u128;
        wait_until(scheduled, now, self.deadline)
    }

    /// Starts to post the next event; tells whether it is the first one, which
    /// has to be made at the captured epoch.
    pub fn enter_post(&mut self, sequence: &PreparedSequence) -> (first: bool)
        requires
            old(self).wf(*sequence),
            !old(self).posting,
            old(self).evidence.completed_events < sequence.events@.len(),
        ensures
            final(self).wf(*sequence),
            final(self).posting,
            first == (old(self).evidence.completed_events == 0),
            *final(self) == (PointerRun {
                posting: true,
                pressed: final(self).pressed,
                ..*old(self)
            }),
    {
        let index: usize = self.evidence.completed_events;
        assert(events_view(sequence.events@)[index as int] == sequence.events@[index as int]@);
        match &sequence.events[index] {
            PreparedPointerEvent::Mouse(mouse) => {
                if mouse.kind == PreparedMouseEventKind::Down {
                    self.pressed = Some((mouse.button, mouse.at));
                }
            },
            PreparedPointerEvent::PixelScroll { .. } => {},
        }
        self.posting = true;
        index == 0
    }

    /// The event was posted; tells where the logical cursor is now, if it moved.
    pub fn posted(&mut self, sequence: &PreparedSequence) -> (cursor: Option<EventPoint>)
        requires
            old(self).wf(*sequence),
            old(self).posting,
        ensures
            final(self).wf(*sequence),
            !final(self).posting,
            final(self).evidence == (PointerDispatchEvidence {
                completed_events: (old(self).evidence.completed_events + 1) as usize,
                may_have_partially_landed: true,
                ..old(self).evidence
            }),
            final(self).started_at == old(self).started_at,
            final(self).deadline == old(self).deadline,
            ({
                let event = events_view(
                    sequence.events@,
                )[old(self).evidence.completed_events as int];
                cursor == match event {
                    EventView::Mouse(mouse) => if mouse.kind is Up {
                        Some(mouse.at)
                    } else {
                        None
                    },
                    EventView::PixelScroll { at, .. } => Some(at),
                }
            }),
    {
        let index: usize = self.evidence.completed_events;
        assert(events_view(sequence.events@)[index as int] == sequence.events@[index as int]@);
        assert(index < sequence.events.len());
        self.evidence.completed_events = index + 1;
        self.evidence.may_have_partially_landed = true;
        self.posting = false;
        match &sequence.events[index] {
            PreparedPointerEvent::Mouse(mouse) => {
                if mouse.kind == PreparedMouseEventKind::Up {
                    self.pressed = None;
                    Some(mouse.at)
                } else {
                    None
                }
            },
            PreparedPointerEvent::PixelScroll { at, .. } => Some(*at),
        }
    }

    /// What is owed when an event could not be posted in time or at all. A
    /// dispatch has started once the native boundary was crossed or an event
    /// was posted.
    pub fn failure(&self, boundary_started: bool) -> (plan: FailurePlan)
        ensures
            plan.dispatch_started == (boundary_started || self.evidence.completed_events > 0),
            plan.release == if plan.dispatch_started {
                self.pressed
            } else {
                None
            },
    {
        let dispatch_started: bool = boundary_started || self.evidence.completed_events > 0;
        FailurePlan {
            dispatch_started,
            release: if dispatch_started {
                self.pressed
            } else {
                None
            },
        }
    }

    /// Reports a failure once its cleanup was tried; `released` tells whether
    /// the owed release was posted.
    pub fn fail(&mut self, plan: FailurePlan, released: bool, error: NativeError) -> (reported:
        NativeError)
        ensures
            ({
                let cleanup = match plan.release {
                    Some(_) => CleanupResult { attempted: true, succeeded: released },
                    None => CleanupResult { attempted: false, succeeded: true },
                };
                &&& reported@ == with_cleanup(
                    error@,
                    cleanup,
                    old(self).evidence.completed_events,
                )
                &&& *final(self) == (PointerRun {
                    pressed: None,
                    evidence: PointerDispatchEvidence {
                        cleanup_attempted: cleanup.attempted,
                        cleanup_succeeded: cleanup.succeeded,
                        modifiers_cleared: cleanup.succeeded,
                        may_have_partially_landed: plan.dispatch_started,
                        ..old(self).evidence
                    },
                    ..*old(self)
                })
            }),
    {
        let cleanup: CleanupResult = match plan.release {
            Some(_) => CleanupResult { attempted: true, succeeded: released },
            None => CleanupResult::not_needed(),
        };
        self.pressed = None;
        self.evidence.cleanup_attempted = cleanup.attempted;
        self.evidence.cleanup_succeeded = cleanup.succeeded;
        self.evidence.modifiers_cleared = cleanup.succeeded;
        self.evidence.may_have_partially_landed = plan.dispatch_started;
        error_with_cleanup(error, cleanup, self.evidence.completed_events)
    }

    /// All events were posted.
    pub fn finish(&mut self, sequence: &PreparedSequence)
        requires
            old(self).wf(*sequence),
            old(self).evidence.completed_events == sequence.events@.len(),
        ensures
            final(self).wf(*sequence),
            *final(self) == (PointerRun {
                evidence: PointerDispatchEvidence {
                    may_have_partially_landed: false,
                    cleanup_succeeded: true,
                    modifiers_cleared: true,
                    ..old(self).evidence
                },
                ..*old(self)
            }),
    {
        self.evidence.may_have_partially_landed = false;
        self.evidence.cleanup_succeeded = true;
        self.evidence.modifiers_cleared = true;
    }
}

proof fn clicks_release_in_pairs(
    button: MouseButton,
    click_count: u8,
    modifiers: Seq<Modifier>,
    pairs: nat,
)
    requires
        pairs <= click_count,
    ensures
        pressed_after(click_events(button, click_count, modifiers), 2 * pairs) is None,
    decreases pairs,
{
    if pairs > 0 {
        let events = click_events(button, click_count, modifiers);
        clicks_release_in_pairs(button, click_count, modifiers, (pairs - 1) as nat);
        let up = events[2 * pairs - 1];
        assert(up == click_event(button, modifiers, 2 * pairs - 1));
        assert((2 * pairs - 1) % 2 == 1);
    }
}

/// A click or a drag that was posted whole leaves no button down.
pub proof fn whole_sequences_leave_no_button_down(
    button: MouseButton,
    click_count: u8,
    modifiers: Seq<Modifier>,
    duration_ms: u32,
)
    ensures
        pressed_after(
            click_events(button, click_count, modifiers),
            click_events(button, click_count, modifiers).len(),
        ) is None,
        pressed_after(
            drag_events(button, modifiers, duration_ms),
            drag_events(button, modifiers, duration_ms).len(),
        ) is None,
{
    clicks_release_in_pairs(button, click_count, modifiers, click_count as nat);
    let drag = drag_events(button, modifiers, duration_ms);
    assert(drag[4] == drag_event(
        PreparedMouseEventKind::Up,
        EventPoint::End,
        button,
        1,
        modifiers,
        duration_ms as u64,
    ));
}

/// While a drag is held its button counts as down, so a failure lets it go.
pub proof fn a_held_drag_owes_its_release(
    button: MouseButton,
    modifiers: Seq<Modifier>,
    duration_ms: u32,
    count: nat,
)
    requires
        1 <= count <= 4,
    ensures
        pressed_after(drag_events(button, modifiers, duration_ms), count) == Some(
            (button, EventPoint::Start),
        ),
{
    reveal_with_fuel(pressed_after, 5);
}

/// The name of an event's kind.
pub open spec fn event_text(event: EventView) -> Seq<char> {
    match event {
        EventView::Mouse(mouse) => match mouse.kind {
            PreparedMouseEventKind::Down => "mouse_down"@,
            PreparedMouseEventKind::Dragged => "mouse_dragged"@,
            PreparedMouseEventKind::Up => "mouse_up"@,
        },
        EventView::PixelScroll { .. } => "pixel_scroll"@,
    }
}

fn event_name(event: &PreparedPointerEvent) -> (name: &'static str)
    ensures
        name@ == event_text(event@),
{
    match event {
        PreparedPointerEvent::Mouse(mouse) => match mouse.kind {
            PreparedMouseEventKind::Down => "mouse_down",
            PreparedMouseEventKind::Dragged => "mouse_dragged",
            PreparedMouseEventKind::Up => "mouse_up",
        },
        PreparedPointerEvent::PixelScroll { .. } => "pixel_scroll",
    }
}

pub open spec fn event_texts(events: Seq<EventView>) -> Seq<Seq<char>> {
    events.map_values(|event: EventView| event_text(event))
}

pub open spec fn button_text(button: MouseButton) -> Seq<char> {
    match button {
        MouseButton::Left => "left"@,
        MouseButton::Right => "right"@,
        MouseButton::Middle => "middle"@,
    }
}

/// The greatest click state of the presses among the first few events.
pub open spec fn click_count_of(events: Seq<EventView>, count: nat) -> u8
    decreases count,
{
    if count == 0 {
        0
    } else {
        let before = click_count_of(events, (count - 1) as nat);
        match events[count - 1] {
            EventView::Mouse(mouse) if mouse.kind is Down && mouse.click_state > before
            => mouse.click_state,
            _ => before,
        }
    }
}

/// The bits of the opposite number: only the sign is another.
pub open spec fn opposite(bits: i64) -> i64 {
    if bits >= 0 {
        (bits + i64::MIN) as i64
    } else {
        (bits - i64::MIN) as i64
    }
}

fn other_sign(bits: i64) -> (other: i64)
    ensures
        other == opposite(bits),
{
    if bits >= 0 {
        bits + i64::MIN
    } else {
        bits - i64::MIN
    }
}

/// The evidence of a posted sequence. A scroll posts the opposite of what was
/// requested.
pub open spec fn sequence_fields(
    fields: Map<Seq<char>, evidence::DetailView>,
    target: PointView,
    events: Seq<EventView>,
) -> Map<Seq<char>, evidence::DetailView> {
    let fields = fields.insert(
        "pointer_screen_x"@,
        evidence::DetailView::Real(target.screen.x),
    ).insert("pointer_screen_y"@, evidence::DetailView::Real(target.screen.y)).insert(
        "pointer_window_x"@,
        evidence::DetailView::Real(target.window_local.x),
    ).insert("pointer_window_y"@, evidence::DetailView::Real(target.window_local.y)).insert(
        "pointer_event_kinds"@,
        evidence::DetailView::Texts(event_texts(events)),
    ).insert("pointer_native_post_count"@, evidence::DetailView::Int(events.len() as int));
    if events.len() == 0 {
        fields
    } else {
        match events[0] {
            EventView::Mouse(mouse) => fields.insert(
                "pointer_button"@,
                evidence::DetailView::Text(button_text(mouse.button)),
            ).insert(
                "pointer_click_count"@,
                evidence::DetailView::Int(click_count_of(events, events.len()) as int),
            ),
            EventView::PixelScroll { delta_x, delta_y, .. } => fields.insert(
                "scroll_requested_delta_x"@,
                evidence::DetailView::Real(delta_x),
            ).insert("scroll_requested_delta_y"@, evidence::DetailView::Real(delta_y)).insert(
                "scroll_posted_delta_x"@,
                evidence::DetailView::Real(opposite(delta_x)),
            ).insert(
                "scroll_posted_delta_y"@,
                evidence::DetailView::Real(opposite(delta_y)),
            ).insert(
                "scroll_units"@,
                evidence::DetailView::Text("pixel"@),
            ).insert(
                "scroll_native_primitive"@,
                evidence::DetailView::Text("CGEventCreateScrollWheelEvent"@),
            ),
        }
    }
}

pub fn append_sequence_evidence(sequence: &PreparedSequence, fields: &mut Fields)
    ensures
        final(fields)@ == sequence_fields(
            old(fields)@,
            sequence.target@,
            events_view(sequence.events@),
        ),
{
    let ghost events = events_view(sequence.events@);
    let mut names: Vec<String> = Vec::new();
    let mut clicks: u8 = 0;
    let mut index: usize = 0;
    while index < sequence.events.len()
        invariant
            index <= sequence.events.len(),
            events == events_view(sequence.events@),
            text::texts(names@) == event_texts(events).take(index as int),
            clicks == click_count_of(events, index as nat),
        decreases sequence.events.len() - index,
    {
        let ghost before = names@;
        assert(events[index as int] == sequence.events@[index as int]@);
        names.push(event_name(&sequence.events[index]).to_owned());
        assert(text::texts(names@) =~= text::texts(before).push(
            event_text(events[index as int]),
        ));
        match &sequence.events[index] {
            PreparedPointerEvent::Mouse(mouse) => {
                if mouse.kind == PreparedMouseEventKind::Down && mouse.click_state > clicks {
                    clicks = mouse.click_state;
                }
            },
            PreparedPointerEvent::PixelScroll { .. } => {},
        }
        index = index + 1;
        assert(text::texts(names@) =~= event_texts(events).take(index as int));
    }
    assert(event_texts(events).take(index as int) =~= event_texts(events));
    fields.insert("pointer_screen_x", Detail::Real(sequence.target.screen.x));
    fields.insert("pointer_screen_y", Detail::Real(sequence.target.screen.y));
    fields.insert("pointer_window_x", Detail::Real(sequence.target.window_local.x));
    fields.insert("pointer_window_y", Detail::Real(sequence.target.window_local.y));
    fields.insert("pointer_event_kinds", Detail::Texts(names));
    fields.insert("pointer_native_post_count", Detail::Int(sequence.events.len() as i128));
    if sequence.events.len() > 0 {
        assert(events[0] == sequence.events@[0]@);
        match &sequence.events[0] {
            PreparedPointerEvent::Mouse(mouse) => {
                let button: &'static str = match mouse.button {
                    MouseButton::Left => "left",
                    MouseButton::Right => "right",
                    MouseButton::Middle => "middle",
                };
                fields.insert("pointer_button", Detail::text(button));
                fields.insert("pointer_click_count", Detail::Int(clicks as i128));
            },
            PreparedPointerEvent::PixelScroll { delta_x, delta_y, .. } => {
                fields.insert("scroll_requested_delta_x", Detail::Real(*delta_x));
                fields.insert("scroll_requested_delta_y", Detail::Real(*delta_y));
                fields.insert("scroll_posted_delta_x", Detail::Real(other_sign(*delta_x)));
                fields.insert("scroll_posted_delta_y", Detail::Real(other_sign(*delta_y)));
                fields.insert("scroll_units", Detail::text("pixel"));
                fields.insert(
                    "scroll_native_primitive",
                    Detail::text("CGEventCreateScrollWheelEvent"),
                );
            },
        }
    }
}

/// The report of a sequence that was posted whole. Posting is not acknowledged,
/// so its effect is not verified.
pub fn finish_dispatch(sequence: &PreparedSequence, route_name: &str) -> (outcome: (
    NativeDispatch,
    SettlementSignal,
))
    ensures
        outcome.1 is PointerSequenceComplete,
        outcome.0@ == (actions::DispatchView {
            verification: VerificationLevel::DispatchUnverified,
            fields: sequence_fields(
                Map::empty().insert(
                    "pointer_route"@,
                    evidence::DetailView::Text(route_name@),
                ).insert(
                    "pointer_event_count"@,
                    evidence::DetailView::Int(sequence.events@.len() as int),
                ).insert(
                    "pointer_transport"@,
                    evidence::DetailView::Text("appkit_event_core_graphics_post_to_pid_once"@),
                ).insert(
                    "surface_id"@,
                    evidence::DetailView::Text(sequence.target.surface_id@),
                ).insert(
                    "capture_revision"@,
                    evidence::DetailView::Text(sequence.target.capture_revision@),
                ).insert(
                    "geometry_revision"@,
                    evidence::DetailView::Text(sequence.target.geometry_revision@),
                ).insert(
                    "observation_epoch"@,
                    evidence::DetailView::Int(sequence.target.observation_epoch as int),
                ),
                sequence.target@,
                events_view(sequence.events@),
            ),
        }),
{
    let mut fields: Fields = Fields::new();
    fields.insert("pointer_route", Detail::text(route_name));
    fields.insert("pointer_event_count", Detail::Int(sequence.events.len() as i128));
    fields.insert(
        "pointer_transport",
        Detail::text("appkit_event_core_graphics_post_to_pid_once"),
    );
    fields.insert("surface_id", Detail::text(sequence.target.surface_id.as_str()));
    fields.insert("capture_revision", Detail::text(sequence.target.capture_revision.as_str()));
    fields.insert("geometry_revision", Detail::text(sequence.target.geometry_revision.as_str()));
    fields.insert("observation_epoch", Detail::Int(sequence.target.observation_epoch as i128));
    append_sequence_evidence(sequence, &mut fields);
    (
        NativeDispatch { verification: VerificationLevel::DispatchUnverified, fields },
        SettlementSignal::PointerSequenceComplete,
    )
}

/// What a posted sequence has to find out about menus.
#[derive(Debug, Clone, Copy, PartialEq, Eq, Structural)]
pub enum PointerMenuStep {
    Nothing,
    WaitForOpened,
    AwaitReaction,
    WaitForDismissed,
}

/// The menu step of the intent that a pointer action is bound to.
pub fn pointer_menu_step(intent: &Option<MenuMutationIntent>) -> (step: PointerMenuStep)
    ensures
        step == match *intent {
            None => PointerMenuStep::Nothing,
            Some(MenuMutationIntent::Opening { .. }) => PointerMenuStep::WaitForOpened,
            Some(MenuMutationIntent::Targeting { .. }) => PointerMenuStep::AwaitReaction,
            Some(MenuMutationIntent::Dismissing { .. }) => PointerMenuStep::WaitForDismissed,
        },
{
    match intent {
        None => PointerMenuStep::Nothing,
        Some(MenuMutationIntent::Opening { .. }) => PointerMenuStep::WaitForOpened,
        Some(MenuMutationIntent::Targeting { .. }) => PointerMenuStep::AwaitReaction,
        Some(MenuMutationIntent::Dismissing { .. }) => PointerMenuStep::WaitForDismissed,
    }
}

pub open spec fn menu_timeout(message: Seq<char>) -> errors::ErrorView {
    errors::ErrorView::stale(ErrorCode::MenuStateStale, message).with(
        "native_side_effect_started"@,
        evidence::DetailView::Bool(true),
    )
}

/// Whether a look for an opened menu ends the wait; `Ok(false)` is to look
/// again.
pub fn wait_for_opened_menu(found: bool, now: u64, deadline: u64) -> (opened: Result<
    bool,
    NativeError,
>)
    ensures
        if found || now < deadline {
            opened == Ok::<bool, NativeError>(found)
        } else {
            opened matches Err(error) && error@ == menu_timeout(
                "targeted right click posted but no exact native menu identity arrived before the action deadline"@,
            )
        },
{
    if found || now < deadline {
        return Ok(found);
    }
    Err(
        NativeError::stale(
            ErrorCode::MenuStateStale,
            "targeted right click posted but no exact native menu identity arrived before the action deadline",
        ).with_bool("native_side_effect_started", true),
    )
}

/// Whether a look at a menu that should go away ends the wait; `Ok(false)` is
/// to look again.
pub fn wait_for_dismissed_menu(found: bool, now: u64, deadline: u64) -> (dismissed: Result<
    bool,
    NativeError,
>)
    ensures
        if !found || now < deadline {
            dismissed == Ok::<bool, NativeError>(!found)
        } else {
            dismissed matches Err(error) && error@ == menu_timeout(
                "parent-surface click posted but the exact native menu remained open through the action deadline"@,
            )
        },
{
    if !found || now < deadline {
        return Ok(!found);
    }
    Err(
        NativeError::stale(
            ErrorCode::MenuStateStale,
            "parent-surface click posted but the exact native menu remained open through the action deadline",
        ).with_bool("native_side_effect_started", true),
    )
}

} // verus!
