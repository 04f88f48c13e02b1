//! The state of one target controller: what invalidates it, and what its
//! process believes about focus and menus.
use vstd::prelude::*;

use crate::contracts::ResolvedWindowStamp;
use crate::driver::elements;
use crate::driver::elements::MacElementRegistry;
use crate::driver::frames;
use crate::driver::frames::MacFrameHistory;
use crate::driver::settlement::{MacAxEvent, MacSignalJournal, RecordedSignal};
use crate::errors;
use crate::errors::{ErrorCode, ErrorPhase, NativeError};
use crate::text;
use crate::text::{push_hex, push_signed_decimal, same_text};

verus! {

#[derive(Debug, Clone, Copy, PartialEq, Eq, Structural)]
pub enum WorkspaceEventKind {
    Activated,
    Terminated,
    Other,
}

/// One lifecycle event of a running application.
#[derive(Debug)]
pub struct WorkspaceEvent {
    pub kind: WorkspaceEventKind,
    pub pid: i32,
    pub bundle_id: Option<String>,
    pub process_generation: Option<u64>,
}

#[derive(Debug, Clone, Copy, PartialEq, Eq, Structural)]
pub enum InvalidationReason {
    ContentChanged,
    AccessibilityInvalidated,
    WindowChanged,
    TransientDismissed,
    DisplayChanged,
}

#[derive(Debug, Clone)]
pub enum TargetInvalidation {
    NativeStateResyncRequired,
    ProcessExited { process: String },
    ObservationChanged {
        app_id: String,
        window_id: String,
        generation: u64,
        reason: InvalidationReason,
    },
}

/// Why an AX event makes an observation of its target stale.
pub open spec fn reason_for(event: MacAxEvent) -> InvalidationReason {
    match event {
        MacAxEvent::ContentChanged
        | MacAxEvent::FocusChanged
        | MacAxEvent::MenuOpened
        | MacAxEvent::ScrollChanged => InvalidationReason::ContentChanged,
        MacAxEvent::TreeChanged
        | MacAxEvent::WindowDestroyed => InvalidationReason::AccessibilityInvalidated,
        MacAxEvent::WindowGeometryChanged => InvalidationReason::WindowChanged,
        MacAxEvent::MenuDismissed => InvalidationReason::TransientDismissed,
    }
}

pub fn invalidation_reason(event: MacAxEvent) -> (reason: InvalidationReason)
    ensures
        reason == reason_for(event),
{
    match event {
        MacAxEvent::ContentChanged
        | MacAxEvent::FocusChanged
        | MacAxEvent::MenuOpened
        | MacAxEvent::ScrollChanged => InvalidationReason::ContentChanged,
        MacAxEvent::TreeChanged
        | MacAxEvent::WindowDestroyed => InvalidationReason::AccessibilityInvalidated,
        MacAxEvent::WindowGeometryChanged => InvalidationReason::WindowChanged,
        MacAxEvent::MenuDismissed => InvalidationReason::TransientDismissed,
    }
}

/// The invalidation of one exact window.
pub fn observation_changed(window: &ResolvedWindowStamp, reason: InvalidationReason) -> (invalidation:
    TargetInvalidation)
    ensures
        invalidation matches TargetInvalidation::ObservationChanged {
            app_id,
            window_id,
            generation,
            reason: given,
        } && app_id@ == window.app_id@ && window_id@ == window.window_id@ && generation
            == window.generation && given == reason,
{
    TargetInvalidation::ObservationChanged {
        app_id: window.app_id.clone(),
        window_id: window.window_id.clone(),
        generation: window.generation,
        reason,
    }
}

pub open spec fn process_handle_text(pid: i32, generation: u64) -> Seq<char> {
    "macos:"@ + text::signed_decimal(pid as int) + seq![':'] + text::hex(generation as nat, 16)
}

/// The handle of one exact process: its id and its launch generation.
pub fn process_handle(pid: i32, generation: u64) -> (handle: String)
    ensures
        handle@ == process_handle_text(pid, generation),
{
    let mut handle: String = "macos:".to_owned();
    push_signed_decimal(&mut handle, pid as i64);
    handle.push(':');
    push_hex(&mut handle, generation, 16);
    assert(handle@ =~= process_handle_text(pid, generation));
    handle
}

/// What a subscription receives from the window registry.
#[derive(Debug)]
pub enum RegistryReceived {
    Invalidation(TargetInvalidation),
    Lagged,
    Closed,
}

/// What a subscription receives from the workspace.
#[derive(Debug)]
pub enum WorkspaceReceived {
    Event(WorkspaceEvent),
    Lagged,
    Closed,
}

/// A merged stream of invalidations. Loss in either source asks for a resync.
#[derive(Debug, Clone, Copy, PartialEq, Eq, Structural)]
pub struct MacInvalidationSubscription {
    pub registry_closed: bool,
    pub workspace_closed: bool,
}

impl MacInvalidationSubscription {
    pub fn new() -> (subscription: MacInvalidationSubscription)
        ensures
            !subscription.registry_closed,
            !subscription.workspace_closed,
    {
        MacInvalidationSubscription { registry_closed: false, workspace_closed: false }
    }

    /// The stream ends once both sources are closed.
    pub fn finished(self) -> (finished: bool)
        ensures
            finished == (self.registry_closed && self.workspace_closed),
    {
        self.registry_closed && self.workspace_closed
    }

    /// What one receipt from the registry yields; `None` means to wait on.
    pub fn on_registry(&mut self, received: RegistryReceived) -> (yielded: Option<
        TargetInvalidation,
    >)
        ensures
            final(self).workspace_closed == old(self).workspace_closed,
            final(self).registry_closed == (old(self).registry_closed || received is Closed),
            yielded == match received {
                RegistryReceived::Invalidation(invalidation) => Some(invalidation),
                RegistryReceived::Lagged => Some(TargetInvalidation::NativeStateResyncRequired),
                RegistryReceived::Closed => None,
            },
    {
        match received {
            RegistryReceived::Invalidation(invalidation) => Some(invalidation),
            RegistryReceived::Lagged => Some(TargetInvalidation::NativeStateResyncRequired),
            RegistryReceived::Closed => {
                self.registry_closed = true;
                None
            },
        }
    }

    /// What one receipt from the workspace yields. A terminated application
    /// without a launch generation yields nothing: a process id alone may by
    /// now name another process.
    pub fn on_workspace(&mut self, received: WorkspaceReceived) -> (yielded: Option<
        TargetInvalidation,
    >)
        ensures
            final(self).registry_closed == old(self).registry_closed,
            final(self).workspace_closed == (old(self).workspace_closed || received is Closed),
            match received {
                WorkspaceReceived::Event(event) => match yielded {
                    Some(TargetInvalidation::ProcessExited { process }) => event.kind is Terminated
                        && event.process_generation is Some && process@ == process_handle_text(
                        event.pid,
                        event.process_generation->0,
                    ),
                    Some(_) => false,
                    None => !(event.kind is Terminated) || event.process_generation is None,
                },
                WorkspaceReceived::Lagged => yielded == Some(
                    TargetInvalidation::NativeStateResyncRequired,
                ),
                WorkspaceReceived::Closed => yielded is None,
            },
    {
        match received {
            WorkspaceReceived::Event(event) => match event.kind {
                WorkspaceEventKind::Terminated => match event.process_generation {
                    Some(generation) => Some(
                        TargetInvalidation::ProcessExited {
                            process: process_handle(event.pid, generation),
                        },
                    ),
                    None => None,
                },
                _ => None,
            },
            WorkspaceReceived::Lagged => Some(TargetInvalidation::NativeStateResyncRequired),
            WorkspaceReceived::Closed => {
                self.workspace_closed = true;
                None
            },
        }
    }
}

/// What one process believes about focus, and the menu suppression that is
/// reserved or armed for it.
#[derive(Debug)]
pub struct MacFocusState {
    pub pid: i32,
    pub cg_window_id: u32,
    pub shutdown: bool,
    pub application_is_active: bool,
    pub application_believes_it_is_active: bool,
    pub application_believes_it_has_focus: bool,
    pub menu_dismissal_suppression_enabled: bool,
    pub menu_pid: Option<i32>,
    pub menu_suppression_action_id: Option<String>,
    pub menu_suppression_menu_id: Option<String>,
    pub menu_suppression_was_armed: bool,
    pub menu_suppressed_event_count: u64,
    pub menu_last_suppressed_source_pid: Option<i32>,
}

/// What a [`MacFocusState`] says about menus.
pub ghost struct MenuStateView {
    pub enabled: bool,
    pub menu_pid: Option<i32>,
    pub action_id: Option<Seq<char>>,
    pub menu_id: Option<Seq<char>>,
    pub was_armed: bool,
    pub suppressed: u64,
    pub last_source: Option<i32>,
}

impl MenuStateView {
    /// No suppression is reserved or armed.
    pub open spec fn idle(self) -> bool {
        !self.enabled && self.menu_pid is None && self.action_id is None && self.menu_id is None
    }
}

/// What a [`MacFocusState`] says about focus.
pub ghost struct BeliefView {
    pub pid: i32,
    pub cg_window_id: u32,
    pub shutdown: bool,
    pub active: bool,
    pub believes_active: bool,
    pub believes_focus: bool,
}

impl MacFocusState {
    pub open spec fn menu(&self) -> MenuStateView {
        MenuStateView {
            enabled: self.menu_dismissal_suppression_enabled,
            menu_pid: self.menu_pid,
            action_id: text::optional_text(self.menu_suppression_action_id),
            menu_id: text::optional_text(self.menu_suppression_menu_id),
            was_armed: self.menu_suppression_was_armed,
            suppressed: self.menu_suppressed_event_count,
            last_source: self.menu_last_suppressed_source_pid,
        }
    }

    pub open spec fn belief(&self) -> BeliefView {
        BeliefView {
            pid: self.pid,
            cg_window_id: self.cg_window_id,
            shutdown: self.shutdown,
            active: self.application_is_active,
            believes_active: self.application_believes_it_is_active,
            believes_focus: self.application_believes_it_has_focus,
        }
    }

    /// A state in which an application that is frontmost believes so already,
    /// and no menu was ever suppressed.
    pub open spec fn fresh(&self, pid: i32, cg_window_id: u32, frontmost_pid: Option<i32>) -> bool {
        &&& self.belief() == BeliefView {
            pid,
            cg_window_id,
            shutdown: false,
            active: frontmost_pid == Some(pid),
            believes_active: frontmost_pid == Some(pid),
            believes_focus: frontmost_pid == Some(pid),
        }
        &&& self.menu() == MenuStateView {
            enabled: false,
            menu_pid: None,
            action_id: None,
            menu_id: None,
            was_armed: false,
            suppressed: 0,
            last_source: None,
        }
    }

    /// A fresh state: an application that is frontmost believes so already.
    pub fn new(pid: i32, cg_window_id: u32, frontmost_pid: Option<i32>) -> (state: MacFocusState)
        ensures
            state.fresh(pid, cg_window_id, frontmost_pid),
    {
        let application_is_active: bool = match frontmost_pid {
            Some(frontmost) => frontmost == pid,
            None => false,
        };
        MacFocusState {
            pid,
            cg_window_id,
            shutdown: false,
            application_is_active,
            application_believes_it_is_active: application_is_active,
            application_believes_it_has_focus: application_is_active,
            menu_dismissal_suppression_enabled: false,
            menu_pid: None,
            menu_suppression_action_id: None,
            menu_suppression_menu_id: None,
            menu_suppression_was_armed: false,
            menu_suppressed_event_count: 0,
            menu_last_suppressed_source_pid: None,
        }
    }
}

fn names(held: &Option<String>, wanted: &str) -> (same: bool)
    ensures
        same == (text::optional_text(*held) == Some(wanted@)),
{
    match held {
        Some(held) => same_text(held.as_str(), wanted),
        None => false,
    }
}

/// Arms the suppression that was reserved for one action and one menu. `state`
/// is `None` where the target has no focus state bound.
pub fn arm_menu_suppression(state: Option<&mut MacFocusState>, action_id: &str, menu_id: &str) -> (outcome:
    Result<(), NativeError>)
    ensures
        match state {
            None => outcome matches Err(error) && error@ == errors::ErrorView::new(
                ErrorCode::Internal,
                ErrorPhase::Dispatch,
                false,
                "menu suppression has no target focus-state binding"@,
            ),
            Some(state) => {
                let before = (*state).menu();
                let after = (*final(state)).menu();
                let reserved = before.action_id == Some(action_id@) && before.menu_id == Some(
                    menu_id@,
                );
                &&& (*final(state)).belief() == (*state).belief()
                &&& outcome is Ok <==> reserved && !before.enabled
                &&& outcome is Ok ==> after == MenuStateView {
                    enabled: true,
                    was_armed: true,
                    ..before
                }
                &&& outcome matches Err(error) ==> after == before && error@ == if !reserved {
                    errors::ErrorView::stale(
                        ErrorCode::MenuStateStale,
                        "menu suppression reservation no longer matches the dispatched action"@,
                    )
                } else {
                    errors::ErrorView::new(
                        ErrorCode::TargetBusy,
                        ErrorPhase::Dispatch,
                        false,
                        "menu suppression was already armed for this action"@,
                    )
                }
            },
        },
{
    match state {
        None => Err(
            NativeError::new(
                ErrorCode::Internal,
                ErrorPhase::Dispatch,
                false,
                "menu suppression has no target focus-state binding",
            ),
        ),
        Some(state) => {
            if !names(&state.menu_suppression_action_id, action_id) || !names(
                &state.menu_suppression_menu_id,
                menu_id,
            ) {
                return Err(
                    NativeError::stale(
                        ErrorCode::MenuStateStale,
                        "menu suppression reservation no longer matches the dispatched action",
                    ),
                );
            }
            if state.menu_dismissal_suppression_enabled {
                return Err(
                    NativeError::new(
                        ErrorCode::TargetBusy,
                        ErrorPhase::Dispatch,
                        false,
                        "menu suppression was already armed for this action",
                    ),
                );
            }
            state.menu_dismissal_suppression_enabled = true;
            state.menu_suppression_was_armed = true;
            Ok(())
        },
    }
}

/// The focus states of all target processes, one for each exact process.
#[derive(Debug)]
pub struct MacFocusStateRegistry {
    processes: Vec<String>,
    states: Vec<MacFocusState>,
}

impl MacFocusStateRegistry {
    /// The process at a slot.
    pub closed spec fn process(&self, slot: int) -> Seq<char> {
        self.processes@[slot]@
    }

    pub closed spec fn state(&self, slot: int) -> MacFocusState {
        self.states@[slot]
    }

    pub closed spec fn len(&self) -> int {
        self.processes@.len() as int
    }

    /// Every slot has a state, and no two slots are for one process.
    pub closed spec fn wf(&self) -> bool {
        &&& self.processes@.len() == self.states@.len()
        &&& forall|i: int, j: int|
            0 <= i < j < self.processes@.len() ==> (#[trigger] self.processes@[i])@ != (
            #[trigger] self.processes@[j])@
    }

    pub fn new() -> (registry: MacFocusStateRegistry)
        ensures
            registry.wf(),
            registry.len() == 0,
    {
        MacFocusStateRegistry { processes: Vec::new(), states: Vec::new() }
    }

    /// Whether every slot that was there is still there, as it was.
    pub open spec fn keeps(&self, before: MacFocusStateRegistry) -> bool {
        forall|i: int|
            0 <= i < before.len() ==> self.process(i) == #[trigger] before.process(i) && self.state(
                i,
            ) == before.state(i)
    }

    /// Whether a process has a slot.
    pub open spec fn knows(&self, process: Seq<char>) -> bool {
        exists|i: int| 0 <= i < self.len() && #[trigger] self.process(i) == process
    }

    /// The slot of a process. All windows of one process share one slot; a
    /// process that is new gets a fresh state.
    pub fn state_for(
        &mut self,
        process: &str,
        pid: i32,
        cg_window_id: u32,
        frontmost_pid: Option<i32>,
    ) -> (slot: usize)
        requires
            old(self).wf(),
        ensures
            final(self).wf(),
            slot < final(self).len(),
            final(self).process(slot as int) == process@,
            final(self).keeps(*old(self)),
            old(self).knows(process@) ==> final(self).len() == old(self).len(),
            !old(self).knows(process@) ==> {
                &&& final(self).len() == old(self).len() + 1
                &&& slot == old(self).len()
                &&& final(self).state(slot as int).fresh(pid, cg_window_id, frontmost_pid)
            },
    {
        let mut index: usize = 0;
        while index < self.processes.len()
            invariant
                index <= self.processes.len(),
                self == old(self),
                self.wf(),
                forall|i: int| 0 <= i < index ==> (#[trigger] self.processes@[i])@ != process@,
            decreases self.processes.len() - index,
        {
            if same_text(self.processes[index].as_str(), process) {
                assert(old(self).process(index as int) == process@);
                return index;
            }
            index = index + 1;
        }
        assert forall|i: int| 0 <= i < old(self).len() implies #[trigger] old(self).process(i)
            != process@ by {
            assert(self.processes@[i]@ != process@);
        }
        self.processes.push(process.to_owned());
        self.states.push(MacFocusState::new(pid, cg_window_id, frontmost_pid));
        index
    }

    /// The state at a slot. What is done to it is done to no other slot.
    pub fn state_at(&mut self, slot: usize) -> (state: &mut MacFocusState)
        requires
            old(self).wf(),
            slot < old(self).len(),
        ensures
            *state == old(self).state(slot as int),
            final(self).state(slot as int) == *final(state),
            final(self).wf(),
            final(self).len() == old(self).len(),
            forall|i: int|
                0 <= i < old(self).len() ==> #[trigger] final(self).process(i) == old(self).process(
                    i,
                ),
            forall|i: int|
                0 <= i < old(self).len() && i != slot ==> #[trigger] final(self).state(i) == old(
                    self,
                ).state(i),
    {
        &mut self.states[slot]
    }
}

/// All windows of one process share one focus state: no process has two slots.
pub proof fn one_state_for_each_process(registry: MacFocusStateRegistry, left: int, right: int)
    requires
        registry.wf(),
        0 <= left < registry.len(),
        0 <= right < registry.len(),
        registry.process(left) == registry.process(right),
    ensures
        left == right,
{
    assert(registry.processes@[left]@ == registry.processes@[right]@);
}

/// What the driver holds for one target window.
#[derive(Debug)]
pub struct MacTargetState {
    pub window: ResolvedWindowStamp,
    pub signals: MacSignalJournal,
    pub elements: MacElementRegistry,
    pub frames: MacFrameHistory,
    /// The native observers of the target are registered.
    pub observing: bool,
    pub poisoned: bool,
}

impl MacTargetState {
    /// An invalidated target observes nothing.
    pub open spec fn wf(&self) -> bool {
        self.signals.wf() && (self.poisoned ==> !self.observing)
    }

    /// The state of a target whose observers were just registered.
    pub fn new(window: ResolvedWindowStamp) -> (state: MacTargetState)
        ensures
            state.wf(),
            state.window == window,
            state.signals@ == Seq::<RecordedSignal>::empty(),
            state.signals.mutations() == 0,
            state.elements@ == Seq::<elements::EntryView>::empty(),
            state.frames@ == Map::<u32, frames::FrameView>::empty(),
            state.observing,
            !state.poisoned,
    {
        MacTargetState {
            window,
            signals: MacSignalJournal::new(),
            elements: MacElementRegistry::new(),
            frames: MacFrameHistory::new(),
            observing: true,
            poisoned: false,
        }
    }

    pub fn invalidated(&self) -> (invalidated: bool)
        ensures
            invalidated == self.poisoned,
    {
        self.poisoned
    }

    /// Gives the target up: its observers are released.
    pub fn invalidate(&mut self)
        requires
            old(self).wf(),
        ensures
            final(self).wf(),
            *final(self) == (MacTargetState { observing: false, poisoned: true, ..*old(self) }),
    {
        self.observing = false;
        self.poisoned = true;
    }

    /// Whether the watched descendants can still be replaced.
    pub fn observes_descendants(&self) -> (outcome: Result<(), NativeError>)
        ensures
            outcome is Ok <==> self.observing,
            outcome matches Err(error) ==> error@ == errors::ErrorView::stale(
                ErrorCode::WindowIdentityChanged,
                "macOS AX observer was invalidated before descendant registration"@,
            ),
    {
        if self.observing {
            Ok(())
        } else {
            Err(
                NativeError::stale(
                    ErrorCode::WindowIdentityChanged,
                    "macOS AX observer was invalidated before descendant registration",
                ),
            )
        }
    }
}

} // verus!
