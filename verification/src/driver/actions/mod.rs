//! Exact, background-safe macOS action routes, and the cells of the capability
//! matrix that they publish.
pub mod click;
pub mod keyboard;
pub mod keyboard_dispatch;
pub mod pointer;
pub mod pointer_dispatch;
pub mod scroll;
pub mod selection;
pub mod semantic;
pub mod semantic_dispatch;

use vstd::prelude::*;

use crate::contracts;
use crate::contracts::{
    ActionKind, AddressingMode, CapabilityCell, CapabilityKey, Framework, PlatformName, Route,
    RouteDecision, VerificationLevel, WindowStateKind,
};
use crate::driver::focus;
use crate::driver::focus::architecture_name;
use crate::evidence;
use crate::evidence::{Detail, Fields};
use crate::text::same_text;

verus! {

pub open spec fn state_at(i: int) -> WindowStateKind {
    if i == 0 {
        WindowStateKind::Visible
    } else if i == 1 {
        WindowStateKind::Occluded
    } else if i == 2 {
        WindowStateKind::Minimized
    } else if i == 3 {
        WindowStateKind::OffSpace
    } else {
        WindowStateKind::Unknown
    }
}

pub(crate) fn window_state(i: usize) -> (state: WindowStateKind)
    ensures
        state == state_at(i as int),
{
    match i {
        0 => WindowStateKind::Visible,
        1 => WindowStateKind::Occluded,
        2 => WindowStateKind::Minimized,
        3 => WindowStateKind::OffSpace,
        _ => WindowStateKind::Unknown,
    }
}

/// The frameworks with semantic cells, in order.
pub open spec fn semantic_framework_at(i: int) -> Framework {
    if i == 0 {
        Framework::Unknown
    } else if i == 1 {
        Framework::AppKit
    } else if i == 2 {
        Framework::Chromium
    } else {
        Framework::WebKit
    }
}

fn semantic_framework(i: usize) -> (framework: Framework)
    ensures
        framework == semantic_framework_at(i as int),
{
    match i {
        0 => Framework::Unknown,
        1 => Framework::AppKit,
        2 => Framework::Chromium,
        _ => Framework::WebKit,
    }
}

/// The actions with semantic cells, in order.
pub open spec fn semantic_action_at(i: int) -> ActionKind {
    if i == 0 {
        ActionKind::Click
    } else if i == 1 {
        ActionKind::Scroll
    } else if i == 2 {
        ActionKind::SetValue
    } else if i == 3 {
        ActionKind::SelectText
    } else {
        ActionKind::PerformSecondaryAction
    }
}

fn semantic_action(i: usize) -> (action: ActionKind)
    ensures
        action == semantic_action_at(i as int),
{
    match i {
        0 => ActionKind::Click,
        1 => ActionKind::Scroll,
        2 => ActionKind::SetValue,
        3 => ActionKind::SelectText,
        _ => ActionKind::PerformSecondaryAction,
    }
}

/// Semantic actions work on windows that are visible or occluded.
pub open spec fn semantic_decision(state: WindowStateKind) -> contracts::DecisionView {
    match state {
        WindowStateKind::Visible
        | WindowStateKind::Occluded => contracts::DecisionView::Supported {
            route: Route::Semantic,
        },
        WindowStateKind::Minimized => contracts::DecisionView::Unsupported {
            reason: "macOS semantic background actions refuse minimized windows"@,
        },
        WindowStateKind::OffSpace => contracts::DecisionView::Unsupported {
            reason: "macOS semantic background actions refuse off-Space windows"@,
        },
        WindowStateKind::Unknown => contracts::DecisionView::Unsupported {
            reason: "macOS semantic background actions require an exact visibility state"@,
        },
    }
}

fn decide_semantic(state: WindowStateKind) -> (decision: RouteDecision)
    ensures
        decision@ == semantic_decision(state),
{
    match state {
        WindowStateKind::Visible | WindowStateKind::Occluded => RouteDecision::Supported {
            route: Route::Semantic,
        },
        WindowStateKind::Minimized => RouteDecision::Unsupported {
            reason: "macOS semantic background actions refuse minimized windows".to_owned(),
        },
        WindowStateKind::OffSpace => RouteDecision::Unsupported {
            reason: "macOS semantic background actions refuse off-Space windows".to_owned(),
        },
        WindowStateKind::Unknown => RouteDecision::Unsupported {
            reason:
                "macOS semantic background actions require an exact visibility state".to_owned(),
        },
    }
}

pub open spec fn semantic_cell(os_version: Seq<char>, i: int) -> contracts::CellView {
    contracts::CellView {
        platform: PlatformName::Macos,
        os_version,
        action: semantic_action_at((i / 5) % 5),
        addressing: AddressingMode::Element,
        framework: semantic_framework_at(i / 25),
        window_state: state_at(i % 5),
        decision: semantic_decision(state_at(i % 5)),
    }
}

/// One cell for every framework, semantic action and window state.
pub open spec fn semantic_cells(os_version: Seq<char>) -> Seq<contracts::CellView> {
    Seq::new(100, |i: int| semantic_cell(os_version, i))
}

pub fn semantic_capability_cells(os_version: &str) -> (cells: Vec<CapabilityCell>)
    ensures
        contracts::cells_view(cells@) == semantic_cells(os_version@),
{
    let mut cells: Vec<CapabilityCell> = Vec::new();
    let mut i: usize = 0;
    while i < 100
        invariant
            i <= 100,
            cells@.len() == i,
            forall|k: int| 0 <= k < i ==> (#[trigger] cells@[k])@ == semantic_cell(os_version@, k),
        decreases 100 - i,
    {
        let state: WindowStateKind = window_state(i % 5);
        cells.push(
            CapabilityCell {
                key: CapabilityKey {
                    platform: PlatformName::Macos,
                    os_version: os_version.to_owned(),
                    action: semantic_action((i / 5) % 5),
                    addressing: AddressingMode::Element,
                    framework: semantic_framework(i / 25),
                    window_state: state,
                },
                decision: decide_semantic(state),
            },
        );
        i = i + 1;
    }
    assert(contracts::cells_view(cells@) =~= semantic_cells(os_version@));
    cells
}

/// The frameworks with pointer cells, in order.
pub open spec fn pointer_framework_at(i: int) -> Framework {
    if i == 0 {
        Framework::Unknown
    } else if i == 1 {
        Framework::AppKit
    } else if i == 2 {
        Framework::Chromium
    } else if i == 3 {
        Framework::Electron
    } else if i == 4 {
        Framework::WebKit
    } else {
        Framework::Catalyst
    }
}

fn pointer_framework(i: usize) -> (framework: Framework)
    ensures
        framework == pointer_framework_at(i as int),
{
    match i {
        0 => Framework::Unknown,
        1 => Framework::AppKit,
        2 => Framework::Chromium,
        3 => Framework::Electron,
        4 => Framework::WebKit,
        _ => Framework::Catalyst,
    }
}

/// The actions with pointer cells, in order.
pub open spec fn pointer_action_at(i: int) -> ActionKind {
    if i == 0 {
        ActionKind::Click
    } else if i == 1 {
        ActionKind::Drag
    } else {
        ActionKind::Scroll
    }
}

fn pointer_action(i: usize) -> (action: ActionKind)
    ensures
        action == pointer_action_at(i as int),
{
    match i {
        0 => ActionKind::Click,
        1 => ActionKind::Drag,
        _ => ActionKind::Scroll,
    }
}

/// The pointer family is proved for visible windows on one host.
pub open spec fn pointer_decision(
    os_version: Seq<char>,
    architecture: Seq<char>,
    framework: Framework,
    action: ActionKind,
    state: WindowStateKind,
) -> contracts::DecisionView {
    if os_version == "26.5.1"@ && architecture == "arm64"@ && state is Visible {
        contracts::DecisionView::Supported { route: Route::TargetedPointer }
    } else {
        contracts::DecisionView::Unsupported {
            reason: "recipe_unproven: targeted pointer "@ + action.text()
                + " is not manually proved for macOS "@ + os_version + " "@ + architecture + " "@
                + framework.text() + " "@ + state.text(),
        }
    }
}

fn decide_pointer(
    os_version: &str,
    architecture: &str,
    framework: Framework,
    action: ActionKind,
    state: WindowStateKind,
) -> (decision: RouteDecision)
    ensures
        decision@ == pointer_decision(os_version@, architecture@, framework, action, state),
{
    if same_text(os_version, "26.5.1") && same_text(architecture, "arm64") && state
        == WindowStateKind::Visible {
        return RouteDecision::Supported { route: Route::TargetedPointer };
    }
    let mut reason: String = "recipe_unproven: targeted pointer ".to_owned();
    reason.push_str(action.name());
    reason.push_str(" is not manually proved for macOS ");
    reason.push_str(os_version);
    reason.push_str(" ");
    reason.push_str(architecture);
    reason.push_str(" ");
    reason.push_str(framework.name());
    reason.push_str(" ");
    reason.push_str(state.name());
    RouteDecision::Unsupported { reason }
}

pub open spec fn pointer_cell(
    os_version: Seq<char>,
    architecture: Seq<char>,
    i: int,
) -> contracts::CellView {
    let framework = pointer_framework_at(i / 15);
    let action = pointer_action_at((i / 5) % 3);
    let state = state_at(i % 5);
    contracts::CellView {
        platform: PlatformName::Macos,
        os_version,
        action,
        addressing: AddressingMode::CapturedPoint,
        framework,
        window_state: state,
        decision: pointer_decision(os_version, architecture, framework, action, state),
    }
}

/// One cell for every framework, pointer action and window state.
pub open spec fn pointer_cells(os_version: Seq<char>, architecture: Seq<char>) -> Seq<
    contracts::CellView,
> {
    Seq::new(90, |i: int| pointer_cell(os_version, architecture, i))
}

/// `reported` is the processor as the host reports it.
pub fn pointer_capability_cells(os_version: &str, reported: &str) -> (cells: Vec<CapabilityCell>)
    ensures
        contracts::cells_view(cells@) == pointer_cells(
            os_version@,
            focus::architecture_text(reported@),
        ),
{
    let architecture: &str = architecture_name(reported);
    let mut cells: Vec<CapabilityCell> = Vec::new();
    let mut i: usize = 0;
    while i < 90
        invariant
            i <= 90,
            cells@.len() == i,
            forall|k: int|
                0 <= k < i ==> (#[trigger] cells@[k])@ == pointer_cell(
                    os_version@,
                    architecture@,
                    k,
                ),
        decreases 90 - i,
    {
        let framework: Framework = pointer_framework(i / 15);
        let action: ActionKind = pointer_action((i / 5) % 3);
        let state: WindowStateKind = window_state(i % 5);
        cells.push(
            CapabilityCell {
                key: CapabilityKey {
                    platform: PlatformName::Macos,
                    os_version: os_version.to_owned(),
                    action,
                    addressing: AddressingMode::CapturedPoint,
                    framework,
                    window_state: state,
                },
                decision: decide_pointer(os_version, architecture, framework, action, state),
            },
        );
        i = i + 1;
    }
    assert(contracts::cells_view(cells@) =~= pointer_cells(os_version@, architecture@));
    cells
}

/// What a dispatched action reports.
#[derive(Debug)]
pub struct NativeDispatch {
    pub verification: VerificationLevel,
    pub fields: Fields,
}

pub ghost struct DispatchView {
    pub verification: VerificationLevel,
    pub fields: Map<Seq<char>, evidence::DetailView>,
}

impl View for NativeDispatch {
    type V = DispatchView;

    open spec fn view(&self) -> DispatchView {
        DispatchView { verification: self.verification, fields: self.fields@ }
    }
}

/// The evidence that a primitive was used.
pub open spec fn primitive_fields(primitive: Seq<char>) -> Map<Seq<char>, evidence::DetailView> {
    Map::empty().insert("primitive"@, evidence::DetailView::Text(primitive))
}

pub(crate) fn begin_evidence(primitive: &str) -> (fields: Fields)
    ensures
        fields@ == primitive_fields(primitive@),
{
    let mut fields: Fields = Fields::new();
    fields.insert("primitive", Detail::text(primitive));
    fields
}

} // verus!
