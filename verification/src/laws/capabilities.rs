//! What is published of what the driver can do.
use vstd::prelude::*;

use crate::contracts;
use crate::contracts::{
    ActionKind, AddressingMode, CapabilityCell, Framework, PlatformName, Route, RouteDecision,
    WindowStateKind,
};
use crate::driver::actions;
use crate::driver::actions::keyboard;
use crate::driver::focus;
use crate::driver::focus::MacScopeRecipe;
use crate::driver::MacDriver;

verus! {

/// What a cell is looked at as holds what it holds.
pub proof fn a_cell_is_what_it_holds(cell: CapabilityCell, decision: RouteDecision)
    ensures
        cell@.platform == cell.key.platform,
        cell@.os_version == cell.key.os_version@,
        cell@.action == cell.key.action,
        cell@.addressing == cell.key.addressing,
        cell@.framework == cell.key.framework,
        cell@.window_state == cell.key.window_state,
        cell@.decision == cell.decision@,
        decision is Supported <==> decision@ is Supported,
        decision is Supported ==> decision@->route == decision->route,
        decision is Unsupported ==> decision@->reason == decision->reason@,
{
}

/// Elements are acted on through themselves where their window is on the screen, and
/// in no other state of it.
pub proof fn elements_are_acted_on_where_their_window_shows(
    os_version: &str,
    cells: Vec<CapabilityCell>,
    i: int,
)
    requires
        call_ensures(actions::semantic_capability_cells, (os_version,), cells),
        0 <= i < cells@.len(),
    ensures
        ({
            let cell = cells@[i]@;
            &&& cell.platform == PlatformName::Macos
            &&& cell.os_version == os_version@
            &&& cell.addressing == AddressingMode::Element
            &&& cell.decision is Supported <==> cell.window_state is Visible
                || cell.window_state is Occluded
            &&& cell.decision is Supported ==> cell.decision->route == Route::Semantic
            &&& !(cell.framework is Electron) && !(cell.framework is Catalyst)
            &&& !(cell.action is Drag) && !(cell.action is TypeText) && !(cell.action is PressKey)
        }),
{
    let views = contracts::cells_view(cells@);
    assert(views.len() == cells@.len());
    assert(views[i] == cells@[i]@);
}

/// Every action on elements is told of, for each framework that has one and each
/// state of a window.
pub proof fn every_action_on_elements_is_told_of(
    os_version: &str,
    cells: Vec<CapabilityCell>,
    framework: Framework,
    action: ActionKind,
    state: WindowStateKind,
)
    requires
        call_ensures(actions::semantic_capability_cells, (os_version,), cells),
        framework is Unknown || framework is AppKit || framework is Chromium || framework is WebKit,
        action is Click || action is Scroll || action is SetValue || action is SelectText
            || action is PerformSecondaryAction,
    ensures
        exists|i: int|
            #![trigger cells@[i]]
            0 <= i < cells@.len() && cells@[i]@.framework == framework && cells@[i]@.action
                == action && cells@[i]@.window_state == state,
{
    let views = contracts::cells_view(cells@);
    assert(views.len() == cells@.len());
    let f: int = match framework {
        Framework::Unknown => 0,
        Framework::AppKit => 1,
        Framework::Chromium => 2,
        _ => 3,
    };
    let a: int = match action {
        ActionKind::Click => 0,
        ActionKind::Scroll => 1,
        ActionKind::SetValue => 2,
        ActionKind::SelectText => 3,
        _ => 4,
    };
    let s: int = state_place(state);
    let i = 25 * f + 5 * a + s;
    assert(i / 25 == f && (i / 5) % 5 == a && i % 5 == s);
    assert(views[i] == cells@[i]@);
}

pub open spec fn state_place(state: WindowStateKind) -> int {
    match state {
        WindowStateKind::Visible => 0,
        WindowStateKind::Occluded => 1,
        WindowStateKind::Minimized => 2,
        WindowStateKind::OffSpace => 3,
        WindowStateKind::Unknown => 4,
    }
}

/// The pointer reaches visible windows of the one proved host, and nothing else.
pub proof fn the_pointer_reaches_visible_windows_of_the_proved_host(
    os_version: &str,
    reported: &str,
    cells: Vec<CapabilityCell>,
    i: int,
)
    requires
        call_ensures(actions::pointer_capability_cells, (os_version, reported), cells),
        0 <= i < cells@.len(),
    ensures
        ({
            let cell = cells@[i]@;
            &&& cell.platform == PlatformName::Macos
            &&& cell.os_version == os_version@
            &&& cell.addressing == AddressingMode::CapturedPoint
            &&& cell.decision is Supported ==> cell.window_state is Visible && os_version@
                == "26.5.1"@ && (reported@ == "aarch64"@ || reported@ == "arm64"@)
            &&& cell.window_state is Visible && os_version@ == "26.5.1"@ && (reported@
                == "aarch64"@ || reported@ == "arm64"@) ==> cell.decision is Supported
            &&& cell.decision is Supported ==> cell.decision->route == Route::TargetedPointer
            &&& cell.action is Click || cell.action is Drag || cell.action is Scroll
        }),
{
    let views = contracts::cells_view(cells@);
    assert(views.len() == cells@.len());
    assert(views[i] == cells@[i]@);
}

/// Every action of the pointer is told of, for each framework and each state of a
/// window.
pub proof fn every_action_of_the_pointer_is_told_of(
    os_version: &str,
    reported: &str,
    cells: Vec<CapabilityCell>,
    framework: Framework,
    action: ActionKind,
    state: WindowStateKind,
)
    requires
        call_ensures(actions::pointer_capability_cells, (os_version, reported), cells),
        action is Click || action is Drag || action is Scroll,
    ensures
        exists|i: int|
            #![trigger cells@[i]]
            0 <= i < cells@.len() && cells@[i]@.framework == framework && cells@[i]@.action
                == action && cells@[i]@.window_state == state,
{
    let views = contracts::cells_view(cells@);
    assert(views.len() == cells@.len());
    let f: int = match framework {
        Framework::Unknown => 0,
        Framework::AppKit => 1,
        Framework::Chromium => 2,
        Framework::Electron => 3,
        Framework::WebKit => 4,
        Framework::Catalyst => 5,
    };
    let a: int = match action {
        ActionKind::Click => 0,
        ActionKind::Drag => 1,
        _ => 2,
    };
    let s: int = state_place(state);
    let i = 15 * f + 5 * a + s;
    assert(i / 15 == f && (i / 5) % 3 == a && i % 5 == s);
    assert(views[i] == cells@[i]@);
}

/// Text is typed through controls or as key events by framework, keys as events, and
/// both into windows on the screen alone.
pub proof fn keys_reach_windows_on_the_screen(
    os_version: &str,
    cells: Vec<CapabilityCell>,
    i: int,
)
    requires
        call_ensures(keyboard::keyboard_capability_cells, (os_version,), cells),
        0 <= i < cells@.len(),
    ensures
        ({
            let cell = cells@[i]@;
            let shown = cell.window_state is Visible || cell.window_state is Occluded;
            &&& cell.os_version == os_version@
            &&& cell.addressing == AddressingMode::ObservedFocus
            &&& cell.action is PressKey ==> (cell.decision is Supported <==> shown)
            &&& cell.action is PressKey && shown ==> cell.decision->route
                == Route::TargetedKeyboard
            &&& cell.action is TypeText && cell.decision is Supported ==> shown
            &&& cell.action is TypeText && shown && cell.framework is Chromium
                ==> cell.decision is Supported && cell.decision->route == Route::TargetedKeyboard
            &&& cell.action is TypeText && shown && (cell.framework is AppKit
                || cell.framework is WebKit) ==> cell.decision is Supported && cell.decision->route
                == Route::Semantic
        }),
{
    let views = contracts::cells_view(cells@);
    assert(views.len() == cells@.len());
    assert(views[i] == cells@[i]@);
}

/// The driver publishes what each of its parts does.
pub proof fn the_driver_publishes_all_its_parts(
    driver: &MacDriver,
    os_version: &str,
    cells: Vec<CapabilityCell>,
    semantic: Vec<CapabilityCell>,
    pointer: Vec<CapabilityCell>,
    keys: Vec<CapabilityCell>,
    architecture: &str,
)
    requires
        call_ensures(MacDriver::capability_cells, (driver, os_version), cells),
        call_ensures(actions::semantic_capability_cells, (os_version,), semantic),
        call_ensures(actions::pointer_capability_cells, (os_version, architecture), pointer),
        call_ensures(keyboard::keyboard_capability_cells, (os_version,), keys),
        architecture@ == driver.architecture@,
    ensures
        contracts::cells_view(cells@) == contracts::cells_view(semantic@) + contracts::cells_view(
            pointer@,
        ) + contracts::cells_view(keys@),
{
}

/// A driver is of the architecture it was made for.
pub proof fn a_driver_keeps_its_architecture(architecture: &str, driver: MacDriver)
    requires
        call_ensures(MacDriver::new, (architecture,), driver),
    ensures
        driver.architecture@ == architecture@,
{
}

/// One architecture has two names; every other goes by its own.
pub proof fn one_architecture_has_two_names(reported: &str, name: &str)
    requires
        call_ensures(focus::architecture_name, (reported,), name),
    ensures
        reported@ == "aarch64"@ ==> name@ == "arm64"@,
        reported@ != "aarch64"@ ==> name@ == reported@,
{
}

/// Recipes have the names of what they make the target believe.
pub proof fn recipes_have_names(recipe: MacScopeRecipe, name: &'static str)
    requires
        call_ensures(MacScopeRecipe::evidence_name, (recipe,), name),
    ensures
        recipe.target_belief is NotApplicable ==> name@ == "semantic_no_target_belief"@,
        recipe.target_belief is SwiftCoordinateClick ==> name@
            == "swift_coordinate_click_cps_key_focus_returned_macos_26_5_1_arm64"@,
{
}

/// Actions have their own names.
pub proof fn actions_have_their_names(action: ActionKind, name: &'static str)
    requires
        call_ensures(ActionKind::name, (action,), name),
    ensures
        action is Click ==> name@ == "Click"@,
        action is Drag ==> name@ == "Drag"@,
        action is Scroll ==> name@ == "Scroll"@,
        action is TypeText ==> name@ == "TypeText"@,
        action is PressKey ==> name@ == "PressKey"@,
        action is SetValue ==> name@ == "SetValue"@,
        action is SelectText ==> name@ == "SelectText"@,
        action is PerformSecondaryAction ==> name@ == "PerformSecondaryAction"@,
{
}

} // verus!
