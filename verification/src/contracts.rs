//! The vocabulary of requests: windows, routes, actions and capability cells.
use vstd::prelude::*;

use crate::text;
use crate::text::same_text;

verus! {

#[derive(Clone, Copy, Debug, PartialEq, Eq, Structural)]
pub enum PlatformName {
    Macos,
}

#[derive(Clone, Copy, Debug, PartialEq, Eq, Structural)]
pub enum Framework {
    Unknown,
    AppKit,
    Chromium,
    Electron,
    WebKit,
    Catalyst,
}

impl Framework {
    pub open spec fn text(self) -> Seq<char> {
        match self {
            Framework::Unknown => "Unknown"@,
            Framework::AppKit => "AppKit"@,
            Framework::Chromium => "Chromium"@,
            Framework::Electron => "Electron"@,
            Framework::WebKit => "WebKit"@,
            Framework::Catalyst => "Catalyst"@,
        }
    }

    pub fn name(self) -> (name: &'static str)
        ensures
            name@ == self.text(),
    {
        match self {
            Framework::Unknown => "Unknown",
            Framework::AppKit => "AppKit",
            Framework::Chromium => "Chromium",
            Framework::Electron => "Electron",
            Framework::WebKit => "WebKit",
            Framework::Catalyst => "Catalyst",
        }
    }
}

#[derive(Clone, Copy, Debug, PartialEq, Eq, Structural)]
pub enum WindowStateKind {
    Visible,
    Occluded,
    Minimized,
    OffSpace,
    Unknown,
}

impl WindowStateKind {
    pub open spec fn text(self) -> Seq<char> {
        match self {
            WindowStateKind::Visible => "Visible"@,
            WindowStateKind::Occluded => "Occluded"@,
            WindowStateKind::Minimized => "Minimized"@,
            WindowStateKind::OffSpace => "OffSpace"@,
            WindowStateKind::Unknown => "Unknown"@,
        }
    }

    pub fn name(self) -> (name: &'static str)
        ensures
            name@ == self.text(),
    {
        match self {
            WindowStateKind::Visible => "Visible",
            WindowStateKind::Occluded => "Occluded",
            WindowStateKind::Minimized => "Minimized",
            WindowStateKind::OffSpace => "OffSpace",
            WindowStateKind::Unknown => "Unknown",
        }
    }
}

#[derive(Clone, Copy, Debug, PartialEq, Eq, Structural)]
pub enum ActionKind {
    Click,
    Drag,
    Scroll,
    PressKey,
    TypeText,
    SetValue,
    SelectText,
    PerformSecondaryAction,
}

impl ActionKind {
    pub open spec fn text(self) -> Seq<char> {
        match self {
            ActionKind::Click => "Click"@,
            ActionKind::Drag => "Drag"@,
            ActionKind::Scroll => "Scroll"@,
            ActionKind::PressKey => "PressKey"@,
            ActionKind::TypeText => "TypeText"@,
            ActionKind::SetValue => "SetValue"@,
            ActionKind::SelectText => "SelectText"@,
            ActionKind::PerformSecondaryAction => "PerformSecondaryAction"@,
        }
    }

    pub fn name(self) -> (name: &'static str)
        ensures
            name@ == self.text(),
    {
        match self {
            ActionKind::Click => "Click",
            ActionKind::Drag => "Drag",
            ActionKind::Scroll => "Scroll",
            ActionKind::PressKey => "PressKey",
            ActionKind::TypeText => "TypeText",
            ActionKind::SetValue => "SetValue",
            ActionKind::SelectText => "SelectText",
            ActionKind::PerformSecondaryAction => "PerformSecondaryAction",
        }
    }
}

#[derive(Clone, Copy, Debug, PartialEq, Eq, Structural)]
pub enum AddressingMode {
    Element,
    CapturedPoint,
    ObservedFocus,
}

#[derive(Clone, Copy, Debug, PartialEq, Eq, Structural)]
pub enum Route {
    Semantic,
    TargetedPointer,
    TargetedKeyboard,
}

impl Route {
    pub open spec fn text(self) -> Seq<char> {
        match self {
            Route::Semantic => "Semantic"@,
            Route::TargetedPointer => "TargetedPointer"@,
            Route::TargetedKeyboard => "TargetedKeyboard"@,
        }
    }

    pub fn name(self) -> (name: &'static str)
        ensures
            name@ == self.text(),
    {
        match self {
            Route::Semantic => "Semantic",
            Route::TargetedPointer => "TargetedPointer",
            Route::TargetedKeyboard => "TargetedKeyboard",
        }
    }
}

#[derive(Debug)]
pub enum RouteDecision {
    Supported { route: Route },
    Unsupported { reason: String },
}

pub ghost enum DecisionView {
    Supported { route: Route },
    Unsupported { reason: Seq<char> },
}

impl View for RouteDecision {
    type V = DecisionView;

    open spec fn view(&self) -> DecisionView {
        match self {
            RouteDecision::Supported { route } => DecisionView::Supported { route: *route },
            RouteDecision::Unsupported { reason } => DecisionView::Unsupported { reason: reason@ },
        }
    }
}

#[derive(Debug)]
pub struct CapabilityKey {
    pub platform: PlatformName,
    pub os_version: String,
    pub action: ActionKind,
    pub addressing: AddressingMode,
    pub framework: Framework,
    pub window_state: WindowStateKind,
}

#[derive(Debug)]
pub struct CapabilityCell {
    pub key: CapabilityKey,
    pub decision: RouteDecision,
}

/// One cell of the capability matrix: what happens to a kind of action on a
/// kind of window.
#[verifier::ext_equal]
pub ghost struct CellView {
    pub platform: PlatformName,
    pub os_version: Seq<char>,
    pub action: ActionKind,
    pub addressing: AddressingMode,
    pub framework: Framework,
    pub window_state: WindowStateKind,
    pub decision: DecisionView,
}

impl View for CapabilityCell {
    type V = CellView;

    open spec fn view(&self) -> CellView {
        CellView {
            platform: self.key.platform,
            os_version: self.key.os_version@,
            action: self.key.action,
            addressing: self.key.addressing,
            framework: self.key.framework,
            window_state: self.key.window_state,
            decision: self.decision@,
        }
    }
}

pub open spec fn cells_view(cells: Seq<CapabilityCell>) -> Seq<CellView> {
    cells.map_values(|cell: CapabilityCell| cell@)
}

#[derive(Clone, Copy, Debug, PartialEq, Eq, Structural)]
pub enum MouseButton {
    Left,
    Right,
    Middle,
}

#[derive(Clone, Copy, Debug, PartialEq, Eq, Structural)]
pub enum Modifier {
    Shift,
    Control,
    Alt,
    Meta,
}

#[derive(Clone, Copy, Debug, PartialEq, Eq, Structural)]
pub enum ScrollDirection {
    Up,
    Down,
    Left,
    Right,
}

#[derive(Clone, Copy, Debug, PartialEq, Eq, Structural)]
pub enum SurfaceKind {
    Window,
    Menu,
    Popover,
    Sheet,
}

/// How far the effect of a dispatched action has been proved.
#[derive(Clone, Copy, Debug, PartialEq, Eq, Structural)]
pub enum VerificationLevel {
    DispatchUnverified,
    DispatchVerified,
    EffectVerified,
}

/// A kind of native evidence on the way from a dispatch to a settled target.
#[derive(Clone, Copy, Debug, PartialEq, Eq, Structural)]
pub enum SettlementSignal {
    DispatchStarted,
    DispatchComplete,
    AxAction,
    AxValueChanged,
    FocusChanged,
    FreshFrame,
    MenuOpened,
    MenuDismissed,
    PointerSequenceComplete,
    ScrollChanged,
    VerificationReadbackComplete,
    WindowGeometryChanged,
    WindowListChanged,
}

#[derive(Debug, Clone)]
pub struct ClickSpec {
    pub button: MouseButton,
    pub click_count: u8,
    pub modifiers: Vec<Modifier>,
}

/// The form of a resolved action.
#[derive(Debug)]
pub enum ActionShape {
    ElementClick,
    PointClick { spec: ClickSpec },
    Drag,
    ElementScroll,
    DeltaScroll,
    PressKey,
    TypeText,
    SetValue,
    SelectText,
    Secondary,
}

impl ActionShape {
    pub open spec fn text(&self) -> Seq<char> {
        match self {
            ActionShape::ElementClick => "element_click"@,
            ActionShape::PointClick { .. } => "point_click"@,
            ActionShape::Drag => "drag"@,
            ActionShape::ElementScroll => "element_scroll"@,
            ActionShape::DeltaScroll => "delta_scroll"@,
            ActionShape::PressKey => "press_key"@,
            ActionShape::TypeText => "type_text"@,
            ActionShape::SetValue => "set_value"@,
            ActionShape::SelectText => "select_text"@,
            ActionShape::Secondary => "secondary"@,
        }
    }

    pub fn name(&self) -> (name: &'static str)
        ensures
            name@ == self.text(),
    {
        match self {
            ActionShape::ElementClick => "element_click",
            ActionShape::PointClick { .. } => "point_click",
            ActionShape::Drag => "drag",
            ActionShape::ElementScroll => "element_scroll",
            ActionShape::DeltaScroll => "delta_scroll",
            ActionShape::PressKey => "press_key",
            ActionShape::TypeText => "type_text",
            ActionShape::SetValue => "set_value",
            ActionShape::SelectText => "select_text",
            ActionShape::Secondary => "secondary",
        }
    }
}

/// What an interaction scope has to provide for its action.
#[derive(Clone, Copy, Debug, PartialEq, Eq, Structural)]
pub struct ScopeRequirements {
    pub accessibility: bool,
    pub menu_dismissal: bool,
    pub target_belief: bool,
}

/// The exact identity of a resolved window, with the revision of its geometry.
#[derive(Debug)]
pub struct ResolvedWindowStamp {
    pub app_id: String,
    pub window_id: String,
    pub generation: u64,
    pub geometry_revision: String,
    pub native_window: String,
    pub process: String,
}

pub ghost struct StampView {
    pub app_id: Seq<char>,
    pub window_id: Seq<char>,
    pub generation: u64,
    pub geometry_revision: Seq<char>,
    pub native_window: Seq<char>,
    pub process: Seq<char>,
}

impl View for ResolvedWindowStamp {
    type V = StampView;

    open spec fn view(&self) -> StampView {
        StampView {
            app_id: self.app_id@,
            window_id: self.window_id@,
            generation: self.generation,
            geometry_revision: self.geometry_revision@,
            native_window: self.native_window@,
            process: self.process@,
        }
    }
}

impl StampView {
    /// The same window, whatever its geometry.
    pub open spec fn same_window(self, other: StampView) -> bool {
        StampView { geometry_revision: other.geometry_revision, ..self } == other
    }
}

impl ResolvedWindowStamp {
    pub fn same(&self, other: &ResolvedWindowStamp) -> (same: bool)
        ensures
            same == (self@ == other@),
    {
        same_text(self.app_id.as_str(), other.app_id.as_str()) && same_text(
            self.window_id.as_str(),
            other.window_id.as_str(),
        ) && self.generation == other.generation && same_text(
            self.geometry_revision.as_str(),
            other.geometry_revision.as_str(),
        ) && same_text(self.native_window.as_str(), other.native_window.as_str()) && same_text(
            self.process.as_str(),
            other.process.as_str(),
        )
    }
}

impl Clone for ResolvedWindowStamp {
    fn clone(&self) -> (copy: Self)
        ensures
            copy@ == self@,
    {
        ResolvedWindowStamp {
            app_id: self.app_id.clone(),
            window_id: self.window_id.clone(),
            generation: self.generation,
            geometry_revision: self.geometry_revision.clone(),
            native_window: self.native_window.clone(),
            process: self.process.clone(),
        }
    }
}

/// Two stamps name one window if every component but the geometry revision
/// agrees.
pub fn same_stable_identity(left: &ResolvedWindowStamp, right: &ResolvedWindowStamp) -> (same: bool)
    ensures
        same == left@.same_window(right@),
{
    same_text(left.app_id.as_str(), right.app_id.as_str()) && same_text(
        left.window_id.as_str(),
        right.window_id.as_str(),
    ) && left.generation == right.generation && same_text(
        left.native_window.as_str(),
        right.native_window.as_str(),
    ) && same_text(left.process.as_str(), right.process.as_str())
}

} // verus!
