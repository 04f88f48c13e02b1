//! The dispatch of a prepared semantic action, one native step at a time: what
//! is asked of the host next, and what its answer leads to.
use vstd::prelude::*;

use crate::ax::bindings::{AxCfRange, AX_ERROR_ATTRIBUTE_UNSUPPORTED, AX_ERROR_SUCCESS};
use crate::contracts::{
    ResolvedWindowStamp, ScrollDirection, SettlementSignal, VerificationLevel,
};
use crate::driver::actions;
use crate::driver::actions::semantic;
use crate::driver::actions::semantic::{
    arming_failed, ax_dispatch_error, finish_ax_action, finish_select_text, finish_set_value,
    menu_outcome_after_target, menu_step, needs_open_readback, revalidate_prepared,
    revalidate_refetch_epoch, verified_ax_open_transition, wait_for_opened_menu,
    AxOpenVerification, DispatchOutcome, MacPreparedSemanticAction, MenuOutcome, MenuStep,
    PageScrollRun, PreparedKind,
};
use crate::driver::actions::NativeDispatch;
use crate::driver::interaction::MenuMutationIntent;
use crate::driver::menu::NativeMenuIdentity;
use crate::driver::snapshot::RetainedAxElement;
use crate::errors;
use crate::errors::{ErrorCode, NativeError};
use crate::evidence;
use crate::evidence::Fields;
use crate::text;

verus! {

/// What a dispatch awaits.
#[derive(Debug, Clone, Copy, PartialEq, Eq, Structural)]
pub enum SemanticStage {
    /// The prepared element is fetched again.
    Refetch,
    /// The side-effect boundary is entered.
    Boundary,
    /// The native call of the prepared action is made.
    Native,
    /// The title that a failed open action may have changed is read.
    OpenTitle { status: i32, attempts: u32 },
    /// The menu suppression of the scope is armed.
    Arm,
    /// A menu that should have opened is looked for.
    OpenedMenu,
    /// The menu is looked for once it had time to react.
    MenuReaction,
    Done,
}

/// What the host reports to a dispatch.
#[derive(Debug)]
pub enum SemanticEvent {
    Refetched { element: Result<RetainedAxElement, NativeError>, epoch: u64 },
    BoundaryEntered(Result<(), NativeError>),
    /// The status of an AX action.
    Performed { status: i32 },
    ValueWritten { status: i32, readback: Result<Option<String>, i32> },
    SelectionWritten {
        status: i32,
        range: Result<Option<AxCfRange>, i32>,
        text: Result<Option<String>, i32>,
    },
    Title { title: Option<String>, now: u64 },
    Armed(Result<(), NativeError>),
    MenuLooked { found: Result<Option<NativeMenuIdentity>, NativeError>, now: u64 },
}

/// A dispatch in progress.
#[derive(Debug)]
pub struct SemanticDispatch {
    pub kind: PreparedKind,
    pub intent: Option<MenuMutationIntent>,
    pub deadline: u64,
    /// The signal epoch at which the action was prepared.
    pub epoch: u64,
    pub stage: SemanticStage,
    /// The pages that were scrolled.
    pub completed: u16,
    /// What the scope's evidence gains, whatever the result.
    pub scope_fields: Fields,
    /// The report of a performed action whose menu is still looked after.
    pub report: Option<NativeDispatch>,
    pub menu: Option<(MenuOutcome, NativeMenuIdentity)>,
    /// The target cannot be trusted any more.
    pub invalidates_target: bool,
    pub result: Option<Result<NativeDispatch, NativeError>>,
}

pub ghost struct SemanticView {
    pub kind: PreparedKind,
    pub intent: Option<MenuMutationIntent>,
    pub deadline: u64,
    pub epoch: u64,
    pub stage: SemanticStage,
    pub completed: u16,
    pub scope_fields: Map<Seq<char>, evidence::DetailView>,
    pub report: Option<actions::DispatchView>,
    pub menu: Option<(MenuOutcome, NativeMenuIdentity)>,
    pub invalidates_target: bool,
    pub result: Option<Result<actions::DispatchView, errors::ErrorView>>,
}

impl View for SemanticDispatch {
    type V = SemanticView;

    open spec fn view(&self) -> SemanticView {
        SemanticView {
            kind: self.kind,
            intent: self.intent,
            deadline: self.deadline,
            epoch: self.epoch,
            stage: self.stage,
            completed: self.completed,
            scope_fields: self.scope_fields@,
            report: match self.report {
                Some(report) => Some(report@),
                None => None,
            },
            menu: self.menu,
            invalidates_target: self.invalidates_target,
            result: match self.result {
                Some(Ok(dispatch)) => Some(Ok(dispatch@)),
                Some(Err(error)) => Some(Err(error@)),
                None => None,
            },
        }
    }
}

/// The evidence of a page scroll that has started: what was asked for, and how
/// many pages were scrolled.
pub open spec fn scroll_fields(
    pages: u16,
    direction: ScrollDirection,
    scrollbar_child: bool,
    completed: u16,
) -> Map<Seq<char>, evidence::DetailView> {
    Map::empty().insert(
        "semantic_scroll_requested_pages"@,
        evidence::DetailView::Int(pages as int),
    ).insert(
        "semantic_scroll_direction"@,
        evidence::DetailView::Text(semantic::direction_lower(direction)),
    ).insert(
        "semantic_scroll_route"@,
        evidence::DetailView::Text(semantic::route_text(scrollbar_child)),
    ).insert("semantic_scroll_completed_pages"@, evidence::DetailView::Int(completed as int))
}

/// The report of a page scroll.
pub open spec fn scroll_report(completed: u16, scrollbar_child: bool) -> actions::DispatchView {
    actions::DispatchView {
        verification: VerificationLevel::DispatchVerified,
        fields: actions::primitive_fields("macos_ax_page_scroll"@).insert(
            "route"@,
            evidence::DetailView::Text(semantic::route_text(scrollbar_child)),
        ).insert("completed_pages"@, evidence::DetailView::Int(completed as int)),
    }
}

/// The failure of a page.
pub open spec fn page_failure(
    status: i32,
    completed: u16,
    pages: u16,
    scrollbar_child: bool,
) -> errors::ErrorView {
    errors::ErrorView::new(
        ErrorCode::DispatchFailed,
        errors::ErrorPhase::Dispatch,
        false,
        "exact macOS AX page-scroll action failed after a partial dispatch"@,
    ).with("ax_error"@, evidence::DetailView::Int(status as int)).with(
        "completed_pages"@,
        evidence::DetailView::Int(completed as int),
    ).with("requested_pages"@, evidence::DetailView::Int(pages as int)).with(
        "route"@,
        evidence::DetailView::Text(semantic::route_text(scrollbar_child)),
    )
}

/// The result of a value write.
pub open spec fn value_result(
    status: i32,
    readback: Result<Option<String>, i32>,
    value: Seq<char>,
) -> Result<actions::DispatchView, errors::ErrorView> {
    if status != AX_ERROR_SUCCESS {
        Err(semantic::ax_dispatch_failure("AXValue write"@, status))
    } else {
        match readback {
            Err(status) => Err(
                semantic::verification_failure(
                    "typed CFString AXValue readback"@ + " failed"@,
                ).with("ax_error"@, evidence::DetailView::Int(status as int)),
            ),
            Ok(readback) => if text::optional_text(readback) == Some(value) {
                Ok(semantic::exact_readback("macos_ax_string_value"@))
            } else {
                Err(
                    semantic::verification_failure(
                        "macOS typed CFString AXValue readback did not exactly match the requested string"@,
                    ),
                )
            },
        }
    }
}

/// The result of a selection write.
pub open spec fn selection_result(
    status: i32,
    range_readback: Result<Option<AxCfRange>, i32>,
    text_readback: Result<Option<String>, i32>,
    range: AxCfRange,
    expected_text: Seq<char>,
) -> Result<actions::DispatchView, errors::ErrorView> {
    if status != AX_ERROR_SUCCESS {
        Err(semantic::ax_dispatch_failure("AXSelectedTextRange write"@, status))
    } else {
        match (range_readback, text_readback) {
            (Err(status), _) => Err(
                semantic::verification_failure(
                    "typed AXSelectedTextRange readback"@ + " failed"@,
                ).with("ax_error"@, evidence::DetailView::Int(status as int)),
            ),
            (Ok(_), Err(status)) => Err(
                semantic::verification_failure(
                    "typed AXSelectedText readback"@ + " failed"@,
                ).with("ax_error"@, evidence::DetailView::Int(status as int)),
            ),
            (Ok(read_range), Ok(read_text)) => if read_range == Some(range)
                && text::optional_text(read_text) == Some(expected_text) {
                Ok(semantic::exact_readback("macos_ax_utf16_selection"@))
            } else {
                Err(
                    semantic::verification_failure(
                        "macOS typed text selection range/text readback did not exactly match the requested selection"@,
                    ),
                )
            },
        }
    }
}

/// An open action whose effect shows in the title that was read.
pub open spec fn opened(verification: AxOpenVerification, title: Option<String>) -> bool {
    &&& text::optional_text(title) == Some(verification.expected_title@)
    &&& verification.prior_title@ != verification.expected_title@
}

impl SemanticView {
    pub open spec fn failed(self, error: errors::ErrorView) -> SemanticView {
        SemanticView { stage: SemanticStage::Done, result: Some(Err(error)), ..self }
    }

    pub open spec fn succeeded(self, dispatch: actions::DispatchView) -> SemanticView {
        SemanticView { stage: SemanticStage::Done, result: Some(Ok(dispatch)), ..self }
    }

    /// The element is what was prepared: the first native call is next.
    pub open spec fn validated(self) -> SemanticView {
        match self.kind {
            PreparedKind::PageScroll { route, direction, pages } => {
                let started = SemanticView {
                    scope_fields: scroll_fields(pages, direction, route.scrollbar_child, 0),
                    ..self
                };
                if pages == 0 {
                    started.succeeded(scroll_report(0, route.scrollbar_child))
                } else {
                    SemanticView { stage: SemanticStage::Boundary, ..started }
                }
            },
            _ => SemanticView { stage: SemanticStage::Boundary, ..self },
        }
    }

    /// An AX action was performed; `attempts` counts the looks after which the
    /// effect of a failed open was verified.
    pub open spec fn performed(self, status: i32, attempts: Option<u32>) -> SemanticView {
        match self.kind {
            PreparedKind::AxAction { action, primitive, .. } => if status != AX_ERROR_SUCCESS
                && attempts is None {
                self.failed(semantic::ax_dispatch_failure("exact AX action"@, status))
            } else {
                let report = actions::DispatchView {
                    verification: if attempts is Some {
                        VerificationLevel::EffectVerified
                    } else {
                        VerificationLevel::DispatchVerified
                    },
                    fields: semantic::ax_action_fields(action@, primitive@, status, attempts),
                };
                if self.intent is Some {
                    SemanticView { stage: SemanticStage::Arm, report: Some(report), ..self }
                } else {
                    self.succeeded(report)
                }
            },
            _ => self,
        }
    }

    /// One more page was asked for.
    pub open spec fn paged(self, status: i32) -> SemanticView {
        match self.kind {
            PreparedKind::PageScroll { route, pages, .. } => if status != AX_ERROR_SUCCESS {
                self.failed(page_failure(status, self.completed, pages, route.scrollbar_child))
            } else {
                let completed = (self.completed + 1) as u16;
                let counted = SemanticView {
                    completed,
                    scope_fields: self.scope_fields.insert(
                        "semantic_scroll_completed_pages"@,
                        evidence::DetailView::Int(completed as int),
                    ),
                    ..self
                };
                if completed < pages {
                    SemanticView { stage: SemanticStage::Boundary, ..counted }
                } else {
                    counted.succeeded(scroll_report(completed, route.scrollbar_child))
                }
            },
            _ => self,
        }
    }

    /// The suppression is armed: the menu of the intent is looked after.
    pub open spec fn armed(self) -> SemanticView {
        let opens_menu = self.kind matches PreparedKind::AxAction { opens_menu, .. } && opens_menu;
        match self.intent {
            None => self,
            Some(MenuMutationIntent::Dismissing { .. }) => self.failed(
                errors::ErrorView::new(
                    ErrorCode::Internal,
                    errors::ErrorPhase::Dispatch,
                    false,
                    "semantic AX action cannot satisfy a point-menu dismissal intent"@,
                ),
            ),
            Some(intent) => if intent is Opening && opens_menu {
                SemanticView { stage: SemanticStage::OpenedMenu, ..self }
            } else if intent is Targeting && !opens_menu {
                SemanticView { stage: SemanticStage::MenuReaction, ..self }
            } else {
                self.failed(
                    errors::ErrorView::stale(
                        ErrorCode::MenuStateStale,
                        "semantic menu action and bound lifecycle intent disagree"@,
                    ).with("native_side_effect_started"@, evidence::DetailView::Bool(true)),
                )
            },
        }
    }

    /// The menu came to its end: so does the dispatch.
    pub open spec fn menu_ended(
        self,
        outcome: MenuOutcome,
        identity: NativeMenuIdentity,
    ) -> SemanticView {
        SemanticView {
            stage: SemanticStage::Done,
            report: None,
            menu: Some((outcome, identity)),
            result: match self.report {
                Some(report) => Some(Ok(report)),
                None => None,
            },
            ..self
        }
    }

    /// What an event leads to; an event that is not awaited changes nothing.
    pub open spec fn after(self, event: SemanticEvent) -> SemanticView {
        match (self.stage, event) {
            (SemanticStage::Refetch, SemanticEvent::Refetched { element, epoch }) => match element {
                Err(error) => self.failed(error@),
                Ok(_) => if epoch != self.epoch {
                    self.failed(
                        errors::ErrorView::stale(
                            ErrorCode::ObservationRaced,
                            "semantic AX/content notification raced the exact dispatch refetch"@,
                        ),
                    )
                } else {
                    self.validated()
                },
            },
            (SemanticStage::Boundary, SemanticEvent::BoundaryEntered(entered)) => match entered {
                Err(error) => self.failed(error@),
                Ok(_) => SemanticView { stage: SemanticStage::Native, ..self },
            },
            (SemanticStage::Native, SemanticEvent::Performed { status }) => match self.kind {
                PreparedKind::AxAction { open_verification, .. } => if status
                    == AX_ERROR_ATTRIBUTE_UNSUPPORTED && open_verification is Some {
                    SemanticView {
                        stage: SemanticStage::OpenTitle { status, attempts: 0 },
                        ..self
                    }
                } else {
                    self.performed(status, None)
                },
                PreparedKind::PageScroll { .. } => self.paged(status),
                _ => self,
            },
            (SemanticStage::Native, SemanticEvent::ValueWritten { status, readback })
            => match self.kind {
                PreparedKind::SetValue { value, .. } => SemanticView {
                    stage: SemanticStage::Done,
                    result: Some(value_result(status, readback, value@)),
                    ..self
                },
                _ => self,
            },
            (SemanticStage::Native, SemanticEvent::SelectionWritten { status, range, text })
            => match self.kind {
                PreparedKind::SelectText { range: wanted, expected_text, .. } => SemanticView {
                    stage: SemanticStage::Done,
                    result: Some(
                        selection_result(status, range, text, wanted, expected_text@),
                    ),
                    ..self
                },
                _ => self,
            },
            (SemanticStage::OpenTitle { status, attempts }, SemanticEvent::Title { title, now })
            => match self.kind {
                PreparedKind::AxAction { open_verification: Some(verification), .. } => {
                    let looked = (attempts + 1) as u32;
                    if opened(verification, title) {
                        self.performed(status, Some(looked))
                    } else if now >= self.deadline {
                        self.performed(status, None)
                    } else {
                        SemanticView {
                            stage: SemanticStage::OpenTitle { status, attempts: looked },
                            ..self
                        }
                    }
                },
                _ => self,
            },
            (SemanticStage::Arm, SemanticEvent::Armed(armed)) => match armed {
                Err(error) => SemanticView {
                    invalidates_target: true,
                    ..self.failed(
                        error@.with(
                            "native_side_effect_started"@,
                            evidence::DetailView::Bool(true),
                        ),
                    )
                },
                Ok(_) => self.armed(),
            },
            (SemanticStage::OpenedMenu, SemanticEvent::MenuLooked { found, now }) => match found {
                Err(error) => self.failed(error@),
                Ok(Some(identity)) => self.menu_ended(MenuOutcome::Opened, identity),
                Ok(None) => if now >= self.deadline {
                    self.failed(
                        errors::ErrorView::stale(
                            ErrorCode::MenuStateStale,
                            "AXShowMenu dispatched but no exact native menu identity arrived before the action deadline"@,
                        ).with("native_side_effect_started"@, evidence::DetailView::Bool(true)),
                    )
                } else {
                    self
                },
            },
            (SemanticStage::MenuReaction, SemanticEvent::MenuLooked { found, .. })
            => match (found, self.intent) {
                (Err(error), _) => self.failed(error@),
                (Ok(Some(identity)), _) => self.menu_ended(MenuOutcome::Targeted, identity),
                (Ok(None), Some(MenuMutationIntent::Targeting { identity, .. }))
                => self.menu_ended(MenuOutcome::Dismissed, identity),
                _ => self,
            },
            _ => self,
        }
    }

    /// The signals to record when an event arrives, in order.
    pub open spec fn signals(self, event: SemanticEvent) -> Seq<SettlementSignal> {
        match (self.stage, event) {
            (SemanticStage::Native, SemanticEvent::Performed { status }) => if status
                == AX_ERROR_SUCCESS && (self.kind is AxAction || self.kind is PageScroll) {
                seq![SettlementSignal::AxAction]
            } else {
                Seq::empty()
            },
            (SemanticStage::Native, SemanticEvent::ValueWritten { status, .. }) => if status
                == AX_ERROR_SUCCESS && self.kind is SetValue {
                seq![SettlementSignal::VerificationReadbackComplete]
            } else {
                Seq::empty()
            },
            (SemanticStage::Native, SemanticEvent::SelectionWritten { status, .. }) => if status
                == AX_ERROR_SUCCESS && self.kind is SelectText {
                seq![SettlementSignal::VerificationReadbackComplete]
            } else {
                Seq::empty()
            },
            (SemanticStage::OpenTitle { .. }, SemanticEvent::Title { title, .. })
            => match self.kind {
                PreparedKind::AxAction { open_verification: Some(verification), .. } => if opened(
                    verification,
                    title,
                ) {
                    seq![SettlementSignal::AxAction, SettlementSignal::VerificationReadbackComplete]
                } else {
                    Seq::empty()
                },
                _ => Seq::empty(),
            },
            (SemanticStage::OpenedMenu, SemanticEvent::MenuLooked { found, .. }) => match found {
                Ok(Some(_)) => seq![SettlementSignal::MenuOpened],
                _ => Seq::empty(),
            },
            (SemanticStage::MenuReaction, SemanticEvent::MenuLooked { found, .. })
            => match found {
                Ok(None) => seq![SettlementSignal::MenuDismissed],
                _ => Seq::empty(),
            },
            _ => Seq::empty(),
        }
    }

    /// A page scroll was validated: its evidence counts the pages.
    pub open spec fn counts_pages(self) -> bool {
        self.kind matches PreparedKind::PageScroll { route, direction, pages } && self.scope_fields
            == scroll_fields(pages, direction, route.scrollbar_child, self.completed)
    }

    /// The stages fit the action: the pages of a scroll are counted, in its
    /// evidence too once it has started, a menu is looked after once an action
    /// was performed for it, and a result ends the dispatch.
    pub open spec fn wf(self) -> bool {
        &&& self.stage is Done <==> self.result is Some
        &&& self.kind matches PreparedKind::PageScroll { pages, .. } ==> {
            &&& self.completed <= pages
            &&& self.stage is Refetch ==> self.completed == 0
            &&& self.stage is Boundary || self.stage is Native ==> self.completed < pages
            &&& self.counts_pages() || {
                &&& self.stage is Refetch || (self.result is Some && self.result->0 is Err)
                &&& self.completed == 0
                &&& self.scope_fields == Map::<Seq<char>, evidence::DetailView>::empty()
            }
        }
        &&& !(self.kind is PageScroll) ==> self.scope_fields == Map::<
            Seq<char>,
            evidence::DetailView,
        >::empty()
        &&& self.stage is OpenTitle ==> (self.kind matches PreparedKind::AxAction {
            open_verification,
            ..
        } && open_verification is Some)
        &&& self.stage matches SemanticStage::OpenTitle { status, .. } ==> status
            == AX_ERROR_ATTRIBUTE_UNSUPPORTED
        &&& self.stage is Arm || self.stage is OpenedMenu || self.stage is MenuReaction ==> {
            &&& self.kind is AxAction
            &&& self.report is Some
            &&& self.intent is Some
        }
        &&& self.stage is MenuReaction ==> self.intent->0 is Targeting
    }

    /// A dispatch that has just been admitted to its target.
    pub open spec fn started(
        prepared: MacPreparedSemanticAction,
        intent: Option<MenuMutationIntent>,
        deadline: u64,
    ) -> SemanticView {
        SemanticView {
            kind: prepared.kind,
            intent,
            deadline,
            epoch: prepared.signal_epoch,
            stage: SemanticStage::Refetch,
            completed: 0,
            scope_fields: Map::empty(),
            report: None,
            menu: None,
            invalidates_target: false,
            result: None,
        }
    }
}

/// A native call is made only after the prepared element was fetched again,
/// nothing was signalled meanwhile and the side-effect boundary was entered; a
/// further page enters the boundary again.
pub proof fn native_calls_follow_validation(state: SemanticView, event: SemanticEvent)
    requires
        state.wf(),
    ensures
        state.after(event).stage is Native && !(state.stage is Native) ==> {
            &&& state.stage is Boundary
            &&& event matches SemanticEvent::BoundaryEntered(entered) && entered is Ok
        },
        state.after(event).stage is Boundary && !(state.stage is Boundary) ==> {
            ||| {
                &&& state.stage is Refetch
                &&& event matches SemanticEvent::Refetched { element, epoch }
                &&& element is Ok
                &&& epoch == state.epoch
            }
            ||| {
                &&& state.stage is Native
                &&& state.kind is PageScroll
                &&& event matches SemanticEvent::Performed { status }
                &&& status == AX_ERROR_SUCCESS
            }
        },
{
}

/// A finished dispatch is final: no event changes it or signals anything.
pub proof fn a_finished_dispatch_is_final(state: SemanticView, event: SemanticEvent)
    requires
        state.stage is Done,
    ensures
        state.after(event) == state,
        state.signals(event) == Seq::<SettlementSignal>::empty(),
{
}

/// A page scroll succeeds with every page scrolled and no other way.
pub proof fn a_page_scroll_succeeds_whole(state: SemanticView, event: SemanticEvent)
    requires
        state.wf(),
        !(state.stage is Done),
        state.kind is PageScroll,
    ensures
        state.after(event).result matches Some(Ok(_)) ==> state.after(event).completed
            == state.kind->pages,
{
}

proof fn pages_are_recounted(
    pages: u16,
    direction: ScrollDirection,
    scrollbar_child: bool,
    before: u16,
    completed: u16,
)
    ensures
        scroll_fields(pages, direction, scrollbar_child, before).insert(
            "semantic_scroll_completed_pages"@,
            evidence::DetailView::Int(completed as int),
        ) == scroll_fields(pages, direction, scrollbar_child, completed),
{
    assert(scroll_fields(pages, direction, scrollbar_child, before).insert(
        "semantic_scroll_completed_pages"@,
        evidence::DetailView::Int(completed as int),
    ) =~= scroll_fields(pages, direction, scrollbar_child, completed));
}

/// However a page scroll goes on or ends once its element was validated, its
/// evidence counts the pages that were scrolled; a page that fails reports the
/// same number and adds none.
pub proof fn a_page_scroll_reports_what_was_scrolled(state: SemanticView, event: SemanticEvent)
    requires
        state.wf(),
        state.kind is PageScroll,
    ensures
        state.after(event).wf(),
        !(state.stage is Refetch) && state.counts_pages() ==> state.after(event).counts_pages(),
        state.stage is Boundary || state.stage is Native ==> state.after(event).counts_pages(),
        state.after(event).result is Some && state.after(event).result->0 is Ok ==> state.after(
            event,
        ).counts_pages(),
        state.stage is Native && (event matches SemanticEvent::Performed { status } && status
            != AX_ERROR_SUCCESS) ==> {
            &&& state.after(event).completed == state.completed
            &&& state.after(event).result == Some(
                Err::<actions::DispatchView, errors::ErrorView>(
                    page_failure(
                        event->Performed_status,
                        state.completed,
                        state.kind->pages,
                        state.kind->PageScroll_route.scrollbar_child,
                    ),
                ),
            )
        },
{
    match state.kind {
        PreparedKind::PageScroll { route, direction, pages } => {
            pages_are_recounted(
                pages,
                direction,
                route.scrollbar_child,
                state.completed,
                (state.completed + 1) as u16,
            );
        },
        _ => {},
    }
}

impl SemanticDispatch {
    /// Admits a prepared action to its target and scope.
    pub fn begin(
        prepared: MacPreparedSemanticAction,
        invalidated: bool,
        target: &ResolvedWindowStamp,
        scope_owner: &ResolvedWindowStamp,
        scope_window: &ResolvedWindowStamp,
        epoch: u64,
        intent: Option<MenuMutationIntent>,
        deadline: u64,
    ) -> (run: Result<SemanticDispatch, NativeError>)
        ensures
            ({
                let same_target = !invalidated && scope_owner@ == target@ && scope_window@
                    == target@;
                match run {
                    Ok(run) => {
                        &&& same_target
                        &&& epoch == prepared.signal_epoch
                        &&& run@ == SemanticView::started(prepared, intent, deadline)
                        &&& run@.wf()
                    },
                    Err(error) => error@ == if !same_target {
                        errors::ErrorView::stale(
                            ErrorCode::WindowIdentityChanged,
                            "semantic target identity changed after native action preparation"@,
                        )
                    } else {
                        errors::ErrorView::stale(
                            ErrorCode::ObservationRaced,
                            "semantic AX/content notification raced the final native validation"@,
                        )
                    } && (same_target ==> epoch != prepared.signal_epoch),
                }
            }),
    {
        match revalidate_prepared(
            invalidated,
            target,
            scope_owner,
            scope_window,
            epoch,
            prepared.signal_epoch,
        ) {
            Err(error) => Err(error),
            Ok(_) => Ok(
                SemanticDispatch {
                    kind: prepared.kind,
                    intent,
                    deadline,
                    epoch: prepared.signal_epoch,
                    stage: SemanticStage::Refetch,
                    completed: 0,
                    scope_fields: Fields::new(),
                    report: None,
                    menu: None,
                    invalidates_target: false,
                    result: None,
                },
            ),
        }
    }

    fn fail(&mut self, error: NativeError)
        ensures
            final(self)@ == old(self)@.failed(error@),
    {
        self.stage = SemanticStage::Done;
        self.result = Some(Err(error));
    }

    fn succeed(&mut self, dispatch: NativeDispatch)
        ensures
            final(self)@ == old(self)@.succeeded(dispatch@),
    {
        self.stage = SemanticStage::Done;
        self.result = Some(Ok(dispatch));
    }

    fn validate(&mut self)
        ensures
            final(self)@ == old(self)@.validated(),
    {
        let scroll: Option<(u16, ScrollDirection, bool)> = match &self.kind {
            PreparedKind::PageScroll { route, direction, pages } => Some(
                (*pages, *direction, route.scrollbar_child),
            ),
            _ => None,
        };
        match scroll {
            Some((pages, direction, scrollbar_child)) => {
                let mut fields: Fields = Fields::new();
                let run: PageScrollRun = PageScrollRun::begin(
                    pages,
                    direction,
                    scrollbar_child,
                    &mut fields,
                );
                self.scope_fields = fields;
                if run.pending() {
                    self.stage = SemanticStage::Boundary;
                } else {
                    self.succeed(run.finish());
                }
            },
            None => {
                self.stage = SemanticStage::Boundary;
            },
        }
    }

    fn perform(&mut self, status: i32, attempts: Option<u32>) -> (signals: Vec<SettlementSignal>)
        requires
            old(self).kind is AxAction,
        ensures
            final(self)@ == old(self)@.performed(status, attempts),
            signals@ == if status != AX_ERROR_SUCCESS && attempts is None {
                Seq::empty()
            } else if attempts is Some {
                seq![SettlementSignal::AxAction, SettlementSignal::VerificationReadbackComplete]
            } else {
                seq![SettlementSignal::AxAction]
            },
    {
        let outcome: DispatchOutcome = match &self.kind {
            PreparedKind::AxAction { action, primitive, .. } => finish_ax_action(
                action.as_str(),
                primitive,
                status,
                attempts,
            ),
            _ => DispatchOutcome {
                signals: Vec::new(),
                result: Err(ax_dispatch_error("exact AX action", status)),
            },
        };
        match outcome.result {
            Err(error) => self.fail(error),
            Ok(report) => if self.intent.is_some() {
                self.stage = SemanticStage::Arm;
                self.report = Some(report);
            } else {
                self.succeed(report);
            },
        }
        outcome.signals
    }

    fn page(&mut self, status: i32) -> (signals: Vec<SettlementSignal>)
        requires
            old(self)@.wf(),
            old(self).stage is Native,
            old(self).kind is PageScroll,
        ensures
            final(self)@ == old(self)@.paged(status),
            final(self)@.wf(),
            signals@ == if status == AX_ERROR_SUCCESS {
                seq![SettlementSignal::AxAction]
            } else {
                Seq::empty()
            },
    {
        proof {
            a_page_scroll_reports_what_was_scrolled(self@, SemanticEvent::Performed { status });
        }
        let mut signals: Vec<SettlementSignal> = Vec::new();
        let mut run: PageScrollRun = match &self.kind {
            PreparedKind::PageScroll { route, pages, .. } => PageScrollRun {
                pages: *pages,
                completed: self.completed,
                scrollbar_child: route.scrollbar_child,
            },
            _ => {
                return signals;
            },
        };
        let mut fields: Fields = self.scope_fields.clone();
        match run.page_done(status, &mut fields) {
            Err(error) => self.fail(error),
            Ok(signal) => {
                signals.push(signal);
                self.completed = run.completed;
                self.scope_fields = fields;
                if run.pending() {
                    self.stage = SemanticStage::Boundary;
                } else {
                    self.succeed(run.finish());
                }
            },
        }
        assert(status == AX_ERROR_SUCCESS ==> signals@ =~= seq![SettlementSignal::AxAction]);
        signals
    }

    fn arm(&mut self)
        requires
            old(self)@.wf(),
            old(self).stage is Arm,
        ensures
            final(self)@ == old(self)@.armed(),
    {
        let opens: bool = match &self.kind {
            PreparedKind::AxAction { opens_menu, .. } => *opens_menu,
            _ => false,
        };
        match menu_step(&self.intent, opens) {
            Err(error) => self.fail(error),
            Ok(MenuStep::WaitForOpened) => {
                self.stage = SemanticStage::OpenedMenu;
            },
            Ok(MenuStep::AwaitReaction) => {
                self.stage = SemanticStage::MenuReaction;
            },
            Ok(MenuStep::Nothing) => {},
        }
    }

    fn end_menu(&mut self, outcome: MenuOutcome, identity: NativeMenuIdentity) -> (signals: Vec<
        SettlementSignal,
    >)
        requires
            old(self).report is Some,
        ensures
            final(self)@ == old(self)@.menu_ended(outcome, identity),
            signals@ == match outcome {
                MenuOutcome::Opened => seq![SettlementSignal::MenuOpened],
                MenuOutcome::Targeted => Seq::empty(),
                MenuOutcome::Dismissed => seq![SettlementSignal::MenuDismissed],
            },
    {
        let mut signals: Vec<SettlementSignal> = Vec::new();
        if let Some(signal) = outcome.signal() {
            signals.push(signal);
            assert(signals@ =~= seq![signal]);
        }
        self.stage = SemanticStage::Done;
        self.menu = Some((outcome, identity));
        self.result = match self.report.take() {
            Some(report) => Some(Ok(report)),
            None => None,
        };
        signals
    }

    /// Takes an event and moves on; returns the signals to record, in order.
    pub fn advance(&mut self, event: SemanticEvent) -> (signals: Vec<SettlementSignal>)
        requires
            old(self)@.wf(),
            !(old(self).stage matches SemanticStage::OpenTitle { attempts, .. } && attempts
                == u32::MAX),
        ensures
            final(self)@ == old(self)@.after(event),
            final(self)@.wf(),
            signals@ == old(self)@.signals(event),
    {
        let none: Vec<SettlementSignal> = Vec::new();
        match (self.stage, event) {
            (SemanticStage::Refetch, SemanticEvent::Refetched { element, epoch }) => {
                match element {
                    Err(error) => self.fail(error),
                    Ok(_) => match revalidate_refetch_epoch(self.epoch, epoch) {
                        Err(error) => self.fail(error),
                        Ok(_) => self.validate(),
                    },
                }
                none
            },
            (SemanticStage::Boundary, SemanticEvent::BoundaryEntered(entered)) => {
                match entered {
                    Err(error) => self.fail(error),
                    Ok(_) => {
                        self.stage = SemanticStage::Native;
                    },
                }
                none
            },
            (SemanticStage::Native, SemanticEvent::Performed { status }) => {
                let reads_title: bool = match &self.kind {
                    PreparedKind::AxAction { open_verification, .. } => needs_open_readback(
                        status,
                        open_verification,
                    ),
                    _ => false,
                };
                let is_action: bool = matches!(&self.kind, PreparedKind::AxAction { .. });
                let is_scroll: bool = matches!(&self.kind, PreparedKind::PageScroll { .. });
                if reads_title {
                    self.stage = SemanticStage::OpenTitle { status, attempts: 0 };
                    none
                } else if is_action {
                    self.perform(status, None)
                } else if is_scroll {
                    self.page(status)
                } else {
                    none
                }
            },
            (SemanticStage::Native, SemanticEvent::ValueWritten { status, readback }) => {
                let outcome: Option<DispatchOutcome> = match &self.kind {
                    PreparedKind::SetValue { value, .. } => Some(
                        finish_set_value(status, readback, value.as_str()),
                    ),
                    _ => None,
                };
                self.conclude(outcome)
            },
            (SemanticStage::Native, SemanticEvent::SelectionWritten { status, range, text }) => {
                let outcome: Option<DispatchOutcome> = match &self.kind {
                    PreparedKind::SelectText { range: wanted, expected_text, .. } => Some(
                        finish_select_text(status, range, text, *wanted, expected_text.as_str()),
                    ),
                    _ => None,
                };
                self.conclude(outcome)
            },
            (SemanticStage::OpenTitle { status, attempts }, SemanticEvent::Title { title, now })
            => {
                let verified: Option<bool> = match &self.kind {
                    PreparedKind::AxAction { open_verification: Some(verification), .. } => Some(
                        verified_ax_open_transition(verification, &title),
                    ),
                    _ => None,
                };
                match verified {
                    None => none,
                    Some(true) => self.perform(status, Some(attempts + 1)),
                    Some(false) => if now >= self.deadline {
                        self.perform(status, None)
                    } else {
                        self.stage = SemanticStage::OpenTitle { status, attempts: attempts + 1 };
                        none
                    },
                }
            },
            (SemanticStage::Arm, SemanticEvent::Armed(armed)) => {
                match armed {
                    Err(error) => {
                        self.fail(arming_failed(error));
                        self.invalidates_target = true;
                    },
                    Ok(_) => self.arm(),
                }
                none
            },
            (SemanticStage::OpenedMenu, SemanticEvent::MenuLooked { found, now }) => match found {
                Err(error) => {
                    self.fail(error);
                    none
                },
                Ok(Some(identity)) => self.end_menu(MenuOutcome::Opened, identity),
                Ok(None) => {
                    if let Err(error) = wait_for_opened_menu(false, now, self.deadline) {
                        self.fail(error);
                    }
                    none
                },
            },
            (SemanticStage::MenuReaction, SemanticEvent::MenuLooked { found, .. }) => match found {
                Err(error) => {
                    self.fail(error);
                    none
                },
                Ok(found) => {
                    let prior: Option<NativeMenuIdentity> = match &self.intent {
                        Some(MenuMutationIntent::Targeting { identity, .. }) => Some(
                            identity.clone(),
                        ),
                        _ => None,
                    };
                    match prior {
                        Some(prior) => {
                            let (outcome, identity) = menu_outcome_after_target(found, prior);
                            self.end_menu(outcome, identity)
                        },
                        None => none,
                    }
                },
            },
            _ => none,
        }
    }

    fn conclude(&mut self, outcome: Option<DispatchOutcome>) -> (signals: Vec<SettlementSignal>)
        ensures
            match outcome {
                None => final(self)@ == old(self)@ && signals@ == Seq::<SettlementSignal>::empty(),
                Some(outcome) => {
                    &&& signals@ == outcome.signals@
                    &&& final(self)@ == match outcome.result {
                        Ok(dispatch) => old(self)@.succeeded(dispatch@),
                        Err(error) => old(self)@.failed(error@),
                    }
                },
            },
    {
        match outcome {
            None => Vec::new(),
            Some(outcome) => {
                match outcome.result {
                    Ok(dispatch) => self.succeed(dispatch),
                    Err(error) => self.fail(error),
                }
                outcome.signals
            },
        }
    }
}

} // verus!
