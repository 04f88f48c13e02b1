//! The dispatch of a prepared keyboard action, one native step at a time: what
//! is asked of the host next, and what its answer leads to.
use vstd::prelude::*;

use crate::ax::bindings::{AxCfRange, AX_ERROR_SUCCESS};
use crate::contracts::{SettlementSignal, VerificationLevel};
use crate::driver::actions;
use crate::driver::actions::keyboard;
use crate::driver::actions::keyboard::{
    dispatch_unverified, dispatch_unverified_application, exact_insertion_readback,
    field_focus_needed, field_focus_writable, field_focus_written, finish_semantic_insertion,
    finish_unicode, insertion_written, sequence_construction_error, sequence_evidence,
    unicode_deadline, MacKeyboardEventTarget, MacPreparedKeyboardAction, TargetedKeyEventKind,
};
use crate::driver::actions::NativeDispatch;
use crate::errors;
use crate::errors::{ErrorCode, ErrorPhase, NativeError};
use crate::evidence;
use crate::evidence::Fields;
use crate::text;

verus! {

/// What a dispatch awaits.
#[derive(Debug, Clone, Copy, PartialEq, Eq, Structural)]
pub enum KeyboardStage {
    /// The prepared target is validated for the last time.
    Validate,
    /// The key events are constructed.
    Sequence,
    /// The focus of the target field is read.
    FieldFocus,
    /// Whether the focus of the target field can be written is read.
    FieldSettable,
    /// The side-effect boundary is entered to focus the field.
    FieldBoundary,
    /// The field is focused.
    FieldWrite,
    /// The side-effect boundary is entered to post the events.
    PostBoundary,
    /// The events are posted.
    Post,
    /// The side-effect boundary is entered to insert the text.
    InsertBoundary,
    /// The text is inserted.
    Insert,
    /// The value and the selection of the target are read back.
    ReadBack,
    Done,
}

/// What the host reports to a dispatch.
#[derive(Debug)]
pub enum KeyboardEvent {
    Validated(Result<(), NativeError>),
    /// `now` was read before the construction.
    SequenceBuilt { kinds: Result<Vec<TargetedKeyEventKind>, NativeError>, now: u64 },
    FieldFocused(Result<Option<bool>, i32>),
    FieldSettable(Result<bool, i32>),
    BoundaryEntered(Result<(), NativeError>),
    FieldWritten { status: i32, restored: Result<Option<bool>, i32> },
    Posted,
    TextWritten { status: i32 },
    ReadBack { value: Result<Option<String>, i32>, selection: Result<Option<AxCfRange>, i32> },
}

/// A dispatch in progress.
#[derive(Debug)]
pub struct KeyboardDispatch {
    pub action: MacPreparedKeyboardAction,
    pub deadline: u64,
    pub stage: KeyboardStage,
    /// The events to post, in order.
    pub kinds: Vec<TargetedKeyEventKind>,
    /// The field had to be focused.
    pub focus_write: bool,
    /// The side-effect boundary was entered.
    pub started: bool,
    pub result: Option<Result<NativeDispatch, NativeError>>,
}

pub ghost struct KeyboardView {
    pub action: MacPreparedKeyboardAction,
    pub deadline: u64,
    pub stage: KeyboardStage,
    pub kinds: Seq<TargetedKeyEventKind>,
    pub focus_write: bool,
    pub started: bool,
    pub result: Option<Result<actions::DispatchView, errors::ErrorView>>,
}

impl View for KeyboardDispatch {
    type V = KeyboardView;

    open spec fn view(&self) -> KeyboardView {
        KeyboardView {
            action: self.action,
            deadline: self.deadline,
            stage: self.stage,
            kinds: self.kinds@,
            focus_write: self.focus_write,
            started: self.started,
            result: match self.result {
                Some(Ok(dispatch)) => Some(Ok(dispatch@)),
                Some(Err(error)) => Some(Err(error@)),
                None => None,
            },
        }
    }
}

/// The focused element that an action's events go to, where it has one.
pub open spec fn focused_target(action: MacPreparedKeyboardAction) -> Option<
    MacKeyboardEventTarget,
> {
    match action.focused_target() {
        Some((target, _)) => Some(target),
        None => None,
    }
}

/// A construction that failed, as it is reported.
pub open spec fn construction_failure(error: errors::ErrorView, started: bool) -> errors::ErrorView {
    (errors::ErrorView {
        retryable: !started,
        phase: if started {
            ErrorPhase::Dispatch
        } else {
            ErrorPhase::Preflight
        },
        ..error
    }).with("field_focus_side_effect_started"@, evidence::DetailView::Bool(started)).with(
        "event_count_posted"@,
        evidence::DetailView::Int(0),
    ).with("possibly_partial_delivery"@, evidence::DetailView::Bool(started))
}

/// A Unicode sequence whose construction starts too late.
pub open spec fn construction_too_late(started: bool, focus_write: bool) -> errors::ErrorView {
    errors::ErrorView::new(
        ErrorCode::DispatchFailed,
        if started {
            ErrorPhase::Dispatch
        } else {
            ErrorPhase::Preflight
        },
        true,
        "targeted Unicode sequence reached its controller deadline before construction"@,
    ).with("possibly_partial_delivery"@, evidence::DetailView::Bool(started)).with(
        "field_focus_write_attempted"@,
        evidence::DetailView::Bool(focus_write),
    )
}

/// The field could not be focused.
pub open spec fn field_write_refusal(
    target: MacKeyboardEventTarget,
    status: i32,
    restored: Result<Option<bool>, i32>,
) -> Option<errors::ErrorView> {
    if status != AX_ERROR_SUCCESS {
        Some(
            keyboard::focus_write_failure(
                target,
                "AXFocused restoration failed after entering the native side-effect boundary"@,
                Some(status),
            ),
        )
    } else {
        match restored {
            Err(status) => Some(
                keyboard::focus_write_failure(
                    target,
                    "AXFocused restoration could not be read back"@,
                    Some(status),
                ),
            ),
            Ok(restored) => if restored == Some(true) {
                None
            } else {
                Some(
                    keyboard::focus_write_failure(
                        target,
                        "AXFocused restoration was not acknowledged by the exact keyboard target"@,
                        None,
                    ),
                )
            },
        }
    }
}

/// The report of posted events.
pub open spec fn posted_report(
    primitive: Seq<char>,
    target: MacKeyboardEventTarget,
    fields: Map<Seq<char>, evidence::DetailView>,
) -> actions::DispatchView {
    actions::DispatchView {
        verification: VerificationLevel::DispatchUnverified,
        fields: fields.union_prefer_right(keyboard::focus_fields(target)).insert(
            "primitive"@,
            evidence::DetailView::Text(primitive),
        ),
    }
}

/// The evidence that a readback adds to posted events.
pub open spec fn with_readback(
    fields: Map<Seq<char>, evidence::DetailView>,
    readback: Option<Result<bool, errors::ErrorView>>,
) -> Map<Seq<char>, evidence::DetailView> {
    let reported = match readback {
        Some(Err(error)) => fields.insert(
            "exact_readback_error"@,
            evidence::DetailView::Text(error.message),
        ),
        _ => fields,
    };
    reported.insert("exact_readback_available"@, evidence::DetailView::Bool(readback is Some)).insert(
        "exact_readback_matched"@,
        evidence::DetailView::Bool(readback == Some(Ok::<bool, errors::ErrorView>(true))),
    )
}

/// The report of an exact insertion.
pub open spec fn insertion_report(
    target: MacKeyboardEventTarget,
    inserted: Seq<char>,
) -> actions::DispatchView {
    actions::DispatchView {
        verification: VerificationLevel::EffectVerified,
        fields: keyboard::focus_fields(target).insert(
            "primitive"@,
            evidence::DetailView::Text("macos_ax_selected_text_insertion"@),
        ).insert("clipboard_used"@, evidence::DetailView::Bool(false)).insert(
            "exact_typed_readback"@,
            evidence::DetailView::Bool(true),
        ).insert(
            "inserted_utf16_units"@,
            evidence::DetailView::Int(text::utf16_len(inserted) as int),
        ),
    }
}

impl KeyboardView {
    pub open spec fn failed(self, error: errors::ErrorView) -> KeyboardView {
        KeyboardView { stage: KeyboardStage::Done, result: Some(Err(error)), ..self }
    }

    pub open spec fn succeeded(self, dispatch: actions::DispatchView) -> KeyboardView {
        KeyboardView { stage: KeyboardStage::Done, result: Some(Ok(dispatch)), ..self }
    }

    pub open spec fn at(self, stage: KeyboardStage) -> KeyboardView {
        KeyboardView { stage, ..self }
    }

    /// The field has its focus: the events of a chord are posted, those of a
    /// text are constructed.
    pub open spec fn focused(self) -> KeyboardView {
        match self.action {
            MacPreparedKeyboardAction::UnicodeInsertion { .. } => self.at(KeyboardStage::Sequence),
            _ => self.at(KeyboardStage::PostBoundary),
        }
    }

    /// Every event was posted.
    pub open spec fn posted(self) -> KeyboardView {
        match self.action {
            MacPreparedKeyboardAction::FocusedChord { target } => self.succeeded(
                posted_report(
                    "macos_targeted_key_chord"@,
                    target,
                    keyboard::sequence_fields(
                        target.application_pid,
                        target.dispatch_pid,
                        self.kinds,
                        self.focus_write,
                    ),
                ),
            ),
            MacPreparedKeyboardAction::ApplicationChord { application } => self.succeeded(
                actions::DispatchView {
                    verification: VerificationLevel::DispatchUnverified,
                    fields: keyboard::sequence_fields(
                        application.application_pid,
                        application.application_pid,
                        self.kinds,
                        false,
                    ).union_prefer_right(keyboard::application_fields(application)).insert(
                        "primitive"@,
                        evidence::DetailView::Text("macos_targeted_application_key_chord"@),
                    ),
                },
            ),
            MacPreparedKeyboardAction::UnicodeInsertion { readback, .. } => if readback is Some {
                self.at(KeyboardStage::ReadBack)
            } else {
                self.typed(None)
            },
            MacPreparedKeyboardAction::SemanticInsertion { .. } => self,
        }
    }

    /// A text was typed, with what its readback showed. A readback that does not
    /// match is no negative acknowledgement: the control may not have reacted.
    pub open spec fn typed(self, readback: Option<Result<bool, errors::ErrorView>>) -> KeyboardView {
        match self.action {
            MacPreparedKeyboardAction::UnicodeInsertion { target, .. } => self.succeeded(
                posted_report(
                    "macos_targeted_unicode_events"@,
                    target,
                    with_readback(
                        keyboard::sequence_fields(
                            target.application_pid,
                            target.dispatch_pid,
                            self.kinds,
                            self.focus_write,
                        ),
                        readback,
                    ),
                ),
            ),
            _ => self,
        }
    }

    /// What an event leads to; an event that is not awaited changes nothing.
    pub open spec fn after(self, event: KeyboardEvent) -> KeyboardView {
        match (self.stage, event) {
            (KeyboardStage::Validate, KeyboardEvent::Validated(validated)) => match validated {
                Err(error) => self.failed(error@),
                Ok(_) => match self.action {
                    MacPreparedKeyboardAction::FocusedChord { .. }
                    | MacPreparedKeyboardAction::ApplicationChord { .. } => self.at(
                        KeyboardStage::Sequence,
                    ),
                    MacPreparedKeyboardAction::UnicodeInsertion { .. } => self.at(
                        KeyboardStage::FieldFocus,
                    ),
                    MacPreparedKeyboardAction::SemanticInsertion { .. } => self.at(
                        KeyboardStage::InsertBoundary,
                    ),
                },
            },
            (KeyboardStage::Sequence, KeyboardEvent::SequenceBuilt { kinds, now }) => {
                let text = self.action is UnicodeInsertion;
                if text && now >= self.deadline {
                    self.failed(construction_too_late(self.started, self.focus_write))
                } else {
                    match kinds {
                        Err(error) => self.failed(construction_failure(error@, self.started)),
                        Ok(kinds) => {
                            let built = KeyboardView { kinds: kinds@, ..self };
                            if self.action is FocusedChord {
                                built.at(KeyboardStage::FieldFocus)
                            } else {
                                built.at(KeyboardStage::PostBoundary)
                            }
                        },
                    }
                }
            },
            (KeyboardStage::FieldFocus, KeyboardEvent::FieldFocused(focused)) => match focused {
                Err(status) => self.failed(keyboard::ax_focus_failure("AXFocused"@, status)),
                Ok(focused) => if focused == Some(false) {
                    self.at(KeyboardStage::FieldSettable)
                } else {
                    self.focused()
                },
            },
            (KeyboardStage::FieldSettable, KeyboardEvent::FieldSettable(settable)) => match (
                settable,
                focused_target(self.action),
            ) {
                (Err(status), _) => self.failed(
                    keyboard::ax_focus_failure("AXFocused settable"@, status),
                ),
                (Ok(true), _) => self.at(KeyboardStage::FieldBoundary),
                (Ok(false), Some(target)) => self.failed(
                    errors::ErrorView::unsupported(
                        "exact keyboard target is not focused and AXFocused is not writable"@,
                    ).with(
                        "application_pid"@,
                        evidence::DetailView::Int(target.application_pid as int),
                    ).with(
                        "dispatch_pid"@,
                        evidence::DetailView::Int(target.dispatch_pid as int),
                    ).with("role"@, evidence::DetailView::Text(target.snapshot.role@)),
                ),
                (Ok(false), None) => self,
            },
            (KeyboardStage::FieldBoundary, KeyboardEvent::BoundaryEntered(entered))
            => self.entered(entered, KeyboardStage::FieldWrite),
            (KeyboardStage::FieldWrite, KeyboardEvent::FieldWritten { status, restored })
            => match focused_target(self.action) {
                Some(target) => match field_write_refusal(target, status, restored) {
                    Some(error) => self.failed(error),
                    None => (KeyboardView { focus_write: true, ..self }).focused(),
                },
                None => self,
            },
            (KeyboardStage::PostBoundary, KeyboardEvent::BoundaryEntered(entered))
            => self.entered(entered, KeyboardStage::Post),
            (KeyboardStage::Post, KeyboardEvent::Posted) => self.posted(),
            (KeyboardStage::InsertBoundary, KeyboardEvent::BoundaryEntered(entered))
            => self.entered(entered, KeyboardStage::Insert),
            (KeyboardStage::Insert, KeyboardEvent::TextWritten { status }) => if status
                != AX_ERROR_SUCCESS {
                self.failed(
                    errors::ErrorView::new(
                        ErrorCode::DispatchFailed,
                        ErrorPhase::Dispatch,
                        false,
                        "AXSelectedText insertion failed after entering the dispatch boundary"@,
                    ).with("ax_error"@, evidence::DetailView::Int(status as int)).with(
                        "possibly_partial_delivery"@,
                        evidence::DetailView::Bool(true),
                    ),
                )
            } else {
                self.at(KeyboardStage::ReadBack)
            },
            (KeyboardStage::ReadBack, KeyboardEvent::ReadBack { value, selection })
            => match self.action {
                MacPreparedKeyboardAction::SemanticInsertion { target, text: inserted, expected } => {
                    match keyboard::readback_of(value, selection, expected) {
                        Err(error) => self.failed(error),
                        Ok(false) => self.failed(
                            errors::ErrorView::new(
                                ErrorCode::VerificationFailed,
                                ErrorPhase::Verify,
                                true,
                                "AXSelectedText insertion did not produce the exact value and caret readback"@,
                            ).with(
                                "possibly_partial_delivery"@,
                                evidence::DetailView::Bool(true),
                            ),
                        ),
                        Ok(true) => self.succeeded(insertion_report(target, inserted@)),
                    }
                },
                MacPreparedKeyboardAction::UnicodeInsertion { readback: Some(expected), .. }
                => self.typed(Some(keyboard::readback_of(value, selection, expected))),
                _ => self,
            },
            _ => self,
        }
    }

    /// The stages fit the action, native stages lie behind the boundary, and
    /// before the events are built only a field that had to be focused has led
    /// there.
    pub open spec fn wf(self) -> bool {
        &&& self.stage is Done <==> self.result is Some
        &&& self.stage is FieldFocus || self.stage is FieldSettable || self.stage is FieldBoundary
            || self.stage is FieldWrite ==> self.action is FocusedChord
            || self.action is UnicodeInsertion
        &&& self.stage is Sequence || self.stage is PostBoundary || self.stage is Post ==> !(
        self.action is SemanticInsertion)
        &&& self.stage is InsertBoundary || self.stage is Insert
            ==> self.action is SemanticInsertion
        &&& self.stage is ReadBack ==> {
            ||| self.action is SemanticInsertion
            ||| self.action matches MacPreparedKeyboardAction::UnicodeInsertion { readback, .. }
                && readback is Some
        }
        &&& self.stage is FieldWrite || self.stage is Post || self.stage is Insert
            || self.stage is ReadBack ==> self.started
        &&& self.focus_write ==> self.started
        &&& self.stage is Validate || self.stage is FieldFocus || self.stage is FieldSettable
            || self.stage is FieldBoundary || self.stage is InsertBoundary ==> !self.started
        &&& self.stage is Sequence && !(self.action is UnicodeInsertion) ==> !self.started
        &&& self.stage is Sequence || self.stage is PostBoundary ==> self.started
            == self.focus_write
    }

    pub open spec fn starting(action: MacPreparedKeyboardAction, deadline: u64) -> KeyboardView {
        KeyboardView {
            action,
            deadline,
            stage: KeyboardStage::Validate,
            kinds: Seq::empty(),
            focus_write: false,
            started: false,
            result: None,
        }
    }

    /// The boundary was entered for a native stage, or refused.
    pub open spec fn entered(
        self,
        entered: Result<(), NativeError>,
        stage: KeyboardStage,
    ) -> KeyboardView {
        match entered {
            Err(error) => self.failed(error@),
            Ok(_) => KeyboardView { stage, started: true, ..self },
        }
    }

    /// The signal to record when an event arrives.
    pub open spec fn signal(self, event: KeyboardEvent) -> Option<SettlementSignal> {
        match (self.stage, event, self.action) {
            (
                KeyboardStage::ReadBack,
                KeyboardEvent::ReadBack { value, selection },
                MacPreparedKeyboardAction::SemanticInsertion { expected, .. },
            ) => if keyboard::readback_of(value, selection, expected) is Ok {
                Some(SettlementSignal::VerificationReadbackComplete)
            } else {
                None
            },
            (
                KeyboardStage::ReadBack,
                KeyboardEvent::ReadBack { value, selection },
                MacPreparedKeyboardAction::UnicodeInsertion { readback: Some(expected), .. },
            ) => if keyboard::readback_of(value, selection, expected) is Ok {
                Some(SettlementSignal::VerificationReadbackComplete)
            } else {
                None
            },
            _ => None,
        }
    }
}

/// Nothing is written or posted before the target was validated and the
/// side-effect boundary was entered for exactly that.
pub proof fn native_keys_follow_the_boundary(state: KeyboardView, event: KeyboardEvent)
    requires
        state.wf(),
    ensures
        ({
            let next = state.after(event);
            let entered = event matches KeyboardEvent::BoundaryEntered(entered) && entered is Ok;
            &&& next.stage is FieldWrite && !(state.stage is FieldWrite) ==> state.stage
                is FieldBoundary && entered
            &&& next.stage is Post && !(state.stage is Post) ==> state.stage is PostBoundary
                && entered
            &&& next.stage is Insert && !(state.stage is Insert) ==> state.stage is InsertBoundary
                && entered
            &&& state.stage is Validate && !(next.stage is Validate) && !(next.stage is Done)
                ==> (event matches KeyboardEvent::Validated(validated) && validated is Ok)
            &&& next.started && !state.started ==> entered
        }),
{
}

/// A finished dispatch is final: no event changes it or signals anything.
pub proof fn a_finished_key_dispatch_is_final(state: KeyboardView, event: KeyboardEvent)
    requires
        state.stage is Done,
    ensures
        state.after(event) == state,
        state.signal(event) is None,
{
}

/// An exact insertion succeeds only with its value and caret read back.
pub proof fn exact_insertions_are_read_back(state: KeyboardView, event: KeyboardEvent)
    requires
        state.wf(),
        !(state.stage is Done),
        state.action is SemanticInsertion,
        state.after(event).result matches Some(Ok(_)),
    ensures
        state.stage is ReadBack,
        event matches KeyboardEvent::ReadBack { value, selection } && keyboard::readback_of(
            value,
            selection,
            state.action->SemanticInsertion_expected,
        ) == Ok::<bool, errors::ErrorView>(true),
{
}

impl KeyboardDispatch {
    pub fn begin(action: MacPreparedKeyboardAction, deadline: u64) -> (run: KeyboardDispatch)
        ensures
            run@ == KeyboardView::starting(action, deadline),
            run@.wf(),
    {
        KeyboardDispatch {
            action,
            deadline,
            stage: KeyboardStage::Validate,
            kinds: Vec::new(),
            focus_write: false,
            started: false,
            result: None,
        }
    }

    fn fail(&mut self, error: NativeError)
        ensures
            final(self)@ == old(self)@.failed(error@),
    {
        self.stage = KeyboardStage::Done;
        self.result = Some(Err(error));
    }

    fn succeed(&mut self, dispatch: NativeDispatch)
        ensures
            final(self)@ == old(self)@.succeeded(dispatch@),
    {
        self.stage = KeyboardStage::Done;
        self.result = Some(Ok(dispatch));
    }

    fn enter(&mut self, entered: Result<(), NativeError>, stage: KeyboardStage)
        ensures
            final(self)@ == old(self)@.entered(entered, stage),
    {
        match entered {
            Err(error) => self.fail(error),
            Ok(_) => {
                self.stage = stage;
                self.started = true;
            },
        }
    }

    fn field_has_focus(&mut self)
        ensures
            final(self)@ == old(self)@.focused(),
    {
        self.stage = if matches!(&self.action, MacPreparedKeyboardAction::UnicodeInsertion { .. }) {
            KeyboardStage::Sequence
        } else {
            KeyboardStage::PostBoundary
        };
    }

    fn validated(&mut self)
        requires
            old(self).stage is Validate,
        ensures
            final(self)@ == old(self)@.after(
                KeyboardEvent::Validated(Ok::<(), NativeError>(())),
            ),
    {
        self.stage = match &self.action {
            MacPreparedKeyboardAction::FocusedChord { .. } => KeyboardStage::Sequence,
            MacPreparedKeyboardAction::ApplicationChord { .. } => KeyboardStage::Sequence,
            MacPreparedKeyboardAction::UnicodeInsertion { .. } => KeyboardStage::FieldFocus,
            MacPreparedKeyboardAction::SemanticInsertion { .. } => KeyboardStage::InsertBoundary,
        };
    }

    fn build(&mut self, kinds: Result<Vec<TargetedKeyEventKind>, NativeError>, now: u64)
        requires
            old(self).stage is Sequence,
        ensures
            final(self)@ == old(self)@.after(KeyboardEvent::SequenceBuilt { kinds, now }),
    {
        let text: bool = matches!(&self.action, MacPreparedKeyboardAction::UnicodeInsertion { .. });
        let chord: bool = matches!(&self.action, MacPreparedKeyboardAction::FocusedChord { .. });
        if text {
            if let Err(error) = unicode_deadline(
                now,
                self.deadline,
                self.started,
                self.focus_write,
            ) {
                self.fail(error);
                return;
            }
        }
        match kinds {
            Err(error) => {
                let reported: NativeError = sequence_construction_error(error, self.started);
                self.fail(reported);
            },
            Ok(kinds) => {
                self.kinds = kinds;
                self.stage = if chord {
                    KeyboardStage::FieldFocus
                } else {
                    KeyboardStage::PostBoundary
                };
            },
        }
    }

    fn target(&self) -> (target: Option<&MacKeyboardEventTarget>)
        ensures
            match target {
                Some(target) => focused_target(self.action) == Some(*target),
                None => focused_target(self.action) is None,
            },
    {
        match self.action.focused() {
            Some((target, _)) => Some(target),
            None => None,
        }
    }

    fn posted(&mut self)
        requires
            old(self)@.wf(),
            old(self).stage is Post,
        ensures
            final(self)@ == old(self)@.posted(),
    {
        let report: Option<NativeDispatch> = match &self.action {
            MacPreparedKeyboardAction::FocusedChord { target } => Some(
                dispatch_unverified(
                    "macos_targeted_key_chord",
                    target,
                    sequence_evidence(
                        target.application_pid,
                        target.dispatch_pid,
                        &self.kinds,
                        self.focus_write,
                    ),
                ),
            ),
            MacPreparedKeyboardAction::ApplicationChord { application } => Some(
                dispatch_unverified_application(
                    "macos_targeted_application_key_chord",
                    application,
                    sequence_evidence(
                        application.application_pid,
                        application.application_pid,
                        &self.kinds,
                        false,
                    ),
                ),
            ),
            MacPreparedKeyboardAction::UnicodeInsertion { target, readback, .. } => match readback {
                Some(_) => None,
                None => Some(
                    finish_unicode(
                        target,
                        sequence_evidence(
                            target.application_pid,
                            target.dispatch_pid,
                            &self.kinds,
                            self.focus_write,
                        ),
                        None,
                    ).0,
                ),
            },
            MacPreparedKeyboardAction::SemanticInsertion { .. } => None,
        };
        match report {
            Some(report) => self.succeed(report),
            None => {
                self.stage = KeyboardStage::ReadBack;
            },
        }
    }

    fn read_back(
        &mut self,
        value: Result<Option<String>, i32>,
        selection: Result<Option<AxCfRange>, i32>,
    ) -> (signal: Option<SettlementSignal>)
        requires
            old(self)@.wf(),
            old(self).stage is ReadBack,
        ensures
            final(self)@ == old(self)@.after(KeyboardEvent::ReadBack { value, selection }),
            signal == old(self)@.signal(KeyboardEvent::ReadBack { value, selection }),
    {
        let (result, signal): (
            Result<NativeDispatch, NativeError>,
            Option<SettlementSignal>,
        ) = match &self.action {
            MacPreparedKeyboardAction::SemanticInsertion { target, text, expected } => {
                finish_semantic_insertion(
                    target,
                    text.as_str(),
                    exact_insertion_readback(value, selection, expected),
                )
            },
            MacPreparedKeyboardAction::UnicodeInsertion {
                target,
                readback: Some(expected),
                ..
            } => {
                let fields: Fields = sequence_evidence(
                    target.application_pid,
                    target.dispatch_pid,
                    &self.kinds,
                    self.focus_write,
                );
                let (report, signal) = finish_unicode(
                    target,
                    fields,
                    Some(exact_insertion_readback(value, selection, expected)),
                );
                (Ok(report), signal)
            },
            _ => {
                return None;
            },
        };
        match result {
            Ok(report) => self.succeed(report),
            Err(error) => self.fail(error),
        }
        signal
    }

    /// Takes an event and moves on; returns the signal to record.
    pub fn advance(&mut self, event: KeyboardEvent) -> (signal: Option<SettlementSignal>)
        requires
            old(self)@.wf(),
        ensures
            final(self)@ == old(self)@.after(event),
            final(self)@.wf(),
            signal == old(self)@.signal(event),
    {
        match (self.stage, event) {
            (KeyboardStage::Validate, KeyboardEvent::Validated(validated)) => match validated {
                Err(error) => self.fail(error),
                Ok(_) => self.validated(),
            },
            (KeyboardStage::Sequence, KeyboardEvent::SequenceBuilt { kinds, now }) => self.build(
                kinds,
                now,
            ),
            (KeyboardStage::FieldFocus, KeyboardEvent::FieldFocused(focused)) => {
                match field_focus_needed(focused) {
                    Err(error) => self.fail(error),
                    Ok(true) => {
                        self.stage = KeyboardStage::FieldSettable;
                    },
                    Ok(false) => self.field_has_focus(),
                }
            },
            (KeyboardStage::FieldSettable, KeyboardEvent::FieldSettable(settable)) => {
                let outcome: Option<Result<(), NativeError>> = match self.target() {
                    Some(target) => Some(field_focus_writable(target, settable)),
                    None => None,
                };
                match outcome {
                    Some(Err(error)) => self.fail(error),
                    Some(Ok(_)) => {
                        self.stage = KeyboardStage::FieldBoundary;
                    },
                    None => {},
                }
            },
            (KeyboardStage::FieldBoundary, KeyboardEvent::BoundaryEntered(entered)) => self.enter(
                entered,
                KeyboardStage::FieldWrite,
            ),
            (KeyboardStage::FieldWrite, KeyboardEvent::FieldWritten { status, restored }) => {
                let outcome: Option<Result<(), NativeError>> = match self.target() {
                    Some(target) => Some(field_focus_written(target, status, restored)),
                    None => None,
                };
                match outcome {
                    Some(Err(error)) => self.fail(error),
                    Some(Ok(_)) => {
                        self.focus_write = true;
                        self.field_has_focus();
                    },
                    None => {},
                }
            },
            (KeyboardStage::PostBoundary, KeyboardEvent::BoundaryEntered(entered)) => self.enter(
                entered,
                KeyboardStage::Post,
            ),
            (KeyboardStage::Post, KeyboardEvent::Posted) => self.posted(),
            (KeyboardStage::InsertBoundary, KeyboardEvent::BoundaryEntered(entered)) => self.enter(
                entered,
                KeyboardStage::Insert,
            ),
            (KeyboardStage::Insert, KeyboardEvent::TextWritten { status }) => {
                match insertion_written(status) {
                    Err(error) => self.fail(error),
                    Ok(_) => {
                        self.stage = KeyboardStage::ReadBack;
                    },
                }
            },
            (KeyboardStage::ReadBack, KeyboardEvent::ReadBack { value, selection }) => {
                return self.read_back(value, selection);
            },
            _ => {},
        }
        None
    }
}

} // verus!
