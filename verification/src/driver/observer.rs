//! The observer of one exact AX window: what it registers for, how its
//! registration can fail, and which elements it watches.
//!
//! The native calls are made by the observer's own thread; this module decides
//! on each of them.
use vstd::prelude::*;

use crate::ax::bindings::AX_ERROR_SUCCESS;
use crate::driver::settlement;
use crate::driver::settlement::{
    descendant_outcome, observer_error, registration_outcome, same_observed_elements,
    ObserverContext,
};
use crate::errors;
use crate::errors::NativeError;
use crate::text;
use crate::text::push_signed_decimal;

verus! {

/// How long the registration of an observer may take, in nanoseconds.
pub const AX_OBSERVER_HANDSHAKE_TIMEOUT_NS: u64 = 750_000_000;

/// How long a replacement of the watched elements may take, in nanoseconds.
pub const AX_OBSERVER_COMMAND_TIMEOUT_NS: u64 = 750_000_000;

/// The pause between two looks at what the owner asks for, in nanoseconds.
pub const AX_OBSERVER_POLL_INTERVAL_NS: u64 = 20_000_000;

pub open spec fn target_notification_names() -> Seq<Seq<char>> {
    seq!["AXUIElementDestroyed"@, "AXMoved"@, "AXResized"@]
}

pub open spec fn application_notification_names() -> Seq<Seq<char>> {
    seq!["AXFocusedUIElementChanged"@, "AXFocusedWindowChanged"@]
}

pub open spec fn descendant_notification_names() -> Seq<Seq<char>> {
    seq![
        "AXValueChanged"@,
        "AXSelectedTextChanged"@,
        "AXSelectedChildrenChanged"@,
        "AXMenuOpened"@,
        "AXMenuClosed"@,
        "AXMenuItemSelected"@,
        "AXSelectedRowsChanged"@,
        "AXSelectedColumnsChanged"@,
        "AXLayoutChanged"@,
        "AXTitleChanged"@,
    ]
}

pub open spec fn names_of(list: Seq<&'static str>) -> Seq<Seq<char>> {
    list.map_values(|name: &'static str| name@)
}

/// The notifications of the window itself.
pub fn target_notifications() -> (names: Vec<&'static str>)
    ensures
        names_of(names@) == target_notification_names(),
{
    let names: Vec<&'static str> = vec!["AXUIElementDestroyed", "AXMoved", "AXResized"];
    assert(names_of(names@) =~= target_notification_names());
    names
}

/// The notifications of the application that owns the window.
pub fn application_notifications() -> (names: Vec<&'static str>)
    ensures
        names_of(names@) == application_notification_names(),
{
    let names: Vec<&'static str> = vec!["AXFocusedUIElementChanged", "AXFocusedWindowChanged"];
    assert(names_of(names@) =~= application_notification_names());
    names
}

/// The notifications of each watched element.
pub fn descendant_notifications() -> (names: Vec<&'static str>)
    ensures
        names_of(names@) == descendant_notification_names(),
{
    let names: Vec<&'static str> = vec![
        "AXValueChanged",
        "AXSelectedTextChanged",
        "AXSelectedChildrenChanged",
        "AXMenuOpened",
        "AXMenuClosed",
        "AXMenuItemSelected",
        "AXSelectedRowsChanged",
        "AXSelectedColumnsChanged",
        "AXLayoutChanged",
        "AXTitleChanged",
    ];
    assert(names_of(names@) =~= descendant_notification_names());
    names
}

/// What an observer awaits.
#[derive(Debug, Clone, Copy, PartialEq, Eq, Structural)]
pub enum ObserverStage {
    /// The AX element of the application.
    Application,
    /// The windows of the application.
    Windows,
    /// The native observer.
    Create,
    /// The registrations for the window and for the application's focus.
    Register,
    /// The run-loop source of the native observer.
    Source,
    /// The owner hears that the registration is complete.
    Announce,
    /// The observer serves.
    Serving,
    /// The registrations for the elements that are now watched.
    Replacing,
    Done,
}

/// What the observer's thread reports.
#[derive(Debug)]
pub enum ObserverReport {
    Application { available: bool },
    /// The WindowServer id of each window, in order.
    Windows(Vec<Option<u32>>),
    /// `present` tells whether an observer was returned; the focused window is
    /// read before.
    Created { status: i32, present: bool, focused_window: Option<u32> },
    /// How many notifications took hold.
    Registered { target: usize, focus: usize },
    Source { present: bool },
    Announced { heard: bool },
    /// The elements to watch from now on.
    Replace { elements: Vec<u64> },
    /// How many notifications of the watched elements took hold.
    Replaced { registered: usize },
    Stop,
}

/// An observer of one exact window.
#[derive(Debug)]
pub struct AxObserverRun {
    pub target_window_id: u32,
    pub stage: ObserverStage,
    /// The position of the window among the application's windows.
    pub target: Option<usize>,
    /// Which notifications reach the target, once the observer exists.
    pub context: Option<ObserverContext>,
    /// The elements that are watched, in order.
    pub watched: Vec<u64>,
    pub failure: Option<NativeError>,
}

#[verifier::ext_equal]
pub ghost struct ObserverRunView {
    pub target_window_id: u32,
    pub stage: ObserverStage,
    pub target: Option<usize>,
    pub context: Option<ObserverContext>,
    pub watched: Seq<u64>,
    pub failure: Option<errors::ErrorView>,
}

impl View for AxObserverRun {
    type V = ObserverRunView;

    open spec fn view(&self) -> ObserverRunView {
        ObserverRunView {
            target_window_id: self.target_window_id,
            stage: self.stage,
            target: self.target,
            context: self.context,
            watched: self.watched@,
            failure: match self.failure {
                Some(error) => Some(error@),
                None => None,
            },
        }
    }
}

/// The first window of that id.
pub open spec fn first_window(windows: Seq<Option<u32>>, window_id: u32, at: int) -> bool {
    &&& 0 <= at < windows.len()
    &&& windows[at] == Some(window_id)
    &&& forall|earlier: int| 0 <= earlier < at ==> #[trigger] windows[earlier] != Some(window_id)
}

pub open spec fn lists_window(windows: Seq<Option<u32>>, window_id: u32) -> bool {
    exists|at: int| first_window(windows, window_id, at)
}

fn find_window(windows: &Vec<Option<u32>>, window_id: u32) -> (found: Option<usize>)
    ensures
        match found {
            Some(at) => first_window(windows@, window_id, at as int),
            None => !lists_window(windows@, window_id),
        },
{
    let mut index: usize = 0;
    while index < windows.len()
        invariant
            index <= windows.len(),
            forall|i: int| 0 <= i < index ==> #[trigger] windows@[i] != Some(window_id),
        decreases windows.len() - index,
    {
        if let Some(id) = windows[index] {
            if id == window_id {
                return Some(index);
            }
        }
        index = index + 1;
    }
    None
}

impl ObserverRunView {
    pub open spec fn starting(target_window_id: u32) -> ObserverRunView {
        ObserverRunView {
            target_window_id,
            stage: ObserverStage::Application,
            target: None,
            context: None,
            watched: Seq::empty(),
            failure: None,
        }
    }

    pub open spec fn at(self, stage: ObserverStage) -> ObserverRunView {
        ObserverRunView { stage, ..self }
    }

    pub open spec fn failed(self, message: Seq<char>) -> ObserverRunView {
        ObserverRunView {
            stage: ObserverStage::Done,
            failure: Some(settlement::observer_error_view(message)),
            ..self
        }
    }

    /// What a report leads to; a report that is not awaited changes nothing.
    pub open spec fn after(self, report: ObserverReport) -> ObserverRunView {
        match (self.stage, report) {
            (ObserverStage::Application, ObserverReport::Application { available }) => {
                if available {
                    self.at(ObserverStage::Windows)
                } else {
                    self.failed("AX application element is unavailable"@)
                }
            },
            (ObserverStage::Windows, ObserverReport::Windows(windows)) => {
                if lists_window(windows@, self.target_window_id) {
                    (ObserverRunView {
                        target: Some(
                            (choose|at: int|
                                first_window(windows@, self.target_window_id, at)) as usize,
                        ),
                        ..self
                    }).at(ObserverStage::Create)
                } else {
                    self.failed("exact target AX window is unavailable"@)
                }
            },
            (
                ObserverStage::Create,
                ObserverReport::Created { status, present, focused_window },
            ) => {
                if status != AX_ERROR_SUCCESS || !present {
                    self.failed(
                        "AXObserverCreate failed with "@ + text::signed_decimal(status as int),
                    )
                } else {
                    (ObserverRunView {
                        context: Some(
                            ObserverContext {
                                target_window_id: self.target_window_id,
                                focused_target: focused_window == Some(self.target_window_id),
                            },
                        ),
                        ..self
                    }).at(ObserverStage::Register)
                }
            },
            (ObserverStage::Register, ObserverReport::Registered { target, focus }) => {
                if target == 0 || focus == 0 {
                    self.failed(
                        "target AX window lacks required exact window or application-focus notifications"@,
                    )
                } else {
                    self.at(ObserverStage::Source)
                }
            },
            (ObserverStage::Source, ObserverReport::Source { present }) => {
                if present {
                    self.at(ObserverStage::Announce)
                } else {
                    self.failed("AX observer has no run-loop source"@)
                }
            },
            (ObserverStage::Announce, ObserverReport::Announced { heard }) => {
                if heard {
                    self.at(ObserverStage::Serving)
                } else {
                    self.failed("AX observer owner disappeared during registration"@)
                }
            },
            (ObserverStage::Serving, ObserverReport::Replace { elements }) => {
                if elements@ == self.watched {
                    self
                } else {
                    (ObserverRunView { watched: elements@, ..self }).at(ObserverStage::Replacing)
                }
            },
            (ObserverStage::Replacing, ObserverReport::Replaced { .. }) => self.at(
                ObserverStage::Serving,
            ),
            (ObserverStage::Serving, ObserverReport::Stop) => self.at(ObserverStage::Done),
            _ => self,
        }
    }

    /// What the owner who asked for other elements is told, once it is known.
    pub open spec fn reply(self, report: ObserverReport) -> Option<
        Result<(), errors::ErrorView>,
    > {
        match (self.stage, report) {
            (ObserverStage::Serving, ObserverReport::Replace { elements }) => if elements@
                == self.watched {
                Some(Ok(()))
            } else {
                None
            },
            (ObserverStage::Replacing, ObserverReport::Replaced { registered }) => Some(
                if self.watched.len() == 0 || registered > 0 {
                    Ok(())
                } else {
                    Err(
                        settlement::observer_error_view(
                            "target descendants support no AX mutation notifications"@,
                        ),
                    )
                },
            ),
            _ => None,
        }
    }

    /// An observer that serves has found its window and made its context; a
    /// failure ends it, and elements are watched only by one that served.
    pub open spec fn wf(self) -> bool {
        &&& self.failure is Some ==> self.stage is Done
        &&& self.context matches Some(context) ==> context.target_window_id
            == self.target_window_id
        &&& !(self.stage is Application || self.stage is Windows || self.stage is Done)
            ==> self.target is Some
        &&& self.stage is Register || self.stage is Source || self.stage is Announce
            || self.stage is Serving || self.stage is Replacing ==> self.context is Some
        &&& self.watched.len() > 0 ==> self.stage is Serving || self.stage is Replacing
            || self.stage is Done
    }
}

impl AxObserverRun {
    pub fn begin(target_window_id: u32) -> (run: AxObserverRun)
        ensures
            run@ == ObserverRunView::starting(target_window_id),
            run@.wf(),
    {
        AxObserverRun {
            target_window_id,
            stage: ObserverStage::Application,
            target: None,
            context: None,
            watched: Vec::new(),
            failure: None,
        }
    }

    fn fail(&mut self, message: &str)
        ensures
            final(self)@ == old(self)@.failed(message@),
    {
        self.stage = ObserverStage::Done;
        self.failure = Some(observer_error(message));
    }

    fn step(&mut self, done: bool, stage: ObserverStage, message: &str)
        ensures
            final(self)@ == if done {
                old(self)@.at(stage)
            } else {
                old(self)@.failed(message@)
            },
    {
        if done {
            self.stage = stage;
        } else {
            self.fail(message);
        }
    }

    fn found(&mut self, windows: &Vec<Option<u32>>)
        requires
            old(self).stage is Windows,
        ensures
            final(self)@ == old(self)@.after(ObserverReport::Windows(*windows)),
    {
        match find_window(windows, self.target_window_id) {
            Some(at) => {
                proof {
                    let wanted = self.target_window_id;
                    let chosen = choose|found: int| first_window(windows@, wanted, found);
                    assert(first_window(windows@, wanted, at as int));
                    assert(first_window(windows@, wanted, chosen));
                    assert(windows@[chosen] == Some(wanted) && windows@[at as int] == Some(wanted));
                    assert(chosen == at);
                }
                self.target = Some(at);
                self.stage = ObserverStage::Create;
            },
            None => self.fail("exact target AX window is unavailable"),
        }
    }

    fn created(&mut self, status: i32, present: bool, focused_window: Option<u32>)
        requires
            old(self).stage is Create,
        ensures
            final(self)@ == old(self)@.after(
                (ObserverReport::Created { status, present, focused_window }),
            ),
    {
        if status != AX_ERROR_SUCCESS || !present {
            let mut message: String = "AXObserverCreate failed with ".to_owned();
            push_signed_decimal(&mut message, status as i64);
            self.fail(message.as_str());
        } else {
            self.context = Some(
                ObserverContext {
                    target_window_id: self.target_window_id,
                    focused_target: focused_window == Some(self.target_window_id),
                },
            );
            self.stage = ObserverStage::Register;
        }
    }

    /// Takes a report and moves on; the answer goes to the owner who asked for
    /// other elements.
    pub fn advance(&mut self, report: ObserverReport) -> (answer: Option<Result<(), NativeError>>)
        ensures
            final(self)@ == old(self)@.after(report),
            match answer {
                None => old(self)@.reply(report) is None,
                Some(Ok(_)) => old(self)@.reply(report) matches Some(told) && told is Ok,
                Some(Err(error)) => old(self)@.reply(report) == Some(
                    Err::<(), errors::ErrorView>(error@),
                ),
            },
            old(self)@.wf() ==> final(self)@.wf(),
    {
        match (self.stage, report) {
            (ObserverStage::Application, ObserverReport::Application { available }) => {
                self.step(
                    available,
                    ObserverStage::Windows,
                    "AX application element is unavailable",
                );
                None
            },
            (ObserverStage::Windows, ObserverReport::Windows(windows)) => {
                self.found(&windows);
                None
            },
            (
                ObserverStage::Create,
                ObserverReport::Created { status, present, focused_window },
            ) => {
                self.created(status, present, focused_window);
                None
            },
            (ObserverStage::Register, ObserverReport::Registered { target, focus }) => {
                match registration_outcome(target, focus) {
                    Ok(_) => {
                        self.stage = ObserverStage::Source;
                    },
                    Err(error) => {
                        self.stage = ObserverStage::Done;
                        self.failure = Some(error);
                    },
                }
                None
            },
            (ObserverStage::Source, ObserverReport::Source { present }) => {
                self.step(present, ObserverStage::Announce, "AX observer has no run-loop source");
                None
            },
            (ObserverStage::Announce, ObserverReport::Announced { heard }) => {
                self.step(
                    heard,
                    ObserverStage::Serving,
                    "AX observer owner disappeared during registration",
                );
                None
            },
            (ObserverStage::Serving, ObserverReport::Replace { elements }) => {
                if same_observed_elements(&self.watched, &elements) {
                    Some(Ok(()))
                } else {
                    self.watched = elements;
                    self.stage = ObserverStage::Replacing;
                    None
                }
            },
            (ObserverStage::Replacing, ObserverReport::Replaced { registered }) => {
                self.stage = ObserverStage::Serving;
                Some(descendant_outcome(self.watched.len(), registered))
            },
            (ObserverStage::Serving, ObserverReport::Stop) => {
                self.stage = ObserverStage::Done;
                None
            },
            _ => None,
        }
    }
}

/// What the owner of an observer hears of its registration.
#[derive(Debug)]
pub enum Handshake {
    Registered,
    Failed(NativeError),
    /// The observer's thread ended without a word.
    Disconnected,
    TimedOut,
}

/// How the registration of an observer ended.
pub fn registration_handshake(heard: Handshake) -> (outcome: Result<(), NativeError>)
    ensures
        outcome is Ok <==> heard is Registered,
        outcome matches Err(error) ==> error@ == match heard {
            Handshake::Failed(failure) => failure@,
            Handshake::Disconnected => settlement::observer_error_view(
                "AX observer exited before registration"@,
            ),
            _ => settlement::observer_error_view(
                "AX observer registration exceeded its bounded deadline"@,
            ),
        },
{
    match heard {
        Handshake::Registered => Ok(()),
        Handshake::Failed(error) => Err(error),
        Handshake::Disconnected => Err(observer_error("AX observer exited before registration")),
        Handshake::TimedOut => Err(
            observer_error("AX observer registration exceeded its bounded deadline"),
        ),
    }
}

/// How a replacement of the watched elements ended: `sent` tells whether the
/// observer took the request, `answer` what it answered in time.
pub fn replacement_outcome(sent: bool, answer: Option<Result<(), NativeError>>) -> (outcome: Result<
    (),
    NativeError,
>)
    ensures
        outcome is Ok <==> sent && (answer matches Some(told) && told is Ok),
        outcome matches Err(error) ==> error@ == if !sent {
            settlement::observer_error_view(
                "AX observer stopped before descendant registration"@,
            )
        } else {
            match answer {
                Some(Err(failure)) => failure@,
                _ => settlement::observer_error_view(
                    "AX descendant registration exceeded its bounded deadline"@,
                ),
            }
        },
{
    if !sent {
        return Err(observer_error("AX observer stopped before descendant registration"));
    }
    match answer {
        Some(told) => told,
        None => Err(observer_error("AX descendant registration exceeded its bounded deadline")),
    }
}

/// Every notification that an observer registers for stands for an event.
pub proof fn every_registered_notification_is_an_event(at: int)
    ensures
        0 <= at < target_notification_names().len() ==> settlement::notification_event(
            target_notification_names()[at],
        ) is Some,
        0 <= at < application_notification_names().len()
            ==> settlement::is_focus_notification(application_notification_names()[at]),
        0 <= at < descendant_notification_names().len() ==> settlement::notification_event(
            descendant_notification_names()[at],
        ) is Some,
{
}

/// An observer serves only its exact window, and only after notifications of
/// that window and of the application's focus took hold.
pub proof fn a_serving_observer_was_registered(state: ObserverRunView, report: ObserverReport)
    requires
        state.wf(),
    ensures
        state.after(report).wf(),
        state.after(report).stage is Source && !(state.stage is Source) ==> {
            &&& state.stage is Register
            &&& report matches ObserverReport::Registered { target, focus }
            &&& target > 0 && focus > 0
        },
        state.after(report).stage is Serving && !(state.stage is Serving) ==> state.stage
            is Announce || state.stage is Replacing,
        state.after(report).stage is Serving ==> state.after(report).target is Some,
{
}

/// What is watched is exactly what was last asked for.
pub proof fn the_last_request_is_watched(state: ObserverRunView, report: ObserverReport)
    requires
        state.stage is Serving,
    ensures
        report matches ObserverReport::Replace { elements } ==> state.after(report).watched
            == elements@,
        !(report is Replace) ==> state.after(report).watched == state.watched,
{
}

} // verus!
