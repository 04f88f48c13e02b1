//! What is read off accessibility, and how it is switched on.
use vstd::prelude::*;

use crate::ax::bindings;
use crate::ax::bindings::{AxCfRange, AxRead, ChromiumEnablement};
use crate::ax::enablement;
use crate::ax::enablement::{AxEnablementLease, EnablementAttribute, EnablementStep};
use crate::errors::{ErrorPhase, NativeError};

verus! {

/// An attribute that is missing reads as none, one that was read as what it holds,
/// and any failure as its own status; a value of another type is a failure.
pub proof fn a_missing_attribute_is_no_failure(
    status: i32,
    read: AxRead<bool>,
    outcome: Result<Option<bool>, i32>,
)
    requires
        call_ensures(bindings::exact_attribute::<bool>, (status, read), outcome),
    ensures
        status == -25212 || status == -25205 ==> outcome == Ok::<Option<bool>, i32>(None),
        status != 0 && status != -25212 && status != -25205 ==> outcome == Err::<
            Option<bool>,
            i32,
        >(status),
        status == 0 ==> match read {
            AxRead::Value(value) => outcome == Ok::<Option<bool>, i32>(Some(value)),
            AxRead::Null => outcome == Ok::<Option<bool>, i32>(None),
            AxRead::WrongType => outcome is Err && outcome->Err_0 == -25200,
        },
{
}

/// A lenient reading holds only what was read.
pub proof fn a_lenient_reading_holds_what_was_read(
    status: i32,
    read: AxRead<bool>,
    value: Option<bool>,
)
    requires
        call_ensures(bindings::lenient_attribute::<bool>, (status, read), value),
    ensures
        value is Some <==> status == 0 && read is Value,
        value is Some ==> value->0 == read->Value_0,
{
}

/// A process is known by a positive number.
pub proof fn a_process_has_a_positive_number(status: i32, pid: i32, owner: Result<i32, i32>)
    requires
        call_ensures(bindings::element_pid, (status, pid), owner),
    ensures
        owner is Ok <==> status == 0 && pid > 0,
        owner is Ok ==> owner->Ok_0 == pid,
        status != 0 ==> owner->Err_0 == status,
{
}

/// The names of actions are read whole or not at all.
pub proof fn actions_are_read_whole(
    status: i32,
    names: Option<Vec<String>>,
    outcome: Result<Vec<String>, i32>,
)
    requires
        call_ensures(bindings::copy_action_names_exact, (status, names), outcome),
    ensures
        outcome is Ok <==> status == 0 && names is Some,
        outcome is Ok ==> outcome->Ok_0 == names->0,
        status != 0 ==> outcome->Err_0 == status,
{
}

/// An attribute can be set where that is what was read.
pub proof fn an_attribute_is_settable_as_read(
    status: i32,
    settable: u8,
    outcome: Result<bool, i32>,
)
    requires
        call_ensures(bindings::is_attribute_settable, (status, settable), outcome),
    ensures
        outcome is Ok <==> status == 0,
        outcome is Ok ==> (outcome->Ok_0 <==> settable > 0),
        outcome is Err ==> outcome->Err_0 == status,
{
}

/// A window number is never zero.
pub proof fn a_window_has_a_number(status: i32, window: u32, found: Option<u32>)
    requires
        call_ensures(bindings::ax_get_window_id, (status, window), found),
    ensures
        found is Some <==> status == 0 && window > 0,
        found is Some ==> found->0 == window,
{
}

/// The legacy attribute is tried only where the application has no other.
pub proof fn the_legacy_attribute_comes_second(
    manual: i32,
    legacy: i32,
    next: ChromiumEnablement,
    enabled: bool,
)
    requires
        call_ensures(bindings::chromium_after_manual, (manual,), next),
        call_ensures(bindings::enable_chromium_accessibility, (manual, legacy), enabled),
    ensures
        next is Enabled <==> manual == 0,
        next is TryLegacy <==> manual == -25205,
        manual == 0 ==> enabled,
        manual == -25205 ==> (enabled <==> legacy == 0),
        manual != 0 && manual != -25205 ==> !enabled,
{
}

/// A range is representable where both its numbers are.
pub proof fn a_range_holds_both_numbers(location: usize, length: usize, range: Option<AxCfRange>)
    requires
        call_ensures(AxCfRange::from_utf16, (location, length), range),
    ensures
        range is Some <==> location <= isize::MAX && length <= isize::MAX,
        range is Some ==> range->0.location == location && range->0.length == length,
{
}

/// Accessibility is switched on by the manual attribute, and by the enhanced one
/// only where the application lacks the first. What is on already is left alone.
pub proof fn accessibility_is_switched_on_where_it_is_off(
    pid: i32,
    attribute: EnablementAttribute,
    read: Result<Option<bool>, NativeError>,
    first: EnablementStep,
    step: EnablementStep,
)
    requires
        call_ensures(AxEnablementLease::begin, (), first),
        call_ensures(AxEnablementLease::after_read, (pid, attribute, read), step),
    ensures
        first == EnablementStep::Read(EnablementAttribute::ManualAccessibility),
        step is Enable <==> read == Ok::<_, NativeError>(Some(false)),
        step is Acquired <==> read == Ok::<_, NativeError>(Some(true)),
        step is Enable ==> step->Enable_0.wrote() && !step->Enable_0.was() && step->Enable_0.on()
            == attribute && step->Enable_0.owner() == pid,
        step is Acquired ==> !step->Acquired_0.wrote() && step->Acquired_0.was()
            && step->Acquired_0.on() == attribute && step->Acquired_0.owner() == pid,
        read is Ok && read->Ok_0 is None && attribute == EnablementAttribute::ManualAccessibility
            ==> step == EnablementStep::Read(EnablementAttribute::EnhancedUserInterface),
        read is Ok && read->Ok_0 is None && attribute
            == EnablementAttribute::EnhancedUserInterface ==> step is Failed,
        read is Err ==> step is Failed && step->Failed_0 == read->Err_0,
{
}

/// The attributes go by their own names.
pub proof fn enablement_attributes_have_their_names(
    attribute: EnablementAttribute,
    name: &'static str,
)
    requires
        call_ensures(EnablementAttribute::name, (attribute,), name),
    ensures
        attribute == EnablementAttribute::ManualAccessibility ==> name@ == "AXManualAccessibility"@,
        attribute == EnablementAttribute::EnhancedUserInterface ==> name@
            == "AXEnhancedUserInterface"@,
{
}

/// What was switched on is switched off again, once; what was on is left alone.
pub proof fn what_was_switched_on_is_switched_off(lease: &AxEnablementLease, value: Option<bool>)
    requires
        call_ensures(AxEnablementLease::restoration, (lease,), value),
        lease.wf(),
    ensures
        value is Some <==> !lease.was() && !lease.is_released(),
        value is Some ==> value->0 == false,
{
}

/// A lease is released once its value is restored, and stays held where that failed.
pub proof fn a_lease_is_released_once_restored(
    lease: &mut AxEnablementLease,
    written: Result<(), NativeError>,
    outcome: Result<(), NativeError>,
)
    requires
        call_ensures(AxEnablementLease::release, (lease, written), outcome),
    ensures
        old(lease).wrote() && !old(lease).is_released() ==> (outcome is Ok <==> written is Ok) && (
        final(lease).is_released() <==> written is Ok),
        !old(lease).wrote() || old(lease).is_released() ==> outcome is Ok
            && final(lease).is_released(),
        final(lease).was() == old(lease).was() && final(lease).on() == old(lease).on(),
{
}

/// An enablement is read exactly: a missing attribute as none, a boolean as itself,
/// and anything else as an error.
pub proof fn an_enablement_is_read_exactly(
    pid: i32,
    attribute: EnablementAttribute,
    native: Option<(i32, AxRead<bool>)>,
    outcome: Result<Option<bool>, NativeError>,
)
    requires
        call_ensures(enablement::read_attribute, (pid, attribute, native), outcome),
    ensures
        native is None ==> outcome is Err,
        native matches Some((status, read)) ==> {
            &&& status == -25212 || status == -25205 ==> outcome == Ok::<_, NativeError>(
                None::<bool>,
            )
            &&& status == 0 && read is Value ==> outcome == Ok::<_, NativeError>(
                Some(read->Value_0),
            )
            &&& status == 0 && !(read is Value) ==> outcome is Err
            &&& status != 0 && status != -25212 && status != -25205 ==> outcome is Err
        },
{
}

/// An enablement is written where the write was taken.
pub proof fn an_enablement_is_written_where_it_was_taken(
    pid: i32,
    attribute: EnablementAttribute,
    phase: ErrorPhase,
    status: Option<i32>,
    outcome: Result<(), NativeError>,
)
    requires
        call_ensures(enablement::write_outcome, (pid, attribute, phase, status), outcome),
    ensures
        outcome is Ok <==> status == Some(0i32),
        outcome is Err ==> outcome->Err_0.phase == phase && outcome->Err_0.retryable,
{
}

} // verus!
