//! Prior-state-preserving scoped AX enablement for Chromium accessibility.
//!
//! The lease reads the first attribute that the application has, turns it on
//! only where it was off, and writes the prior value back only where it was
//! changed. Reads and writes are requested step by step and their results are
//! handed back.
use vstd::prelude::*;

use crate::ax::bindings;
use crate::ax::bindings::{
    AxRead, AX_ERROR_ATTRIBUTE_UNSUPPORTED, AX_ERROR_NO_VALUE, AX_ERROR_SUCCESS,
};
use crate::errors;
use crate::errors::{ErrorCode, ErrorPhase, NativeError};
use crate::evidence;
use crate::evidence::{Detail, Fields};

verus! {

/// The attributes that turn Chromium accessibility on, the preferred one first.
#[derive(Clone, Copy, Debug, PartialEq, Eq, Structural)]
pub enum EnablementAttribute {
    ManualAccessibility,
    EnhancedUserInterface,
}

impl EnablementAttribute {
    pub open spec fn text(self) -> Seq<char> {
        match self {
            EnablementAttribute::ManualAccessibility => "AXManualAccessibility"@,
            EnablementAttribute::EnhancedUserInterface => "AXEnhancedUserInterface"@,
        }
    }

    pub fn name(self) -> (name: &'static str)
        ensures
            name@ == self.text(),
    {
        match self {
            EnablementAttribute::ManualAccessibility => "AXManualAccessibility",
            EnablementAttribute::EnhancedUserInterface => "AXEnhancedUserInterface",
        }
    }
}

/// Ownership of one application's enablement attribute.
#[derive(Debug, PartialEq, Eq, Structural)]
pub struct AxEnablementLease {
    pid: i32,
    attribute: EnablementAttribute,
    prior: bool,
    changed: bool,
    released: bool,
}

/// What an acquisition asks for next.
#[derive(Debug)]
pub enum EnablementStep {
    Read(EnablementAttribute),
    /// Turn the attribute on; its value was off.
    Enable(AxEnablementLease),
    Acquired(AxEnablementLease),
    Failed(NativeError),
}

pub open spec fn ax_error_view(
    phase: ErrorPhase,
    retryable: bool,
    message: Seq<char>,
    pid: i32,
    attribute: EnablementAttribute,
    status: Option<i32>,
) -> errors::ErrorView {
    let error = errors::ErrorView::new(ErrorCode::Internal, phase, retryable, message).with(
        "pid"@,
        evidence::DetailView::Int(pid as int),
    ).with("attribute"@, evidence::DetailView::Text(attribute.text()));
    match status {
        Some(status) => error.with("ax_status"@, evidence::DetailView::Int(status as int)),
        None => error,
    }
}

fn ax_error(
    phase: ErrorPhase,
    retryable: bool,
    message: &str,
    pid: i32,
    attribute: EnablementAttribute,
    status: Option<i32>,
) -> (error: NativeError)
    ensures
        error@ == ax_error_view(phase, retryable, message@, pid, attribute, status),
{
    let error = NativeError::new(ErrorCode::Internal, phase, retryable, message).with_int(
        "pid",
        pid as i128,
    ).with_text("attribute", attribute.name());
    match status {
        Some(status) => error.with_int("ax_status", status as i128),
        None => error,
    }
}

/// Reads one enablement attribute. `native` is `None` where the application
/// element itself is unavailable.
pub fn read_attribute(
    pid: i32,
    attribute: EnablementAttribute,
    native: Option<(i32, AxRead<bool>)>,
) -> (outcome: Result<Option<bool>, NativeError>)
    ensures
        match native {
            None => outcome matches Err(error) && error@ == ax_error_view(
                ErrorPhase::Preflight,
                true,
                "AX application element is unavailable during enablement preflight"@,
                pid,
                attribute,
                None,
            ),
            Some((status, read)) => if bindings::says_absent(status) {
                outcome == Ok::<Option<bool>, NativeError>(None)
            } else if status != AX_ERROR_SUCCESS || read is Null {
                outcome matches Err(error) && error@ == ax_error_view(
                    ErrorPhase::Preflight,
                    true,
                    "AX enablement state could not be read exactly"@,
                    pid,
                    attribute,
                    Some(status),
                )
            } else {
                match read {
                    AxRead::Value(value) => outcome == Ok::<Option<bool>, NativeError>(Some(value)),
                    _ => outcome matches Err(error) && error@ == ax_error_view(
                        ErrorPhase::Preflight,
                        false,
                        "AX enablement attribute was not a boolean"@,
                        pid,
                        attribute,
                        None,
                    ),
                }
            },
        },
{
    let (status, read) = match native {
        Some(native) => native,
        None => return Err(
            ax_error(
                ErrorPhase::Preflight,
                true,
                "AX application element is unavailable during enablement preflight",
                pid,
                attribute,
                None,
            ),
        ),
    };
    if status == AX_ERROR_ATTRIBUTE_UNSUPPORTED || status == AX_ERROR_NO_VALUE {
        return Ok(None);
    }
    let unreadable = match read {
        AxRead::Null => true,
        _ => status != AX_ERROR_SUCCESS,
    };
    if unreadable {
        return Err(
            ax_error(
                ErrorPhase::Preflight,
                true,
                "AX enablement state could not be read exactly",
                pid,
                attribute,
                Some(status),
            ),
        );
    }
    match read {
        AxRead::Value(value) => Ok(Some(value)),
        _ => Err(
            ax_error(
                ErrorPhase::Preflight,
                false,
                "AX enablement attribute was not a boolean",
                pid,
                attribute,
                None,
            ),
        ),
    }
}

/// Reads the status of one enablement write. `status` is `None` where the
/// application element itself is unavailable.
pub fn write_outcome(
    pid: i32,
    attribute: EnablementAttribute,
    phase: ErrorPhase,
    status: Option<i32>,
) -> (outcome: Result<(), NativeError>)
    ensures
        outcome is Ok <==> status == Some(AX_ERROR_SUCCESS),
        outcome matches Err(error) ==> error@ == match status {
            None => ax_error_view(
                phase,
                true,
                "AX application element is unavailable during enablement write"@,
                pid,
                attribute,
                None,
            ),
            Some(_) => ax_error_view(
                phase,
                true,
                "AX enablement state write failed"@,
                pid,
                attribute,
                status,
            ),
        },
{
    match status {
        None => Err(
            ax_error(
                phase,
                true,
                "AX application element is unavailable during enablement write",
                pid,
                attribute,
                None,
            ),
        ),
        Some(code) => if code == AX_ERROR_SUCCESS {
            Ok(())
        } else {
            Err(ax_error(phase, true, "AX enablement state write failed", pid, attribute, status))
        },
    }
}

impl AxEnablementLease {
    pub closed spec fn owner(&self) -> i32 {
        self.pid
    }

    pub closed spec fn on(&self) -> EnablementAttribute {
        self.attribute
    }

    /// The value that the attribute had before the lease.
    pub closed spec fn was(&self) -> bool {
        self.prior
    }

    pub closed spec fn wrote(&self) -> bool {
        self.changed
    }

    pub closed spec fn is_released(&self) -> bool {
        self.released
    }

    /// The lease wrote exactly where the attribute was off.
    pub open spec fn wf(&self) -> bool {
        self.wrote() == !self.was()
    }

    /// The first request of an acquisition.
    pub fn begin() -> (step: EnablementStep)
        ensures
            step == EnablementStep::Read(EnablementAttribute::ManualAccessibility),
    {
        EnablementStep::Read(EnablementAttribute::ManualAccessibility)
    }

    /// What follows a read: an absent attribute is passed over, and a present
    /// one is leased, with a write only where it was off.
    pub fn after_read(
        pid: i32,
        attribute: EnablementAttribute,
        read: Result<Option<bool>, NativeError>,
    ) -> (step: EnablementStep)
        ensures
            match read {
                Err(error) => step == EnablementStep::Failed(error),
                Ok(Some(prior)) => match step {
                    EnablementStep::Enable(lease) => !prior && lease.wf() && lease.owner() == pid
                        && lease.on() == attribute && lease.was() == prior && lease.wrote()
                        && !lease.is_released(),
                    EnablementStep::Acquired(lease) => prior && lease.wf() && lease.owner() == pid
                        && lease.on() == attribute && lease.was() == prior && !lease.wrote()
                        && !lease.is_released(),
                    _ => false,
                },
                Ok(None) => match attribute {
                    EnablementAttribute::ManualAccessibility => step == EnablementStep::Read(
                        EnablementAttribute::EnhancedUserInterface,
                    ),
                    EnablementAttribute::EnhancedUserInterface => step matches
                        EnablementStep::Failed(error) && error@
                        == errors::ErrorView::unsupported(
                        "accessibility_enablement_unavailable: neither reversible Chromium AX enablement attribute is readable"@,
                    ).with("pid"@, evidence::DetailView::Int(pid as int)),
                },
            },
    {
        match read {
            Err(error) => EnablementStep::Failed(error),
            Ok(Some(prior)) => {
                let changed: bool = !prior;
                let lease = AxEnablementLease { pid, attribute, prior, changed, released: false };
                if changed {
                    EnablementStep::Enable(lease)
                } else {
                    EnablementStep::Acquired(lease)
                }
            },
            Ok(None) => match attribute {
                EnablementAttribute::ManualAccessibility => EnablementStep::Read(
                    EnablementAttribute::EnhancedUserInterface,
                ),
                EnablementAttribute::EnhancedUserInterface => EnablementStep::Failed(
                    NativeError::unsupported(
                        "accessibility_enablement_unavailable: neither reversible Chromium AX enablement attribute is readable",
                    ).with_int("pid", pid as i128),
                ),
            },
        }
    }

    pub fn attribute(&self) -> (attribute: EnablementAttribute)
        ensures
            attribute == self.on(),
    {
        self.attribute
    }

    pub fn prior(&self) -> (prior: bool)
        ensures
            prior == self.was(),
    {
        self.prior
    }

    pub fn changed(&self) -> (changed: bool)
        ensures
            changed == self.wrote(),
    {
        self.changed
    }

    /// What a scope reports of the release of this lease.
    pub fn release_evidence(&self, succeeded: bool) -> (fields: Fields)
        ensures
            fields@ == Map::<Seq<char>, evidence::DetailView>::empty().insert(
                "ax_attribute"@,
                evidence::DetailView::Text(self.on().text()),
            ).insert("ax_prior_value"@, evidence::DetailView::Bool(self.was())).insert(
                "ax_state_changed"@,
                evidence::DetailView::Bool(self.wrote()),
            ).insert("ax_release_succeeded"@, evidence::DetailView::Bool(succeeded)),
    {
        let mut fields: Fields = Fields::new();
        fields.insert("ax_attribute", Detail::text(self.attribute.name()));
        fields.insert("ax_prior_value", Detail::Bool(self.prior));
        fields.insert("ax_state_changed", Detail::Bool(self.changed));
        fields.insert("ax_release_succeeded", Detail::Bool(succeeded));
        fields
    }

    /// The value that a release has to write back, or `None` where nothing is
    /// owed: the lease changed nothing, or is already released.
    pub fn restoration(&self) -> (value: Option<bool>)
        ensures
            value == if self.wrote() && !self.is_released() {
                Some(self.was())
            } else {
                None
            },
    {
        if self.released || !self.changed {
            None
        } else {
            Some(self.prior)
        }
    }

    /// Records the outcome of a restoration. A failed write leaves the lease
    /// unreleased, so that a later release tries again.
    pub fn release(&mut self, written: Result<(), NativeError>) -> (outcome: Result<(), NativeError>)
        ensures
            final(self).owner() == old(self).owner(),
            final(self).on() == old(self).on(),
            final(self).was() == old(self).was(),
            final(self).wrote() == old(self).wrote(),
            old(self).is_released() || !old(self).wrote() ==> outcome is Ok
                && final(self).is_released(),
            !old(self).is_released() && old(self).wrote() ==> {
                &&& outcome is Ok == written is Ok
                &&& outcome matches Err(error) ==> written == Err::<(), NativeError>(error)
                &&& final(self).is_released() == written is Ok
            },
    {
        if self.released {
            return Ok(());
        }
        if self.changed {
            match written {
                Ok(()) => {},
                Err(error) => return Err(error),
            }
        }
        self.released = true;
        Ok(())
    }
}

/// The attribute's value after a lease was acquired, from its value before.
pub open spec fn value_after_acquire(lease: AxEnablementLease) -> bool {
    if lease.wrote() {
        true
    } else {
        lease.was()
    }
}

/// The attribute's value after a successful release that wrote what
/// `restoration` asked for.
pub open spec fn value_after_release(lease: AxEnablementLease) -> bool {
    if lease.wrote() && !lease.is_released() {
        lease.was()
    } else {
        value_after_acquire(lease)
    }
}

/// While a lease is held the attribute is on; once it is released the
/// attribute has exactly its prior value again.
pub proof fn release_restores_the_prior_value(lease: AxEnablementLease)
    requires
        lease.wf(),
        !lease.is_released(),
    ensures
        value_after_acquire(lease),
        value_after_release(lease) == lease.was(),
{
}

} // verus!
