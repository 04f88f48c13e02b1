//! How raw accessibility (AX) status codes and values are read: a missing
//! attribute is a truthful absence, every other failure stays a failure.
use vstd::prelude::*;

verus! {

pub const AX_ERROR_SUCCESS: i32 = 0;

pub const AX_ERROR_FAILURE: i32 = -25200;

pub const AX_ERROR_INVALID_UI_ELEMENT: i32 = -25202;

pub const AX_ERROR_ATTRIBUTE_UNSUPPORTED: i32 = -25205;

pub const AX_ERROR_API_DISABLED: i32 = -25211;

pub const AX_ERROR_NO_VALUE: i32 = -25212;

/// What a successful attribute read handed back.
pub enum AxRead<T> {
    /// No object at all.
    Null,
    /// An object of another type than the attribute promises.
    WrongType,
    Value(T),
}

/// Whether a status says that the element truthfully has no such attribute.
pub open spec fn says_absent(status: i32) -> bool {
    status == AX_ERROR_NO_VALUE || status == AX_ERROR_ATTRIBUTE_UNSUPPORTED
}

/// Reads an optional attribute without collapsing query or type failures into
/// a truthful missing value.
pub fn exact_attribute<T>(status: i32, read: AxRead<T>) -> (outcome: Result<Option<T>, i32>)
    ensures
        outcome == if says_absent(status) {
            Ok::<Option<T>, i32>(None)
        } else if status != AX_ERROR_SUCCESS {
            Err(status)
        } else {
            match read {
                AxRead::Null => Ok(None),
                AxRead::WrongType => Err(AX_ERROR_FAILURE),
                AxRead::Value(value) => Ok(Some(value)),
            }
        },
{
    if status == AX_ERROR_NO_VALUE || status == AX_ERROR_ATTRIBUTE_UNSUPPORTED {
        return Ok(None);
    }
    if status != AX_ERROR_SUCCESS {
        return Err(status);
    }
    match read {
        AxRead::Null => Ok(None),
        AxRead::WrongType => Err(AX_ERROR_FAILURE),
        AxRead::Value(value) => Ok(Some(value)),
    }
}

/// Reads an optional attribute, with every failure read as absence.
pub fn lenient_attribute<T>(status: i32, read: AxRead<T>) -> (value: Option<T>)
    ensures
        value == match read {
            AxRead::Value(value) if status == AX_ERROR_SUCCESS => Some(value),
            _ => None,
        },
{
    match exact_attribute(status, read) {
        Ok(value) => value,
        Err(_) => None,
    }
}

/// The process that owns an element: a status other than success, or a process
/// id that no process can have, is a failure.
pub fn element_pid(status: i32, pid: i32) -> (owner: Result<i32, i32>)
    ensures
        owner == if status != AX_ERROR_SUCCESS {
            Err::<i32, i32>(status)
        } else if pid <= 0 {
            Err(AX_ERROR_FAILURE)
        } else {
            Ok(pid)
        },
{
    if status != AX_ERROR_SUCCESS {
        return Err(status);
    }
    if pid <= 0 {
        return Err(AX_ERROR_FAILURE);
    }
    Ok(pid)
}

/// The action names of an element, without collapsing a query failure into a
/// truthful empty list.
pub fn copy_action_names_exact(status: i32, names: Option<Vec<String>>) -> (outcome: Result<
    Vec<String>,
    i32,
>)
    ensures
        outcome == if status != AX_ERROR_SUCCESS {
            Err::<Vec<String>, i32>(status)
        } else {
            match names {
                Some(names) => Ok(names),
                None => Err(AX_ERROR_FAILURE),
            }
        },
{
    if status != AX_ERROR_SUCCESS {
        return Err(status);
    }
    match names {
        Some(names) => Ok(names),
        None => Err(AX_ERROR_FAILURE),
    }
}

/// Whether AX says an attribute is writable. Errors and indeterminate answers
/// are not promoted to `false`.
pub fn is_attribute_settable(status: i32, settable: u8) -> (outcome: Result<bool, i32>)
    ensures
        outcome == if status == AX_ERROR_SUCCESS {
            Ok::<bool, i32>(settable != 0)
        } else {
            Err(status)
        },
{
    if status == AX_ERROR_SUCCESS {
        Ok(settable != 0)
    } else {
        Err(status)
    }
}

/// The WindowServer id of an element; zero names no composited window.
pub fn ax_get_window_id(status: i32, window_id: u32) -> (found: Option<u32>)
    ensures
        found == if status == AX_ERROR_SUCCESS && window_id != 0 {
            Some(window_id)
        } else {
            None
        },
{
    if status == AX_ERROR_SUCCESS && window_id != 0 {
        Some(window_id)
    } else {
        None
    }
}

/// What to do after the write of `AXManualAccessibility`.
#[derive(Clone, Copy, Debug, PartialEq, Eq, Structural)]
pub enum ChromiumEnablement {
    Enabled,
    /// A transient error: neither try the legacy attribute nor claim success.
    NotEnabled,
    /// The application has no such attribute: try `AXEnhancedUserInterface`.
    TryLegacy,
}

/// Reads the status of the modern opt-in write.
pub fn chromium_after_manual(status: i32) -> (next: ChromiumEnablement)
    ensures
        next is Enabled <==> status == AX_ERROR_SUCCESS,
        next is TryLegacy <==> status == AX_ERROR_ATTRIBUTE_UNSUPPORTED,
{
    if status == AX_ERROR_SUCCESS {
        ChromiumEnablement::Enabled
    } else if status != AX_ERROR_ATTRIBUTE_UNSUPPORTED {
        ChromiumEnablement::NotEnabled
    } else {
        ChromiumEnablement::TryLegacy
    }
}

/// Whether an application accepted accessibility enablement, from the status of
/// the modern write and, where that attribute is unsupported, of the legacy one.
pub fn enable_chromium_accessibility(manual: i32, legacy: i32) -> (enabled: bool)
    ensures
        enabled == (manual == AX_ERROR_SUCCESS || (manual == AX_ERROR_ATTRIBUTE_UNSUPPORTED
            && legacy == AX_ERROR_SUCCESS)),
{
    match chromium_after_manual(manual) {
        ChromiumEnablement::Enabled => true,
        ChromiumEnablement::NotEnabled => false,
        ChromiumEnablement::TryLegacy => legacy == AX_ERROR_SUCCESS,
    }
}

/// Core Foundation's `CFRange`, used by `AXSelectedTextRange`. Locations and
/// lengths are UTF-16 code-unit offsets for AX text elements.
#[derive(Debug, Clone, Copy, PartialEq, Eq, Structural)]
pub struct AxCfRange {
    pub location: isize,
    pub length: isize,
}

impl AxCfRange {
    pub fn from_utf16(location: usize, length: usize) -> (range: Option<AxCfRange>)
        ensures
            range is Some <==> location <= isize::MAX && length <= isize::MAX,
            range matches Some(range) ==> range.location == location && range.length == length,
    {
        if location <= isize::MAX as usize && length <= isize::MAX as usize {
            Some(AxCfRange { location: location as isize, length: length as isize })
        } else {
            None
        }
    }
}

} // verus!
