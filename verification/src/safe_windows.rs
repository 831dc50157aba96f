//! The replies of the wireless service, turned into results.
//!
//! Every call of the service answers with a status and, on success, with a
//! handle, a counted list or a text buffer. The functions here decide what such
//! a reply means; the caller makes the call and copies the reply out of the
//! service's memory.

use vstd::prelude::*;
use windows::Win32::Foundation::WIN32_ERROR;

use crate::error::{AnyResult, WlanError};

verus! {

/// The identifier of a wireless adapter: `windows::core::GUID`, a 128-bit value
/// that the crate carries and never looks into.
#[verifier::external_type_specification]
#[verifier::external_body]
pub struct ExGuid(windows::core::GUID);

/// The protocol version at which a session is requested.
pub const WLAN_CLIENT_VERSION: u32 = 2;

/// The handle value that stands for no session.
pub const INVALID_HANDLE: isize = -1;

/// The flags handed to the profile fetch, which ask the service for the key in
/// clear text.
pub const PLAINTEXT_KEY_FLAGS: u32 = 4;

/// The capacity, in units, of the name buffers in the service's lists.
pub const WLAN_MAX_NAME_LENGTH: usize = 256;

/// The `HRESULT` that stands for a Win32 status: zero and values with the top
/// bit set are kept as they are, any other gets the failure bit and the Win32
/// facility in front of its low sixteen bits.
pub open spec fn hresult_from_win32(status: u32) -> int {
    if status == 0 {
        0
    } else if status >= 0x8000_0000 {
        status - 0x1_0000_0000
    } else {
        status % 0x1_0000 - 0x7FF9_0000
    }
}

/// `WIN32_ERROR::to_hresult` of the `windows` crate, which maps a Win32 status
/// to an `HRESULT`. Taken on trust: that the code it returns is
/// `hresult_from_win32` of the status.
#[verifier::external_body]
fn to_hresult(status: u32) -> (code: i32)
    ensures
        code == hresult_from_win32(status),
{
    WIN32_ERROR(status).to_hresult().0
}

/// One record of the service's interface list.
#[derive(Debug, Clone, Copy, PartialEq, Eq)]
pub struct InterfaceInfo {
    /// The adapter's identifier.
    pub guid: windows::core::GUID,
    /// The adapter's description, in a buffer of fixed capacity.
    pub description: [u16; WLAN_MAX_NAME_LENGTH],
}

/// One record of the service's profile list.
#[derive(Debug, Clone, Copy, PartialEq, Eq)]
pub struct ProfileInfo {
    /// The profile's name, in a buffer of fixed capacity.
    pub name: [u16; WLAN_MAX_NAME_LENGTH],
    /// The profile's flags.
    pub flags: u32,
}

/// The failure that a status other than zero stands for: a service failure
/// that carries the status as an `HRESULT`.
pub open spec fn service_failure(status: u32) -> WlanError {
    WlanError::Service(hresult_from_win32(status) as i32)
}

/// The code of a service failure is a failure code: it is negative, so no
/// failure of the service can be taken for a success.
pub proof fn lemma_failure_code_is_negative(status: u32)
    requires
        status != 0,
    ensures
        i32::MIN <= hresult_from_win32(status) < 0,
{
}

/// Statuses that agree in their low sixteen bits, and have the top bit clear,
/// stand for the same failure.
pub proof fn lemma_failure_code_keeps_low_bits(status: u32, other: u32)
    requires
        0 < status < 0x8000_0000,
        0 < other < 0x8000_0000,
        status % 0x1_0000 == other % 0x1_0000,
    ensures
        service_failure(status) == service_failure(other),
{
}

/// Turns a status of the service into a result: success for zero, the service
/// failure for any other.
pub fn check_status(status: u32) -> (result: AnyResult<()>)
    ensures
        status == 0 ==> result == Ok::<(), WlanError>(()),
        status != 0 ==> result == Err::<(), WlanError>(service_failure(status)),
{
    if status == 0 {
        Ok(())
    } else {
        Err(WlanError::Service(to_hresult(status)))
    }
}

/// What the reply to a request for a session means. The session is open when
/// the service reported success and handed back a handle other than
/// `INVALID_HANDLE`; success without a handle counts as a null result.
pub fn open_wlan_handle(status: u32, handle: isize) -> (result: AnyResult<isize>)
    ensures
        status != 0 ==> result == Err::<isize, WlanError>(service_failure(status)),
        status == 0 && handle == INVALID_HANDLE ==> result == Err::<isize, WlanError>(
            WlanError::NullResult,
        ),
        status == 0 && handle != INVALID_HANDLE ==> result == Ok::<isize, WlanError>(handle),
{
    match check_status(status) {
        Err(failure) => Err(failure),
        Ok(()) => if handle == INVALID_HANDLE {
            Err(WlanError::NullResult)
        } else {
            Ok(handle)
        },
    }
}

/// What the reply to the release of a session means.
pub fn close_wlan_handle(status: u32) -> (result: AnyResult<()>)
    ensures
        status == 0 ==> result == Ok::<(), WlanError>(()),
        status != 0 ==> result == Err::<(), WlanError>(service_failure(status)),
{
    check_status(status)
}

/// What the reply to a request for the interface list means. `list` holds the
/// records copied out of the service's list, or `None` where the service
/// handed back no list. A list without records is a success.
pub fn enum_wlan_interfaces(status: u32, list: Option<Vec<InterfaceInfo>>) -> (result: AnyResult<
    Vec<InterfaceInfo>,
>)
    ensures
        status != 0 ==> result == Err::<Vec<InterfaceInfo>, WlanError>(service_failure(status)),
        status == 0 && list is None ==> result == Err::<Vec<InterfaceInfo>, WlanError>(
            WlanError::NullResult,
        ),
        status == 0 && list is Some ==> result == Ok::<Vec<InterfaceInfo>, WlanError>(list->0),
{
    match check_status(status) {
        Err(failure) => Err(failure),
        Ok(()) => match list {
            Some(records) => Ok(records),
            None => Err(WlanError::NullResult),
        },
    }
}

/// What the reply to a request for an interface's profile list means. `list`
/// holds the records copied out of the service's list, or `None` where the
/// service handed back no list. A list without records is a success. No
/// failure depends on which interface was asked for: a reply fails as a service
/// failure or as a null result, and in no other way.
pub fn enum_interface_profiles(status: u32, list: Option<Vec<ProfileInfo>>) -> (result: AnyResult<
    Vec<ProfileInfo>,
>)
    ensures
        status != 0 ==> result == Err::<Vec<ProfileInfo>, WlanError>(service_failure(status)),
        status == 0 && list is None ==> result == Err::<Vec<ProfileInfo>, WlanError>(
            WlanError::NullResult,
        ),
        status == 0 && list is Some ==> result == Ok::<Vec<ProfileInfo>, WlanError>(list->0),
        result matches Err(failure) ==> failure is Service || failure is NullResult,
{
    match check_status(status) {
        Err(failure) => Err(failure),
        Ok(()) => match list {
            Some(records) => Ok(records),
            None => Err(WlanError::NullResult),
        },
    }
}

/// What the reply to the fetch of a profile document means. `document` holds
/// the text copied out of the service's buffer, or `None` where the buffer
/// could not be read as text. A document without a key is a success.
pub fn get_profile_xml(status: u32, document: Option<Vec<u16>>) -> (result: AnyResult<Vec<u16>>)
    ensures
        status != 0 ==> result == Err::<Vec<u16>, WlanError>(service_failure(status)),
        status == 0 && document is None ==> result == Err::<Vec<u16>, WlanError>(
            WlanError::Decode,
        ),
        status == 0 && document is Some ==> result == Ok::<Vec<u16>, WlanError>(document->0),
{
    match check_status(status) {
        Err(failure) => Err(failure),
        Ok(()) => match document {
            Some(text) => Ok(text),
            None => Err(WlanError::Decode),
        },
    }
}

} // verus!
