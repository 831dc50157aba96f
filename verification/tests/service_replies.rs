use wlan_profiles::error::WlanError;
use wlan_profiles::safe_windows::{
    check_status, close_wlan_handle, enum_interface_profiles, enum_wlan_interfaces,
    get_profile_xml, open_wlan_handle, InterfaceInfo, ProfileInfo, INVALID_HANDLE,
    PLAINTEXT_KEY_FLAGS, WLAN_CLIENT_VERSION, WLAN_MAX_NAME_LENGTH,
};

const ACCESS_DENIED: u32 = 5;
const ACCESS_DENIED_HRESULT: i32 = -2147024891;

fn interface(id: u128) -> InterfaceInfo {
    InterfaceInfo {
        guid: windows::core::GUID::from_u128(id),
        description: [0; WLAN_MAX_NAME_LENGTH],
    }
}

fn profile(first: u16) -> ProfileInfo {
    let mut name = [0u16; WLAN_MAX_NAME_LENGTH];
    name[0] = first;
    ProfileInfo { name, flags: 0 }
}

#[test]
fn constants_of_the_service() {
    assert_eq!(WLAN_CLIENT_VERSION, 2);
    assert_eq!(PLAINTEXT_KEY_FLAGS, 4);
    assert_eq!(INVALID_HANDLE, -1);
    assert_eq!(WLAN_MAX_NAME_LENGTH, 256);
}

#[test]
fn status_zero_is_success() {
    assert_eq!(check_status(0), Ok(()));
}

#[test]
fn status_becomes_hresult_of_the_win32_facility() {
    assert_eq!(
        check_status(ACCESS_DENIED),
        Err(WlanError::Service(ACCESS_DENIED_HRESULT))
    );
    assert_eq!(ACCESS_DENIED_HRESULT as u32, 0x8007_0005);
}

#[test]
fn status_is_not_handed_on_unchanged() {
    assert_ne!(check_status(ACCESS_DENIED), Err(WlanError::Service(5)));
}

#[test]
fn only_the_low_sixteen_bits_of_a_status_are_kept() {
    assert_eq!(
        check_status(0x0001_0005),
        Err(WlanError::Service(ACCESS_DENIED_HRESULT))
    );
    assert_eq!(
        check_status(0x7fff_ffff),
        Err(WlanError::Service(0x8007_ffffu32 as i32))
    );
}

#[test]
fn status_with_the_top_bit_set_is_kept() {
    assert_eq!(
        check_status(0x8000_4005),
        Err(WlanError::Service(0x8000_4005u32 as i32))
    );
    assert_eq!(check_status(0x8000_0000), Err(WlanError::Service(i32::MIN)));
    assert_eq!(check_status(u32::MAX), Err(WlanError::Service(-1)));
}

#[test]
fn smallest_failure_status() {
    assert_eq!(
        check_status(1),
        Err(WlanError::Service(0x8007_0001u32 as i32))
    );
}

#[test]
fn open_reply_with_handle_is_a_session() {
    assert_eq!(open_wlan_handle(0, 0x1234), Ok(0x1234));
    assert_eq!(open_wlan_handle(0, 0), Ok(0));
    assert_eq!(open_wlan_handle(0, -2), Ok(-2));
}

#[test]
fn open_reply_with_failure_status() {
    assert_eq!(
        open_wlan_handle(ACCESS_DENIED, 0x1234),
        Err(WlanError::Service(ACCESS_DENIED_HRESULT))
    );
    assert_eq!(
        open_wlan_handle(ACCESS_DENIED, INVALID_HANDLE),
        Err(WlanError::Service(ACCESS_DENIED_HRESULT))
    );
}

#[test]
fn open_reply_without_handle_is_a_null_result() {
    assert_eq!(
        open_wlan_handle(0, INVALID_HANDLE),
        Err(WlanError::NullResult)
    );
}

#[test]
fn close_reply() {
    assert_eq!(close_wlan_handle(0), Ok(()));
    assert_eq!(
        close_wlan_handle(6),
        Err(WlanError::Service(0x8007_0006u32 as i32))
    );
}

#[test]
fn interface_list_is_handed_on() {
    let list = vec![interface(1), interface(2)];
    assert_eq!(enum_wlan_interfaces(0, Some(list.clone())), Ok(list));
}

#[test]
fn empty_interface_list_is_a_success() {
    assert_eq!(enum_wlan_interfaces(0, Some(Vec::new())), Ok(Vec::new()));
}

#[test]
fn missing_interface_list_is_a_null_result() {
    assert_eq!(enum_wlan_interfaces(0, None), Err(WlanError::NullResult));
}

#[test]
fn failed_interface_request() {
    assert_eq!(
        enum_wlan_interfaces(ACCESS_DENIED, Some(vec![interface(1)])),
        Err(WlanError::Service(ACCESS_DENIED_HRESULT))
    );
    assert_eq!(
        enum_wlan_interfaces(ACCESS_DENIED, None),
        Err(WlanError::Service(ACCESS_DENIED_HRESULT))
    );
}

#[test]
fn profile_list_is_handed_on() {
    let list = vec![profile(65), profile(66)];
    assert_eq!(enum_interface_profiles(0, Some(list.clone())), Ok(list));
}

#[test]
fn empty_profile_list_is_a_success() {
    assert_eq!(enum_interface_profiles(0, Some(Vec::new())), Ok(Vec::new()));
}

#[test]
fn missing_profile_list_is_a_null_result() {
    assert_eq!(enum_interface_profiles(0, None), Err(WlanError::NullResult));
}

#[test]
fn failed_profile_request_is_a_service_failure() {
    // 1168 is the status that the service gives for an element that it does not find.
    assert_eq!(
        enum_interface_profiles(1168, None),
        Err(WlanError::Service(0x8007_0490u32 as i32))
    );
}

#[test]
fn fetched_document_is_handed_on() {
    let text: Vec<u16> = "<WLANProfile/>".encode_utf16().collect();
    assert_eq!(get_profile_xml(0, Some(text.clone())), Ok(text));
}

#[test]
fn empty_document_text_is_a_success() {
    assert_eq!(get_profile_xml(0, Some(Vec::new())), Ok(Vec::new()));
}

#[test]
fn unreadable_document_is_a_decode_failure() {
    assert_eq!(get_profile_xml(0, None), Err(WlanError::Decode));
}

#[test]
fn failed_fetch() {
    assert_eq!(
        get_profile_xml(ACCESS_DENIED, Some(vec![60, 62])),
        Err(WlanError::Service(ACCESS_DENIED_HRESULT))
    );
    assert_eq!(
        get_profile_xml(ACCESS_DENIED, None),
        Err(WlanError::Service(ACCESS_DENIED_HRESULT))
    );
}
