use wlan_profiles::error::WlanError;
use wlan_profiles::safe_windows::{InterfaceInfo, ProfileInfo, INVALID_HANDLE, WLAN_MAX_NAME_LENGTH};
use wlan_profiles::wlan::{Authentication, Wlan};
use wlan_profiles::xml::{Element, Xml};

const NOT_READY: u32 = 21;
const NOT_READY_HRESULT: i32 = 0x8007_0015u32 as i32;

fn session() -> Wlan {
    Wlan::new(0, 0x5a5a).expect("a session")
}

fn wide(text: &str) -> Vec<u16> {
    text.encode_utf16().collect()
}

fn buffer(text: &str) -> [u16; WLAN_MAX_NAME_LENGTH] {
    let mut units = [0xffffu16; WLAN_MAX_NAME_LENGTH];
    let text = wide(text);
    units[..text.len()].copy_from_slice(&text);
    if text.len() < WLAN_MAX_NAME_LENGTH {
        units[text.len()] = 0;
    }
    units
}

fn interface(id: u128, description: &str) -> InterfaceInfo {
    InterfaceInfo {
        guid: windows::core::GUID::from_u128(id),
        description: buffer(description),
    }
}

fn named(name: &str) -> ProfileInfo {
    ProfileInfo {
        name: buffer(name),
        flags: 0,
    }
}

fn unterminated() -> ProfileInfo {
    ProfileInfo {
        name: [0x41u16; WLAN_MAX_NAME_LENGTH],
        flags: 0,
    }
}

fn leaf(name: &str, text: &str) -> Element {
    Element {
        name: Some(name.to_string()),
        text: Some(text.to_string()),
        children: Some(Vec::new()),
    }
}

fn parent(name: &str, children: Vec<Element>) -> Element {
    Element {
        name: Some(name.to_string()),
        text: Some(String::new()),
        children: Some(children),
    }
}

#[test]
fn session_keeps_the_handle_of_the_reply() {
    let wlan = Wlan::new(0, 0x1234).expect("a session");
    assert_eq!(wlan.handle(), 0x1234);
}

#[test]
fn no_session_after_a_failed_request() {
    let failure = Wlan::new(NOT_READY, 0x1234).expect_err("no session");
    assert_eq!(failure, WlanError::Service(NOT_READY_HRESULT));
}

#[test]
fn no_session_without_a_handle() {
    let failure = Wlan::new(0, INVALID_HANDLE).expect_err("no session");
    assert_eq!(failure, WlanError::NullResult);
}

#[test]
fn interfaces_come_in_the_order_of_the_list() {
    let list = vec![
        interface(0x3, "third"),
        interface(0x1, "first"),
        interface(0xffff_0000_1111_2222_3333_4444_5555_6666, "big"),
        interface(0x1, "first again"),
    ];
    assert_eq!(
        session().get_interfaces(0, Some(list)),
        Ok(vec![
            windows::core::GUID::from_u128(0x3),
            windows::core::GUID::from_u128(0x1),
            windows::core::GUID::from_u128(0xffff_0000_1111_2222_3333_4444_5555_6666),
            windows::core::GUID::from_u128(0x1),
        ])
    );
}

#[test]
fn no_adapter_is_not_a_failure() {
    assert_eq!(session().get_interfaces(0, Some(Vec::new())), Ok(Vec::new()));
}

#[test]
fn interfaces_of_a_failed_request() {
    assert_eq!(
        session().get_interfaces(NOT_READY, Some(vec![interface(1, "one")])),
        Err(WlanError::Service(NOT_READY_HRESULT))
    );
    assert_eq!(
        session().get_interfaces(0, None),
        Err(WlanError::NullResult)
    );
}

#[test]
fn profiles_come_in_the_order_of_the_list() {
    let list = vec![named("zebra"), named("alpha"), named("Caf\u{e9} \u{1f4f6}")];
    assert_eq!(
        session().get_profiles(0, Some(list)),
        Ok(vec![wide("zebra"), wide("alpha"), wide("Caf\u{e9} \u{1f4f6}")])
    );
}

#[test]
fn profile_without_terminator_is_left_out() {
    let list = vec![
        named("first"),
        unterminated(),
        named("second"),
        unterminated(),
    ];
    assert_eq!(
        session().get_profiles(0, Some(list)),
        Ok(vec![wide("first"), wide("second")])
    );
}

#[test]
fn list_of_unterminated_profiles_is_an_empty_success() {
    assert_eq!(
        session().get_profiles(0, Some(vec![unterminated(), unterminated()])),
        Ok(Vec::new())
    );
}

#[test]
fn profile_with_empty_name_is_kept() {
    assert_eq!(
        session().get_profiles(0, Some(vec![named(""), named("x")])),
        Ok(vec![Vec::new(), wide("x")])
    );
}

#[test]
fn profile_name_of_full_capacity() {
    let longest = "n".repeat(WLAN_MAX_NAME_LENGTH - 1);
    let too_long = "n".repeat(WLAN_MAX_NAME_LENGTH);
    assert_eq!(
        session().get_profiles(0, Some(vec![named(&longest), named(&too_long)])),
        Ok(vec![wide(&longest)])
    );
}

#[test]
fn no_profile_is_not_a_failure() {
    assert_eq!(session().get_profiles(0, Some(Vec::new())), Ok(Vec::new()));
}

#[test]
fn profiles_of_a_failed_request() {
    assert_eq!(
        session().get_profiles(NOT_READY, Some(vec![named("x")])),
        Err(WlanError::Service(NOT_READY_HRESULT))
    );
    assert_eq!(session().get_profiles(0, None), Err(WlanError::NullResult));
}

#[test]
fn profiles_of_any_listed_interface_fail_only_as_the_service_fails() {
    let wlan = session();
    let ids = wlan
        .get_interfaces(0, Some(vec![interface(7, "seven"), interface(9, "nine")]))
        .expect("interfaces");
    for _id in ids {
        for status in [1u32, 2, 5, 87, 1168, 0x8000_0001] {
            match wlan.get_profiles(status, None) {
                Err(WlanError::Service(code)) => assert!(code < 0),
                other => panic!("unexpected {:?}", other),
            }
        }
    }
}

#[test]
fn authentication_of_a_session_is_the_classification() {
    let xml = Xml::new(Some(parent(
        "WLANProfile",
        vec![parent(
            "MSM",
            vec![parent(
                "security",
                vec![
                    parent("authEncryption", vec![leaf("authentication", "WPA2")]),
                    parent("sharedKey", vec![leaf("keyMaterial", "radius")]),
                ],
            )],
        )],
    )));
    assert_eq!(
        session().get_authentication(&xml),
        Ok(Authentication::WPA2(Ok("radius".to_string())))
    );
    assert_eq!(
        session().get_authentication(&Xml::default()),
        Err(WlanError::MissingAuthentication)
    );
}

#[test]
fn closing_reports_the_reply() {
    assert_eq!(session().close(0), Ok(()));
    assert_eq!(
        session().close(6),
        Err(WlanError::Service(0x8007_0006u32 as i32))
    );
}
