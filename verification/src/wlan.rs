//! Sessions of the wireless service and the authentication of a stored profile.

use vstd::prelude::*;

use crate::error::{AnyResult, WlanError};
use crate::os_string_from_utf16_slice;
use crate::safe_windows::{
    close_wlan_handle, enum_interface_profiles, enum_wlan_interfaces, open_wlan_handle,
    service_failure, InterfaceInfo, ProfileInfo, INVALID_HANDLE,
};
use crate::terminated_text;
use crate::xml::{path_view, Xml};

verus! {

/// How a stored profile authenticates, with the key where the scheme has one.
#[derive(Debug, PartialEq, Eq)]
pub enum Authentication {
    /// No authentication, hence no key.
    Open,
    /// The enterprise scheme, with its key or the reason why none was found.
    WPA2(AnyResult<String>),
    /// The personal pre-shared-key scheme, with its key or the reason why none
    /// was found.
    WPA2PSK(AnyResult<String>),
    /// Any scheme that the crate does not know.
    Other,
}

/// The path of the field that names a profile's authentication scheme.
pub open spec fn authentication_path() -> Seq<Seq<char>> {
    seq!["MSM"@, "security"@, "authEncryption"@, "authentication"@]
}

/// The path of the field that holds a profile's key.
pub open spec fn key_material_path() -> Seq<Seq<char>> {
    seq!["MSM"@, "security"@, "sharedKey"@, "keyMaterial"@]
}

/// The scheme that a document names: the inner text of its scheme field.
pub open spec fn scheme_of(document: &Xml) -> Option<Seq<char>> {
    document.lookup(authentication_path())
}

/// The key of a document with a keyed scheme: the inner text of its key
/// field, or the failure `MissingPassword` where it has no such field.
pub open spec fn key_of(document: &Xml) -> Result<Seq<char>, WlanError> {
    match document.lookup(key_material_path()) {
        Some(key) => Ok(key),
        None => Err(WlanError::MissingPassword),
    }
}

/// View of a key, or of the reason why there is none.
pub open spec fn key_view(key: AnyResult<String>) -> Result<Seq<char>, WlanError> {
    match key {
        Ok(text) => Ok(text@),
        Err(failure) => Err(failure),
    }
}

/// Looks up the key of a document with a keyed scheme.
fn extract_key(document: &Xml) -> (key: AnyResult<String>)
    ensures
        key_view(key) == key_of(document),
{
    let path: [&str; 4] = ["MSM", "security", "sharedKey", "keyMaterial"];
    assert(path_view(path@) =~= key_material_path());
    match document.get(path.as_slice()) {
        Some(key) => Ok(key),
        None => Err(WlanError::MissingPassword),
    }
}

/// Tells how a profile authenticates, from its parsed document.
///
/// A document without the scheme field is a failure. The scheme `open` gives
/// `Open`, whatever else the document holds. The schemes `WPA2` and `WPA2PSK`
/// give their variant with the inner text of the key field, or with the failure
/// `MissingPassword` where the document has no key field; that failure is part of
/// the result and not a failure of the classification. Any other scheme gives
/// `Other`, and no key.
pub fn classify(document: &Xml) -> (result: AnyResult<Authentication>)
    ensures
        scheme_of(document) is None ==> result == Err::<Authentication, WlanError>(
            WlanError::MissingAuthentication,
        ),
        scheme_of(document) is Some ==> result is Ok,
        scheme_of(document) == Some("open"@) ==> result matches Ok(Authentication::Open),
        scheme_of(document) == Some("WPA2"@) ==> (result matches Ok(Authentication::WPA2(key))
            && key_view(key) == key_of(document)),
        scheme_of(document) == Some("WPA2PSK"@) ==> (result matches Ok(
            Authentication::WPA2PSK(key),
        ) && key_view(key) == key_of(document)),
        scheme_of(document) matches Some(scheme) && scheme != "open"@ && scheme != "WPA2"@
            && scheme != "WPA2PSK"@ ==> result matches Ok(Authentication::Other),
{
    let path: [&str; 4] = ["MSM", "security", "authEncryption", "authentication"];
    assert(path_view(path@) =~= authentication_path());
    let scheme = match document.get(path.as_slice()) {
        Some(scheme) => scheme,
        None => {
            return Err(WlanError::MissingAuthentication);
        },
    };
    proof {
        reveal_strlit("open");
        reveal_strlit("WPA2");
        reveal_strlit("WPA2PSK");
        assert("open"@[0] != "WPA2"@[0]);
        assert("WPA2PSK"@.len() != "open"@.len() && "WPA2PSK"@.len() != "WPA2"@.len());
    }
    if scheme == "open".to_owned() {
        Ok(Authentication::Open)
    } else if scheme == "WPA2".to_owned() {
        Ok(Authentication::WPA2(extract_key(document)))
    } else if scheme == "WPA2PSK".to_owned() {
        Ok(Authentication::WPA2PSK(extract_key(document)))
    } else {
        Ok(Authentication::Other)
    }
}

/// The identifiers that an interface list holds, in the list's order.
pub open spec fn interface_ids(records: Seq<InterfaceInfo>) -> Seq<windows::core::GUID> {
    Seq::new(records.len(), |i: int| records[i].guid)
}

/// The names that a profile list holds, in the list's order: of each record
/// the text of its name buffer, and nothing for a record whose buffer holds no
/// terminator.
pub open spec fn profile_names(records: Seq<ProfileInfo>) -> Seq<Seq<u16>>
    decreases records.len(),
{
    if records.len() == 0 {
        Seq::empty()
    } else {
        let front = profile_names(records.drop_last());
        match terminated_text(records.last().name@) {
            Some(name) => front.push(name),
            None => front,
        }
    }
}

/// View of a list of wide strings: the units of each.
pub open spec fn wide_views(texts: Seq<Vec<u16>>) -> Seq<Seq<u16>> {
    Seq::new(texts.len(), |i: int| texts[i]@)
}

/// The names of two lists, one after the other, are the names of the first
/// followed by the names of the second: every record is read by itself, and the
/// order of the list is kept.
pub proof fn lemma_profile_names_of_lists(front: Seq<ProfileInfo>, back: Seq<ProfileInfo>)
    ensures
        profile_names(front + back) == profile_names(front) + profile_names(back),
    decreases back.len(),
{
    if back.len() == 0 {
        assert(front + back =~= front);
        assert(profile_names(front) + profile_names(back) =~= profile_names(front));
    } else {
        let earlier = back.drop_last();
        assert((front + back).drop_last() =~= front + earlier);
        assert((front + back).last() == back.last());
        lemma_profile_names_of_lists(front, earlier);
        match terminated_text(back.last().name@) {
            Some(name) => {
                assert((profile_names(front) + profile_names(earlier)).push(name)
                    =~= profile_names(front) + profile_names(earlier).push(name));
            },
            None => {},
        }
    }
}

/// A record whose name buffer holds no terminator adds nothing to the names of
/// its list, wherever it stands, and takes nothing away.
pub proof fn lemma_unterminated_record_is_left_out(
    front: Seq<ProfileInfo>,
    record: ProfileInfo,
    back: Seq<ProfileInfo>,
)
    requires
        terminated_text(record.name@) is None,
    ensures
        profile_names(front.push(record) + back) == profile_names(front + back),
{
    lemma_profile_names_of_lists(front.push(record), back);
    lemma_profile_names_of_lists(front, back);
    assert(front.push(record).drop_last() =~= front);
}

/// Where every name buffer of a list holds a terminator, the list has one name
/// for each record: the text of that record's buffer.
pub proof fn lemma_names_of_terminated_records(records: Seq<ProfileInfo>)
    requires
        forall|i: int|
            0 <= i < records.len() ==> terminated_text(#[trigger] records[i].name@) is Some,
    ensures
        profile_names(records).len() == records.len(),
        forall|i: int|
            0 <= i < records.len() ==> Some(#[trigger] profile_names(records)[i])
                == terminated_text(records[i].name@),
    decreases records.len(),
{
    if records.len() > 0 {
        let front = records.drop_last();
        assert forall|i: int| 0 <= i < front.len() implies terminated_text(
            #[trigger] front[i].name@,
        ) is Some by {
            assert(front[i] == records[i]);
        }
        lemma_names_of_terminated_records(front);
        assert forall|i: int| 0 <= i < records.len() implies Some(
            #[trigger] profile_names(records)[i],
        ) == terminated_text(records[i].name@) by {
            if i < front.len() {
                assert(front[i] == records[i]);
                assert(profile_names(records)[i] == profile_names(front)[i]);
            }
        }
    }
}

/// A list never has more names than records.
pub proof fn lemma_no_more_names_than_records(records: Seq<ProfileInfo>)
    ensures
        profile_names(records).len() <= records.len(),
    decreases records.len(),
{
    if records.len() > 0 {
        lemma_no_more_names_than_records(records.drop_last());
    }
}

/// An open session of the wireless service.
///
/// A value exists from the successful opening of a session to its release:
/// `close` takes the value, so a released session cannot be used again.
#[derive(Debug)]
pub struct Wlan {
    handle: isize,
}

impl Wlan {
    /// The session's handle.
    pub closed spec fn session(&self) -> isize {
        self.handle
    }

    /// The handle of an open session is never `INVALID_HANDLE`.
    #[verifier::type_invariant]
    spec fn well_formed(self) -> bool {
        self.handle != INVALID_HANDLE
    }

    /// The session that the reply to a request for one stands for. There is a
    /// session exactly when the service reported success and handed back a
    /// handle other than `INVALID_HANDLE`.
    pub fn new(status: u32, handle: isize) -> (result: AnyResult<Wlan>)
        ensures
            status != 0 ==> result == Err::<Wlan, WlanError>(service_failure(status)),
            status == 0 && handle == INVALID_HANDLE ==> result == Err::<Wlan, WlanError>(
                WlanError::NullResult,
            ),
            status == 0 && handle != INVALID_HANDLE ==> (result matches Ok(wlan)
                && wlan.session() == handle),
    {
        match open_wlan_handle(status, handle) {
            Ok(handle) => Ok(Wlan { handle }),
            Err(failure) => Err(failure),
        }
    }

    /// The handle to give to the service with every request of this session.
    pub fn handle(&self) -> (handle: isize)
        ensures
            handle == self.session(),
            handle != INVALID_HANDLE,
    {
        proof {
            use_type_invariant(self);
        }
        self.handle
    }

    /// The identifiers of the wireless adapters, from the reply to a request for
    /// the interface list: one for each record, in the list's order.
    pub fn get_interfaces(&self, status: u32, list: Option<Vec<InterfaceInfo>>) -> (result:
        AnyResult<Vec<windows::core::GUID>>)
        ensures
            status != 0 ==> result == Err::<Vec<windows::core::GUID>, WlanError>(
                service_failure(status),
            ),
            status == 0 && list is None ==> result == Err::<Vec<windows::core::GUID>, WlanError>(
                WlanError::NullResult,
            ),
            status == 0 && list is Some ==> (result matches Ok(ids) && ids@ == interface_ids(
                list->0@,
            )),
    {
        let records = match enum_wlan_interfaces(status, list) {
            Ok(records) => records,
            Err(failure) => {
                return Err(failure);
            },
        };
        let mut ids: Vec<windows::core::GUID> = Vec::new();
        let mut i: usize = 0;
        while i < records.len()
            invariant
                i <= records@.len(),
                ids@ == interface_ids(records@.take(i as int)),
            decreases records@.len() - i,
        {
            ids.push(records[i].guid);
            i = i + 1;
            assert(ids@ =~= interface_ids(records@.take(i as int)));
        }
        assert(records@.take(i as int) =~= records@);
        Ok(ids)
    }

    /// The names of an interface's stored profiles, from the reply to a request
    /// for its profile list: of each record the text in front of the first
    /// terminator of its name buffer, in the list's order. A record whose buffer
    /// holds no terminator is left out; it does not fail the list. The reply
    /// fails as a service failure or as a null result, and in no other way.
    pub fn get_profiles(&self, status: u32, list: Option<Vec<ProfileInfo>>) -> (result:
        AnyResult<Vec<Vec<u16>>>)
        ensures
            status != 0 ==> result == Err::<Vec<Vec<u16>>, WlanError>(service_failure(status)),
            status == 0 && list is None ==> result == Err::<Vec<Vec<u16>>, WlanError>(
                WlanError::NullResult,
            ),
            status == 0 && list is Some ==> (result matches Ok(names) && wide_views(names@)
                == profile_names(list->0@)),
            result matches Err(failure) ==> failure is Service || failure is NullResult,
    {
        let records = match enum_interface_profiles(status, list) {
            Ok(records) => records,
            Err(failure) => {
                return Err(failure);
            },
        };
        let mut names: Vec<Vec<u16>> = Vec::new();
        let mut i: usize = 0;
        while i < records.len()
            invariant
                i <= records@.len(),
                wide_views(names@) == profile_names(records@.take(i as int)),
            decreases records@.len() - i,
        {
            let ghost before = wide_views(names@);
            assert(records@.take(i + 1).drop_last() =~= records@.take(i as int));
            match os_string_from_utf16_slice(records[i].name.as_slice()) {
                Some(name) => {
                    names.push(name);
                    assert(wide_views(names@) =~= before.push(name@));
                },
                None => {},
            }
            i = i + 1;
        }
        assert(records@.take(i as int) =~= records@);
        Ok(names)
    }

    /// Tells how a stored profile authenticates, from its parsed document, as
    /// `classify` does.
    pub fn get_authentication(&self, document: &Xml) -> (result: AnyResult<Authentication>)
        ensures
            scheme_of(document) is None ==> result == Err::<Authentication, WlanError>(
                WlanError::MissingAuthentication,
            ),
            scheme_of(document) is Some ==> result is Ok,
            scheme_of(document) == Some("open"@) ==> result matches Ok(Authentication::Open),
            scheme_of(document) == Some("WPA2"@) ==> (result matches Ok(
                Authentication::WPA2(key),
            ) && key_view(key) == key_of(document)),
            scheme_of(document) == Some("WPA2PSK"@) ==> (result matches Ok(
                Authentication::WPA2PSK(key),
            ) && key_view(key) == key_of(document)),
            scheme_of(document) matches Some(scheme) && scheme != "open"@ && scheme != "WPA2"@
                && scheme != "WPA2PSK"@ ==> result matches Ok(Authentication::Other),
    {
        classify(document)
    }

    /// Ends the session with the reply to its release. The value is used up
    /// whatever the reply says.
    pub fn close(self, status: u32) -> (result: AnyResult<()>)
        ensures
            status == 0 ==> result == Ok::<(), WlanError>(()),
            status != 0 ==> result == Err::<(), WlanError>(service_failure(status)),
    {
        close_wlan_handle(status)
    }
}

} // verus!
