use vstd::prelude::*;
use vstd::slice::slice_to_vec;
use vstd::string::StrSliceExecFns;
use vstd::utf8::encode_utf8;

use crate::directplay::{
    ConnectionView, DPCompoundAddressElement, DPLConnection, DPName, DPSessionDesc2, DPOPEN_CREATE,
    DPOPEN_JOIN,
};
use crate::guid::{Guid, DPAID_INET, DPAID_PHONE, DPAID_SERVICE_PROVIDER, SESSION_GUID};
use crate::text::c_string_bytes;

verus! {

/// The COM error code for an unspecified failure (`E_FAIL`), which every
/// failure found by the launcher itself carries.
pub const E_FAIL: i32 = -2147467259i32;

/// Why a launch failed.
#[derive(Clone, Copy, Debug, PartialEq, Eq, Structural)]
pub enum LaunchError {
    /// A lobby call failed with this COM error code.
    Com(i32),
    NoServiceProviderSelected,
    NoApplicationSelected,
    NoAddressTypes,
    InvalidIpAddress,
    InvalidPhoneNumber,
    NoAddressElements,
    /// The call that only asks for the address size succeeded, which it must not.
    AddressSizeProbeSucceeded,
}

/// The text that describes a failure found by the launcher itself (a failed
/// lobby call is described by the system's text for its code instead).
pub open spec fn error_text(e: LaunchError) -> Seq<char> {
    match e {
        LaunchError::Com(_) => Seq::empty(),
        LaunchError::NoServiceProviderSelected => "No service provider selected"@,
        LaunchError::NoApplicationSelected => "No application selected"@,
        LaunchError::NoAddressTypes => "No address types found"@,
        LaunchError::InvalidIpAddress => "Failed to get IP address"@,
        LaunchError::InvalidPhoneNumber => "Failed to get phone number"@,
        LaunchError::NoAddressElements => "No address elements found"@,
        LaunchError::AddressSizeProbeSucceeded => "Failed to get address size"@,
    }
}

impl LaunchError {
    /// The COM error code of the failure.
    pub fn code(&self) -> (code: i32)
        ensures
            code == match *self {
                LaunchError::Com(c) => c,
                _ => E_FAIL,
            },
    {
        match self {
            LaunchError::Com(c) => *c,
            _ => E_FAIL,
        }
    }

    /// The text of the failure (empty for a failed lobby call).
    pub fn message(&self) -> (text: &'static str)
        ensures
            text@ == error_text(*self),
    {
        match self {
            LaunchError::Com(_) => {
                proof {
                    reveal_strlit("");
                }
                ""
            },
            LaunchError::NoServiceProviderSelected => "No service provider selected",
            LaunchError::NoApplicationSelected => "No application selected",
            LaunchError::NoAddressTypes => "No address types found",
            LaunchError::InvalidIpAddress => "Failed to get IP address",
            LaunchError::InvalidPhoneNumber => "Failed to get phone number",
            LaunchError::NoAddressElements => "No address elements found",
            LaunchError::AddressSizeProbeSucceeded => "Failed to get address size",
        }
    }
}

/// What the user is told about a launch: the launcher itself shows
/// `Launching` and `Launched`; `Failed` is shown by whoever started a launch
/// that ends in failure.
#[derive(Clone, Copy, Debug, PartialEq, Eq, Structural)]
pub enum LaunchStatus {
    Launching,
    Launched,
    Failed,
}

/// The text shown for a status.
pub open spec fn status_text(s: LaunchStatus) -> Seq<char> {
    match s {
        LaunchStatus::Launching => "Launching application..."@,
        LaunchStatus::Launched => "Launch successful"@,
        LaunchStatus::Failed => "Failed to launch application"@,
    }
}

impl LaunchStatus {
    /// The text shown for this status.
    pub fn text(&self) -> (text: &'static str)
        ensures
            text@ == status_text(*self),
    {
        match self {
            LaunchStatus::Launching => "Launching application...",
            LaunchStatus::Launched => "Launch successful",
            LaunchStatus::Failed => "Failed to launch application",
        }
    }
}

/// The compound address that reaches a session through the service provider
/// `sp`, for the address type `address_type` (the first that the provider
/// reported): the provider's identifier, then the Internet address or the
/// telephone number as a C string. Any other address type gives no address.
pub open spec fn spec_address_elements(address_type: Guid, sp: Guid, ip_address: Seq<char>, phone_number: Seq<char>) -> Result<Seq<(Guid, Seq<u8>)>, LaunchError> {
    let provider = (Guid { value: DPAID_SERVICE_PROVIDER }, sp.spec_memory_bytes());
    if address_type.value == DPAID_INET {
        if encode_utf8(ip_address).contains(0u8) {
            Err(LaunchError::InvalidIpAddress)
        } else {
            Ok(seq![provider, (Guid { value: DPAID_INET }, encode_utf8(ip_address).push(0u8))])
        }
    } else if address_type.value == DPAID_PHONE {
        if encode_utf8(phone_number).contains(0u8) {
            Err(LaunchError::InvalidPhoneNumber)
        } else {
            Ok(seq![provider, (Guid { value: DPAID_PHONE }, encode_utf8(phone_number).push(0u8))])
        }
    } else {
        Err(LaunchError::NoAddressElements)
    }
}

/// The elements of the compound address (see `spec_address_elements`).
pub fn address_elements(address_type: Guid, sp_guid: Guid, ip_address: &str, phone_number: &str) -> (elements: Result<Vec<DPCompoundAddressElement>, LaunchError>)
    ensures
        match elements {
            Ok(v) => spec_address_elements(address_type, sp_guid, ip_address@, phone_number@) == Ok::<Seq<(Guid, Seq<u8>)>, LaunchError>(v.deep_view()),
            Err(e) => spec_address_elements(address_type, sp_guid, ip_address@, phone_number@) == Err::<Seq<(Guid, Seq<u8>)>, LaunchError>(e),
        },
{
    let mut elements: Vec<DPCompoundAddressElement> = Vec::new();
    elements.push(DPCompoundAddressElement {
        guid_data_type: Guid::from_u128(DPAID_SERVICE_PROVIDER),
        data: sp_guid.memory_bytes(),
    });
    if address_type.value == DPAID_INET {
        match c_string_bytes(ip_address) {
            Some(data) => {
                elements.push(DPCompoundAddressElement { guid_data_type: Guid::from_u128(DPAID_INET), data });
            },
            None => {
                return Err(LaunchError::InvalidIpAddress);
            },
        }
    } else if address_type.value == DPAID_PHONE {
        match c_string_bytes(phone_number) {
            Some(data) => {
                elements.push(DPCompoundAddressElement { guid_data_type: Guid::from_u128(DPAID_PHONE), data });
            },
            None => {
                return Err(LaunchError::InvalidPhoneNumber);
            },
        }
    }
    if elements.len() == 1 {
        return Err(LaunchError::NoAddressElements);
    }
    proof {
        let spec = spec_address_elements(address_type, sp_guid, ip_address@, phone_number@);
        assert(spec is Ok);
        assert(elements.deep_view() =~= spec->Ok_0);
    }
    Ok(elements)
}

/// A copy of a compound address.
pub fn copy_elements(elements: &Vec<DPCompoundAddressElement>) -> (copy: Vec<DPCompoundAddressElement>)
    ensures
        copy.deep_view() == elements.deep_view(),
{
    let mut copy: Vec<DPCompoundAddressElement> = Vec::new();
    let n = elements.len();
    let mut i: usize = 0;
    while i < n
        invariant
            n == elements@.len(),
            i <= n,
            copy.deep_view() =~= elements.deep_view().take(i as int),
        decreases n - i,
    {
        let element = &elements[i];
        let piece = DPCompoundAddressElement {
            guid_data_type: element.guid_data_type,
            data: slice_to_vec(element.data.as_slice()),
        };
        assert(piece.deep_view() == elements.deep_view()[i as int]);
        let ghost before = copy.deep_view();
        copy.push(piece);
        assert(copy.deep_view() =~= before.push(piece.deep_view()));
        i += 1;
        assert(copy.deep_view() =~= elements.deep_view().take(i as int));
    }
    copy
}

/// The connection settings that run an application in a session: the session
/// is created when the user hosts it and joined otherwise; its instance is
/// `SESSION_GUID`, it belongs to `application_guid`, has no player limit, no
/// password and the given name; the player's short and long names are both
/// `player_name`; the service provider and compound address are those given.
pub open spec fn spec_connection(application_guid: Guid, service_provider_guid: Guid, address: Seq<u8>, session_name: Seq<char>, player_name: Seq<char>, host_session: bool) -> ConnectionView {
    ConnectionView {
        flags: if host_session { DPOPEN_CREATE } else { DPOPEN_JOIN },
        session_flags: 0,
        guid_instance: Guid { value: SESSION_GUID },
        guid_application: application_guid,
        max_players: 0,
        current_players: 0,
        session_name: encode_utf8(session_name),
        password: None,
        player_flags: 0,
        short_name: encode_utf8(player_name),
        long_name: encode_utf8(player_name),
        guid_sp: service_provider_guid,
        address: address,
    }
}

/// The connection settings with which the lobby runs the application
/// (see `spec_connection`).
pub fn build_connection(application_guid: Guid, service_provider_guid: Guid, address: Vec<u8>, session_name: &str, player_name: &str, host_session: bool) -> (connection: DPLConnection)
    ensures
        connection@ == spec_connection(application_guid, service_provider_guid, address@, session_name@, player_name@, host_session),
{
    let session_desc = DPSessionDesc2 {
        flags: 0,
        guid_instance: Guid::from_u128(SESSION_GUID),
        guid_application: application_guid,
        max_players: 0,
        current_players: 0,
        session_name: session_name.as_bytes_vec(),
        password: None,
    };
    let name = DPName { flags: 0, short_name: player_name.as_bytes_vec(), long_name: player_name.as_bytes_vec() };
    DPLConnection {
        flags: if host_session { DPOPEN_CREATE } else { DPOPEN_JOIN },
        session_desc,
        player_name: name,
        guid_sp: service_provider_guid,
        address,
    }
}


/// Every compound address that the launcher builds has exactly two elements:
/// first the service provider, whose data are the 16 bytes of its
/// identifier; then the address of the type reported (an Internet address or
/// a telephone number), whose data are one C string: non-NUL bytes and a
/// single NUL at the end.
pub proof fn lemma_address_shape(address_type: Guid, sp: Guid, ip_address: Seq<char>, phone_number: Seq<char>)
    requires
        spec_address_elements(address_type, sp, ip_address, phone_number) is Ok,
    ensures
        ({
            let elements = spec_address_elements(address_type, sp, ip_address, phone_number)->Ok_0;
            &&& elements.len() == 2
            &&& elements[0].0.value == DPAID_SERVICE_PROVIDER
            &&& elements[0].1 == sp.spec_memory_bytes()
            &&& elements[0].1.len() == 16
            &&& elements[1].0 == address_type
            &&& address_type.value == DPAID_INET || address_type.value == DPAID_PHONE
            &&& elements[1].1.len() >= 1
            &&& elements[1].1.last() == 0u8
            &&& forall|i: int| 0 <= i < elements[1].1.len() - 1 ==> elements[1].1[i] != 0u8
        }),
{
    let elements = spec_address_elements(address_type, sp, ip_address, phone_number)->Ok_0;
    let text = if address_type.value == DPAID_INET { encode_utf8(ip_address) } else { encode_utf8(phone_number) };
    assert(elements[1].1 == text.push(0u8));
    assert forall|i: int| 0 <= i < elements[1].1.len() - 1 implies elements[1].1[i] != 0u8 by {
        assert(elements[1].1[i] == text[i]);
        if text[i] == 0u8 {
            assert(text.contains(0u8));
        }
    }
}

/// The Internet address is refused exactly when its UTF-8 bytes hold a NUL
/// byte (a C string cannot); any other address becomes the second element:
/// its bytes followed by one NUL.
pub proof fn lemma_internet_address_refused_only_for_nul(sp: Guid, ip_address: Seq<char>, phone_number: Seq<char>)
    ensures
        ({
            let r = spec_address_elements(Guid { value: DPAID_INET }, sp, ip_address, phone_number);
            &&& (r == Err::<Seq<(Guid, Seq<u8>)>, LaunchError>(LaunchError::InvalidIpAddress)) == encode_utf8(ip_address).contains(0u8)
            &&& !encode_utf8(ip_address).contains(0u8) ==> r == Ok::<Seq<(Guid, Seq<u8>)>, LaunchError>(seq![
                (Guid { value: DPAID_SERVICE_PROVIDER }, sp.spec_memory_bytes()),
                (Guid { value: DPAID_INET }, encode_utf8(ip_address).push(0u8)),
            ])
        }),
{
}

/// The telephone number is refused exactly when its UTF-8 bytes hold a NUL
/// byte; any other number becomes the second element: its bytes followed by
/// one NUL.
pub proof fn lemma_phone_number_refused_only_for_nul(sp: Guid, ip_address: Seq<char>, phone_number: Seq<char>)
    ensures
        ({
            let r = spec_address_elements(Guid { value: DPAID_PHONE }, sp, ip_address, phone_number);
            &&& (r == Err::<Seq<(Guid, Seq<u8>)>, LaunchError>(LaunchError::InvalidPhoneNumber)) == encode_utf8(phone_number).contains(0u8)
            &&& !encode_utf8(phone_number).contains(0u8) ==> r == Ok::<Seq<(Guid, Seq<u8>)>, LaunchError>(seq![
                (Guid { value: DPAID_SERVICE_PROVIDER }, sp.spec_memory_bytes()),
                (Guid { value: DPAID_PHONE }, encode_utf8(phone_number).push(0u8)),
            ])
        }),
{
}

/// An empty Internet address is accepted: it becomes a C string of one NUL
/// byte, whatever the service provider and the telephone number.
pub proof fn lemma_empty_internet_address_accepted(sp: Guid, phone_number: Seq<char>)
    ensures
        spec_address_elements(Guid { value: DPAID_INET }, sp, Seq::empty(), phone_number)
            == Ok::<Seq<(Guid, Seq<u8>)>, LaunchError>(seq![
                (Guid { value: DPAID_SERVICE_PROVIDER }, sp.spec_memory_bytes()),
                (Guid { value: DPAID_INET }, seq![0u8]),
            ]),
{
    assert(encode_utf8(Seq::<char>::empty()) =~= Seq::<u8>::empty());
    assert(!Seq::<u8>::empty().contains(0u8));
    assert(Seq::<u8>::empty().push(0u8) =~= seq![0u8]);
}

/// Whether the session is created or joined changes only the open flag:
/// for either choice the player's short and long names are both the UTF-8
/// bytes of the player name, the address is the one given, and the session
/// description is the same.
pub proof fn lemma_join_and_host_differ_only_in_flag(application_guid: Guid, service_provider_guid: Guid, address: Seq<u8>, session_name: Seq<char>, player_name: Seq<char>, host_session: bool)
    ensures
        ({
            let c = spec_connection(application_guid, service_provider_guid, address, session_name, player_name, host_session);
            let h = spec_connection(application_guid, service_provider_guid, address, session_name, player_name, true);
            let j = spec_connection(application_guid, service_provider_guid, address, session_name, player_name, false);
            &&& c.short_name == encode_utf8(player_name)
            &&& c.long_name == encode_utf8(player_name)
            &&& c.address == address
            &&& c.guid_sp == service_provider_guid
            &&& c.guid_application == application_guid
            &&& c.session_name == encode_utf8(session_name)
            &&& h.flags == DPOPEN_CREATE
            &&& j.flags == DPOPEN_JOIN
            &&& j == (ConnectionView { flags: DPOPEN_JOIN, ..h })
        }),
{
}

/// A session that the user hosts is created, any other is joined; the
/// player's short and long names are the same.
pub proof fn lemma_connection_open_mode(application_guid: Guid, service_provider_guid: Guid, address: Seq<u8>, session_name: Seq<char>, player_name: Seq<char>, host_session: bool)
    ensures
        ({
            let c = spec_connection(application_guid, service_provider_guid, address, session_name, player_name, host_session);
            &&& (c.flags == DPOPEN_CREATE) == host_session
            &&& (c.flags == DPOPEN_JOIN) == !host_session
            &&& c.short_name == c.long_name
        }),
{
}

} // verus!
