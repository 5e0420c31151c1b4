use dplay_launcher::directplay::{DPCompoundAddressElement, DPOPEN_CREATE, DPOPEN_JOIN};
use dplay_launcher::guid::{Guid, DPAID_INET, DPAID_PHONE, DPAID_SERVICE_PROVIDER, SESSION_GUID};
use dplay_launcher::launch::{address_elements, build_connection, copy_elements, LaunchError, LaunchStatus, E_FAIL};
use dplay_launcher::launcher::{LaunchCommand, LaunchEvent, LaunchPhase, Launcher};
use dplay_launcher::session::{AppInfo, ServiceProvider, SessionInfo};

const SP: u128 = 0x01020304_0506_0708_090A_0B0C0D0E0F10;
const APP: u128 = 0xAAAA0000_1111_2222_3333_444455556666;

fn sp_bytes() -> Vec<u8> {
    vec![0x04, 0x03, 0x02, 0x01, 0x06, 0x05, 0x08, 0x07, 0x09, 0x0A, 0x0B, 0x0C, 0x0D, 0x0E, 0x0F, 0x10]
}

fn session(host: bool) -> SessionInfo {
    SessionInfo {
        selected_app: Some(AppInfo { app_name: "Game".to_string(), app_guid: Guid::from_u128(APP) }),
        selected_service_provider: Some(ServiceProvider { sp_name: "TCP/IP".to_string(), sp_guid: Guid::from_u128(SP) }),
        session_name: "Friday".to_string(),
        player_name: "Ann".to_string(),
        host_session: host,
    }
}

fn pairs(elements: &[DPCompoundAddressElement]) -> Vec<(u128, Vec<u8>)> {
    elements.iter().map(|e| (e.guid_data_type.value, e.data.clone())).collect()
}

#[test]
fn inet_address_elements() {
    let els = address_elements(Guid::from_u128(DPAID_INET), Guid::from_u128(SP), "192.168.0.2", "555").unwrap();
    assert_eq!(pairs(&els), vec![(DPAID_SERVICE_PROVIDER, sp_bytes()), (DPAID_INET, b"192.168.0.2\0".to_vec())]);
    assert_eq!(els[0].data_size(), 16);
    assert_eq!(els[1].data_size(), 12);
}

#[test]
fn phone_address_elements() {
    let els = address_elements(Guid::from_u128(DPAID_PHONE), Guid::from_u128(SP), "1.2.3.4", "555-0100").unwrap();
    assert_eq!(pairs(&els), vec![(DPAID_SERVICE_PROVIDER, sp_bytes()), (DPAID_PHONE, b"555-0100\0".to_vec())]);
}

#[test]
fn address_elements_errors() {
    let sp = Guid::from_u128(SP);
    assert_eq!(address_elements(Guid::from_u128(DPAID_INET), sp, "1.2\0", "").unwrap_err(), LaunchError::InvalidIpAddress);
    assert_eq!(address_elements(Guid::from_u128(DPAID_PHONE), sp, "", "5\0").unwrap_err(), LaunchError::InvalidPhoneNumber);
    assert_eq!(address_elements(Guid::from_u128(42), sp, "1.2.3.4", "5").unwrap_err(), LaunchError::NoAddressElements);
    assert!(address_elements(Guid::from_u128(DPAID_PHONE), sp, "1.2\0", "5").is_ok());
}

#[test]
fn copies_of_elements_are_equal() {
    let els = address_elements(Guid::from_u128(DPAID_INET), Guid::from_u128(SP), "h", "").unwrap();
    assert_eq!(pairs(&copy_elements(&els)), pairs(&els));
}

#[test]
fn connection_for_a_hosted_session() {
    let c = build_connection(Guid::from_u128(APP), Guid::from_u128(SP), vec![1, 2, 3], "Friday", "Ann", true);
    assert_eq!(c.flags, DPOPEN_CREATE);
    assert_eq!(c.session_desc.flags, 0);
    assert_eq!(c.session_desc.guid_instance.value, SESSION_GUID);
    assert_eq!(c.session_desc.guid_application.value, APP);
    assert_eq!(c.session_desc.max_players, 0);
    assert_eq!(c.session_desc.current_players, 0);
    assert_eq!(c.session_desc.session_name, b"Friday".to_vec());
    assert!(c.session_desc.password.is_none());
    assert_eq!(c.player_name.flags, 0);
    assert_eq!(c.player_name.short_name, b"Ann".to_vec());
    assert_eq!(c.player_name.long_name, b"Ann".to_vec());
    assert_eq!(c.guid_sp.value, SP);
    assert_eq!(c.address, vec![1, 2, 3]);
}

#[test]
fn connection_for_a_joined_session() {
    let c = build_connection(Guid::from_u128(APP), Guid::from_u128(SP), Vec::new(), "", "Bo", false);
    assert_eq!(c.flags, DPOPEN_JOIN);
    assert_eq!(c.player_name.short_name, c.player_name.long_name);
}

#[test]
fn error_codes_and_texts() {
    assert_eq!(LaunchError::Com(-5).code(), -5);
    assert_eq!(LaunchError::Com(-5).message(), "");
    assert_eq!(E_FAIL as u32, 0x80004005);
    let cases = [
        (LaunchError::NoServiceProviderSelected, "No service provider selected"),
        (LaunchError::NoApplicationSelected, "No application selected"),
        (LaunchError::NoAddressTypes, "No address types found"),
        (LaunchError::InvalidIpAddress, "Failed to get IP address"),
        (LaunchError::InvalidPhoneNumber, "Failed to get phone number"),
        (LaunchError::NoAddressElements, "No address elements found"),
        (LaunchError::AddressSizeProbeSucceeded, "Failed to get address size"),
    ];
    for (e, text) in cases {
        assert_eq!(e.code(), E_FAIL);
        assert_eq!(e.message(), text);
    }
}

#[test]
fn status_texts() {
    assert_eq!(LaunchStatus::Launching.text(), "Launching application...");
    assert_eq!(LaunchStatus::Launched.text(), "Launch successful");
    assert_eq!(LaunchStatus::Failed.text(), "Failed to launch application");
}

#[test]
fn launch_succeeds_through_all_lobby_calls() {
    let mut l = Launcher::new();
    let a = l.start(&session(true), "10.0.0.7".to_string(), String::new());
    assert_eq!(a.status, Some(LaunchStatus::Launching));
    assert!(matches!(a.command, LaunchCommand::EnumerateAddressTypes { guid_sp } if guid_sp.value == SP));

    let a = l.step(LaunchEvent::AddressTypesEnumerated { found: vec![Guid::from_u128(DPAID_INET)], result: Ok(()) });
    assert_eq!(a.status, None);
    match a.command {
        LaunchCommand::ProbeAddressSize { elements } => {
            assert_eq!(pairs(&elements), vec![(DPAID_SERVICE_PROVIDER, sp_bytes()), (DPAID_INET, b"10.0.0.7\0".to_vec())]);
        },
        other => panic!("unexpected {:?}", other),
    }

    let a = l.step(LaunchEvent::AddressSizeProbed { result: Err(-1), size: 80 });
    match a.command {
        LaunchCommand::CreateAddress { elements, size } => {
            assert_eq!(size, 80);
            assert_eq!(elements.len(), 2);
        },
        other => panic!("unexpected {:?}", other),
    }

    let a = l.step(LaunchEvent::AddressCreated { result: Ok(()), address: vec![9; 80] });
    match a.command {
        LaunchCommand::RunApplication { connection } => {
            assert_eq!(connection.flags, DPOPEN_CREATE);
            assert_eq!(connection.address, vec![9; 80]);
            assert_eq!(connection.session_desc.guid_application.value, APP);
            assert_eq!(connection.session_desc.session_name, b"Friday".to_vec());
            assert_eq!(connection.player_name.short_name, b"Ann".to_vec());
            assert_eq!(connection.guid_sp.value, SP);
        },
        other => panic!("unexpected {:?}", other),
    }

    let a = l.step(LaunchEvent::ApplicationRun { result: Ok(()) });
    assert_eq!(a.status, Some(LaunchStatus::Launched));
    assert!(matches!(a.command, LaunchCommand::Finish { outcome: Ok(()) }));
    assert!(matches!(l.phase, LaunchPhase::Finished { outcome: Ok(()) }));
    assert_eq!(l.address_types, vec![Guid::from_u128(DPAID_INET)]);
}

#[test]
fn launch_without_service_provider_fails_first() {
    let mut l = Launcher::new();
    let mut s = session(true);
    s.selected_service_provider = None;
    s.selected_app = None;
    let a = l.start(&s, String::new(), String::new());
    assert_eq!(a.status, None);
    assert!(matches!(a.command, LaunchCommand::Finish { outcome: Err(LaunchError::NoServiceProviderSelected) }));
}

#[test]
fn launch_without_application_fails() {
    let mut l = Launcher::new();
    let mut s = session(true);
    s.selected_app = None;
    let a = l.start(&s, String::new(), String::new());
    assert!(matches!(a.command, LaunchCommand::Finish { outcome: Err(LaunchError::NoApplicationSelected) }));
    assert!(matches!(l.phase, LaunchPhase::Finished { outcome: Err(LaunchError::NoApplicationSelected) }));
}

fn started(l: &mut Launcher, ip: &str, phone: &str) {
    let a = l.start(&session(false), ip.to_string(), phone.to_string());
    assert_eq!(a.status, Some(LaunchStatus::Launching));
}

#[test]
fn failed_enumeration_ends_the_launch_but_keeps_the_types() {
    let mut l = Launcher::new();
    started(&mut l, "1.1.1.1", "");
    let a = l.step(LaunchEvent::AddressTypesEnumerated { found: vec![Guid::from_u128(DPAID_PHONE)], result: Err(-7) });
    assert_eq!(a.status, None);
    assert!(matches!(a.command, LaunchCommand::Finish { outcome: Err(LaunchError::Com(-7)) }));
    assert_eq!(l.address_types, vec![Guid::from_u128(DPAID_PHONE)]);
}

#[test]
fn no_address_types_fails() {
    let mut l = Launcher::new();
    started(&mut l, "1.1.1.1", "");
    let a = l.step(LaunchEvent::AddressTypesEnumerated { found: Vec::new(), result: Ok(()) });
    assert!(matches!(a.command, LaunchCommand::Finish { outcome: Err(LaunchError::NoAddressTypes) }));
}

#[test]
fn unknown_address_type_fails() {
    let mut l = Launcher::new();
    started(&mut l, "1.1.1.1", "");
    let a = l.step(LaunchEvent::AddressTypesEnumerated { found: vec![Guid::from_u128(77)], result: Ok(()) });
    assert!(matches!(a.command, LaunchCommand::Finish { outcome: Err(LaunchError::NoAddressElements) }));
}

#[test]
fn succeeding_size_probe_fails() {
    let mut l = Launcher::new();
    started(&mut l, "", "555");
    l.step(LaunchEvent::AddressTypesEnumerated { found: vec![Guid::from_u128(DPAID_PHONE)], result: Ok(()) });
    let a = l.step(LaunchEvent::AddressSizeProbed { result: Ok(()), size: 10 });
    assert_eq!(a.status, None);
    assert!(matches!(a.command, LaunchCommand::Finish { outcome: Err(LaunchError::AddressSizeProbeSucceeded) }));
}

#[test]
fn failed_address_or_run_ends_with_its_code() {
    let mut l = Launcher::new();
    started(&mut l, "", "555");
    l.step(LaunchEvent::AddressTypesEnumerated { found: vec![Guid::from_u128(DPAID_PHONE)], result: Ok(()) });
    l.step(LaunchEvent::AddressSizeProbed { result: Err(1), size: 10 });
    let a = l.step(LaunchEvent::AddressCreated { result: Err(-3), address: Vec::new() });
    assert!(matches!(a.command, LaunchCommand::Finish { outcome: Err(LaunchError::Com(-3)) }));

    started(&mut l, "", "555");
    l.step(LaunchEvent::AddressTypesEnumerated { found: Vec::new(), result: Ok(()) });
    l.step(LaunchEvent::AddressSizeProbed { result: Err(1), size: 10 });
    let a = l.step(LaunchEvent::AddressCreated { result: Ok(()), address: vec![1] });
    assert!(matches!(a.command, LaunchCommand::RunApplication { ref connection } if connection.flags == DPOPEN_JOIN));
    let a = l.step(LaunchEvent::ApplicationRun { result: Err(-4) });
    assert_eq!(a.status, None);
    assert!(matches!(a.command, LaunchCommand::Finish { outcome: Err(LaunchError::Com(-4)) }));
}

#[test]
fn first_known_address_type_decides_later_launches() {
    let mut l = Launcher::new();
    started(&mut l, "1.1.1.1", "555");
    l.step(LaunchEvent::AddressTypesEnumerated { found: vec![Guid::from_u128(DPAID_PHONE)], result: Err(-1) });
    started(&mut l, "1.1.1.1", "555");
    let a = l.step(LaunchEvent::AddressTypesEnumerated { found: vec![Guid::from_u128(DPAID_INET)], result: Ok(()) });
    match a.command {
        LaunchCommand::ProbeAddressSize { elements } => assert_eq!(elements[1].guid_data_type.value, DPAID_PHONE),
        other => panic!("unexpected {:?}", other),
    }
    assert_eq!(l.address_types, vec![Guid::from_u128(DPAID_PHONE), Guid::from_u128(DPAID_INET)]);
}

#[test]
fn answers_out_of_turn_are_ignored() {
    let mut l = Launcher::new();
    let a = l.step(LaunchEvent::ApplicationRun { result: Ok(()) });
    assert_eq!(a.status, None);
    assert!(matches!(a.command, LaunchCommand::Wait));
    assert!(matches!(l.phase, LaunchPhase::Idle));
    started(&mut l, "1.1.1.1", "");
    let a = l.step(LaunchEvent::AddressSizeProbed { result: Err(1), size: 3 });
    assert!(matches!(a.command, LaunchCommand::Wait));
    assert!(matches!(l.phase, LaunchPhase::EnumeratingAddressTypes { .. }));
    let a = l.start(&session(true), String::new(), String::new());
    assert!(matches!(a.command, LaunchCommand::Wait));
    assert_eq!(a.status, None);
}

#[test]
fn failed_starts_show_no_status() {
    let mut l = Launcher::new();
    let mut s = session(true);
    s.selected_app = None;
    let a = l.start(&s, String::new(), String::new());
    assert_eq!(a.status, None);
    assert_eq!(l.address_types, Vec::<Guid>::new());
}
