use dplay_launcher::directplay::{DPLAppInfo, DPName};
use dplay_launcher::guid::Guid;
use dplay_launcher::session::{
    address_type_of_lowercase, application_names, enum_addr_types, enum_app, enum_sp, first_name_or_empty,
    get_selected_application, get_selected_service_provider, service_provider_names, set_address_type, AddressType,
    AppInfo, ServiceProvider, SessionInfo,
};

fn app(name: &str, id: u128) -> AppInfo {
    AppInfo { app_name: name.to_string(), app_guid: Guid::from_u128(id) }
}

fn sp(name: &str, id: u128) -> ServiceProvider {
    ServiceProvider { sp_name: name.to_string(), sp_guid: Guid::from_u128(id) }
}

#[test]
fn address_type_from_provider_names() {
    assert_eq!(set_address_type("Internet TCP/IP Connection For DirectPlay"), AddressType::TcpIp);
    assert_eq!(set_address_type("Modem Connection For DirectPlay"), AddressType::Modem);
    assert_eq!(set_address_type("Serial Connection For DirectPlay"), AddressType::Serial);
    assert_eq!(set_address_type("IPX Connection For DirectPlay"), AddressType::Unspecified);
    assert_eq!(set_address_type(""), AddressType::Unspecified);
}

#[test]
fn address_type_ignores_case() {
    assert_eq!(set_address_type("TCP"), AddressType::TcpIp);
    assert_eq!(set_address_type("MoDeM"), AddressType::Modem);
    assert_eq!(set_address_type("SERIAL"), AddressType::Serial);
}

#[test]
fn address_type_prefers_tcp_then_modem_then_serial() {
    assert_eq!(set_address_type("serial modem tcp"), AddressType::TcpIp);
    assert_eq!(set_address_type("serial modem"), AddressType::Modem);
    assert_eq!(address_type_of_lowercase("TCP"), AddressType::Unspecified);
    assert_eq!(address_type_of_lowercase("x serial"), AddressType::Serial);
}

#[test]
fn selects_the_first_application_with_the_name() {
    let mut apps = vec![app("Game A", 1), app("Game B", 2), app("Game B", 3)];
    let picked = get_selected_application("Game B", &mut apps).unwrap();
    assert_eq!(picked.app_name, "Game B");
    assert_eq!(picked.app_guid, Guid::from_u128(2));
    assert_eq!(apps.len(), 3);
    assert!(get_selected_application("Game C", &mut apps).is_none());
    assert!(get_selected_application("game a", &mut apps).is_none());
    assert!(get_selected_application("", &mut Vec::new()).is_none());
}

#[test]
fn selects_the_first_service_provider_with_the_name() {
    let mut sps = vec![sp("Modem", 7), sp("TCP/IP", 8)];
    let picked = get_selected_service_provider("TCP/IP", &mut sps).unwrap();
    assert_eq!(picked.sp_guid, Guid::from_u128(8));
    assert!(get_selected_service_provider("Serial", &mut sps).is_none());
}

#[test]
fn first_name_selects_the_first_item() {
    let mut apps = vec![app("One", 1), app("Two", 2)];
    let names = application_names(&apps);
    assert_eq!(names, vec!["One".to_string(), "Two".to_string()]);
    let first = first_name_or_empty(&names);
    assert_eq!(first, "One");
    assert_eq!(get_selected_application(&first, &mut apps).unwrap().app_guid, Guid::from_u128(1));
    assert_eq!(first_name_or_empty(&Vec::new()), "");
    let sps = vec![sp("Modem", 7)];
    assert_eq!(service_provider_names(&sps), vec!["Modem".to_string()]);
}

#[test]
fn enumerated_applications_with_valid_names_are_kept() {
    let mut apps: Vec<AppInfo> = Vec::new();
    assert!(enum_app(&mut apps, Some(DPLAppInfo { guid_application: Guid::from_u128(9), app_name: b"Tank Wars".to_vec() })));
    assert!(enum_app(&mut apps, None));
    assert!(enum_app(&mut apps, Some(DPLAppInfo { guid_application: Guid::from_u128(10), app_name: vec![0xFF, 0xFE] })));
    assert!(enum_app(&mut apps, Some(DPLAppInfo { guid_application: Guid::from_u128(11), app_name: "Café".as_bytes().to_vec() })));
    assert_eq!(apps.len(), 2);
    assert_eq!(apps[0].app_name, "Tank Wars");
    assert_eq!(apps[0].app_guid, Guid::from_u128(9));
    assert_eq!(apps[1].app_name, "Café");
}

#[test]
fn enumerated_service_providers_need_a_name_and_an_identifier() {
    let mut sps: Vec<ServiceProvider> = Vec::new();
    let name = |s: &[u8]| DPName { flags: 0, short_name: s.to_vec(), long_name: Vec::new() };
    assert!(enum_sp(&mut sps, Some(Guid::from_u128(1)), Some(name(b"TCP/IP"))));
    assert!(enum_sp(&mut sps, None, Some(name(b"Modem"))));
    assert!(enum_sp(&mut sps, Some(Guid::from_u128(3)), None));
    assert!(enum_sp(&mut sps, Some(Guid::from_u128(4)), Some(name(&[0xC3]))));
    assert!(enum_sp(&mut sps, Some(Guid::from_u128(5)), Some(name(b"Serial"))));
    assert_eq!(sps.len(), 2);
    assert_eq!(sps[0].sp_name, "TCP/IP");
    assert_eq!(sps[1].sp_guid, Guid::from_u128(5));
}

#[test]
fn enumerated_address_types_are_appended() {
    let mut types = vec![Guid::from_u128(1)];
    assert!(enum_addr_types(&mut types, Guid::from_u128(2)));
    assert!(enum_addr_types(&mut types, Guid::from_u128(1)));
    assert_eq!(types, vec![Guid::from_u128(1), Guid::from_u128(2), Guid::from_u128(1)]);
}

#[test]
fn new_session_info_hosts_with_nothing_selected() {
    let info = SessionInfo::new();
    assert!(info.selected_app.is_none());
    assert!(info.selected_service_provider.is_none());
    assert_eq!(info.session_name, "");
    assert_eq!(info.player_name, "");
    assert!(info.host_session);
}

#[test]
fn ascii_names_differing_in_case_ask_for_the_same_address() {
    for (a, b) in [("TCP/IP", "tcp/ip"), ("MODEM link", "modem LINK"), ("Serial", "sERIAL"), ("IPX", "ipx")] {
        assert_eq!(set_address_type(a), set_address_type(b));
    }
}

#[test]
fn enumerated_address_types_accumulate_in_order() {
    let mut types = vec![Guid::from_u128(9)];
    let reported = [Guid::from_u128(3), Guid::from_u128(1), Guid::from_u128(3)];
    for g in reported {
        assert!(enum_addr_types(&mut types, g));
    }
    assert_eq!(types, vec![Guid::from_u128(9), Guid::from_u128(3), Guid::from_u128(1), Guid::from_u128(3)]);
}
