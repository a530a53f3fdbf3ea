use power_windows::app_state::{AppState, RequestType};
use power_windows::clients::{
    door_transition, find_client, get_client_type_for_mac, get_mac_for_client_type, ApClientInfo,
    ClientType, ClientsList, ClientsSvc, DoorTransition, CLIENT_TYPES,
};
use power_windows::config::PowerWindowsConfig;
use power_windows::controls::{get_state_for_voltages, PowerWindowButtonState};
use power_windows::mac::MacAddress;
use power_windows::relay::{Endpoint, PowerWindowsSvc, RestClientSvc};

const RIGHT_MAC: [u8; 6] = [0x40, 0x4c, 0xca, 0x43, 0x8a, 0x64];

fn station(mac: [u8; 6], ip: [u8; 4]) -> Option<ApClientInfo> {
    Some(ApClientInfo { mac: MacAddress::new(mac), ip })
}

#[test]
fn classifier_boundary_examples() {
    assert_eq!(get_state_for_voltages(250, 0), PowerWindowButtonState::Released);
    assert_eq!(get_state_for_voltages(350, 0), PowerWindowButtonState::OpenContinuous);
    assert_eq!(get_state_for_voltages(750, 0), PowerWindowButtonState::OpenFully);
    assert_eq!(get_state_for_voltages(800, 800), PowerWindowButtonState::Released);
}

#[test]
fn classifier_thresholds_are_exclusive() {
    assert_eq!(get_state_for_voltages(300, 0), PowerWindowButtonState::Released);
    assert_eq!(get_state_for_voltages(301, 0), PowerWindowButtonState::OpenContinuous);
    assert_eq!(get_state_for_voltages(700, 0), PowerWindowButtonState::OpenContinuous);
    assert_eq!(get_state_for_voltages(701, 0), PowerWindowButtonState::OpenFully);
    assert_eq!(get_state_for_voltages(0, 300), PowerWindowButtonState::Released);
    assert_eq!(get_state_for_voltages(0, 301), PowerWindowButtonState::CloseContinuous);
    assert_eq!(get_state_for_voltages(0, 701), PowerWindowButtonState::CloseFully);
    assert_eq!(get_state_for_voltages(300, 800), PowerWindowButtonState::CloseFully);
    assert_eq!(get_state_for_voltages(301, 301), PowerWindowButtonState::Released);
    assert_eq!(get_state_for_voltages(u16::MAX, 0), PowerWindowButtonState::OpenFully);
}

#[test]
fn button_states_map_to_commands() {
    let cases = [
        (PowerWindowButtonState::Released, Endpoint::Stop),
        (PowerWindowButtonState::OpenContinuous, Endpoint::OpenContinuous),
        (PowerWindowButtonState::CloseContinuous, Endpoint::CloseContinuous),
        (PowerWindowButtonState::OpenFully, Endpoint::OpenFully),
        (PowerWindowButtonState::CloseFully, Endpoint::CloseFully),
    ];
    for (state, endpoint) in cases {
        let call = PowerWindowsSvc::command_for_client(ClientType::LeftDoor, state);
        assert_eq!(call.client_type, ClientType::LeftDoor);
        assert_eq!(call.endpoint, endpoint);
        assert_eq!(call.payload, [0u8; 8]);
    }
}

#[test]
fn endpoint_paths() {
    assert_eq!(Endpoint::OpenContinuous.path(), "open-continuous");
    assert_eq!(Endpoint::CloseContinuous.path(), "close-continuous");
    assert_eq!(Endpoint::OpenFully.path(), "open-fully");
    assert_eq!(Endpoint::CloseFully.path(), "close-fully");
    assert_eq!(Endpoint::Stop.path(), "stop");
    assert_eq!(Endpoint::ConfigureThresholds.path(), "configure-thresholds");
}

#[test]
fn url_for_known_door() {
    let mut list = ClientsList::new();
    list.set_client_for_type(ClientType::RightDoor, ApClientInfo { mac: MacAddress::new(RIGHT_MAC), ip: [192, 168, 71, 2] });
    let url = RestClientSvc::get_url(list, ClientType::RightDoor, Endpoint::Stop);
    assert_eq!(url, Some("http://192.168.71.2/stop".to_string()));
    let url = RestClientSvc::get_url(list, ClientType::RightDoor, Endpoint::OpenFully);
    assert_eq!(url, Some("http://192.168.71.2/open-fully".to_string()));
    list.set_client_for_type(ClientType::RightDoor, ApClientInfo { mac: MacAddress::new(RIGHT_MAC), ip: [10, 0, 9, 255] });
    let url = RestClientSvc::get_url(list, ClientType::RightDoor, Endpoint::CloseContinuous);
    assert_eq!(url, Some("http://10.0.9.255/close-continuous".to_string()));
}

#[test]
fn url_for_unknown_door_is_none() {
    let list = ClientsList::new();
    assert_eq!(RestClientSvc::get_url(list, ClientType::LeftDoor, Endpoint::Stop), None);
    let mut svc = RestClientSvc::new();
    assert_eq!(svc.url_for_client(ClientType::RightDoor, Endpoint::Stop), None);
    let mut list = ClientsList::new();
    list.set_client_for_type(ClientType::LeftDoor, ApClientInfo { mac: MacAddress::new([1; 6]), ip: [1, 2, 3, 4] });
    svc.set_clients(list);
    assert_eq!(svc.client_list(), list);
    assert_eq!(svc.url_for_client(ClientType::RightDoor, Endpoint::Stop), None);
    assert_eq!(
        svc.url_for_client(ClientType::LeftDoor, Endpoint::ConfigureThresholds),
        Some("http://1.2.3.4/configure-thresholds".to_string())
    );
}

#[test]
fn config_goes_to_both_doors() {
    let cfg = PowerWindowsConfig {
        opening_current_interrupt_threshold_amps: 15,
        closing_current_interrupt_threshold_amps: 25,
        handle_time_threshold_millis: 500,
    };
    let calls = RestClientSvc::config_calls(&cfg);
    assert_eq!(calls.len(), 2);
    assert_eq!(calls[0].client_type, ClientType::LeftDoor);
    assert_eq!(calls[1].client_type, ClientType::RightDoor);
    for call in &calls {
        assert_eq!(call.endpoint, Endpoint::ConfigureThresholds);
        assert_eq!(call.payload, [0, 15, 0, 25, 1, 244, 0, 0]);
    }
}

#[test]
fn door_addresses() {
    assert_eq!(get_mac_for_client_type(ClientType::RightDoor), Some(MacAddress::new(RIGHT_MAC)));
    assert_eq!(get_mac_for_client_type(ClientType::LeftDoor), None);
    assert_eq!(get_client_type_for_mac(MacAddress::new(RIGHT_MAC)), Some(ClientType::RightDoor));
    assert_eq!(get_client_type_for_mac(MacAddress::new([0x40, 0x4c, 0xca, 0x43, 0x8a, 0x65])), None);
    assert_eq!(CLIENT_TYPES, [ClientType::RightDoor, ClientType::LeftDoor]);
}

#[test]
fn clients_list_records() {
    let mut list = ClientsList::new();
    let info = ApClientInfo { mac: MacAddress::new(RIGHT_MAC), ip: [192, 168, 71, 2] };
    list.set_client_for_type(ClientType::LeftDoor, info);
    assert_eq!(list.get_client_for_type(ClientType::LeftDoor), Some(info));
    assert_eq!(list.get_client_for_type(ClientType::RightDoor), None);
    list.remove_client_for_type(ClientType::LeftDoor);
    assert_eq!(list, ClientsList::new());
}

#[test]
fn transitions_between_looks() {
    let a = station(RIGHT_MAC, [192, 168, 71, 2]);
    let b = station(RIGHT_MAC, [192, 168, 71, 3]);
    assert_eq!(door_transition(None, None), DoorTransition::Unchanged);
    assert_eq!(door_transition(None, a), DoorTransition::Connected);
    assert_eq!(door_transition(a, a), DoorTransition::Unchanged);
    assert_eq!(door_transition(a, b), DoorTransition::AddressChanged);
    assert_eq!(door_transition(a, None), DoorTransition::Disconnected);
}

#[test]
fn find_client_takes_first_match() {
    let observed = [
        None,
        station([1, 2, 3, 4, 5, 6], [10, 0, 0, 1]),
        station(RIGHT_MAC, [10, 0, 0, 2]),
        station(RIGHT_MAC, [10, 0, 0, 3]),
    ];
    let found = find_client(&observed, &MacAddress::new(RIGHT_MAC));
    assert_eq!(found.map(|c| c.ip), Some([10, 0, 0, 2]));
    assert_eq!(find_client(&observed, &MacAddress::new([9; 6])), None);
    assert_eq!(find_client(&[], &MacAddress::new(RIGHT_MAC)), None);
}

#[test]
fn registry_connect_change_disconnect() {
    let mut svc = ClientsSvc::new();
    let mut observed: [Option<ApClientInfo>; 10] = [None; 10];
    assert_eq!(svc.update_clients(&observed), None);

    observed[3] = station(RIGHT_MAC, [192, 168, 71, 2]);
    observed[4] = station([7; 6], [192, 168, 71, 9]);
    let changed = svc.update_clients(&observed).expect("right door connected");
    assert_eq!(changed.right_door.map(|c| c.ip), Some([192, 168, 71, 2]));
    assert_eq!(changed.left_door, None);
    assert_eq!(svc.client_list(), changed);

    assert_eq!(svc.update_clients(&observed), None);

    observed[3] = station(RIGHT_MAC, [192, 168, 71, 5]);
    let changed = svc.update_clients(&observed).expect("address changed");
    assert_eq!(changed.right_door.map(|c| c.ip), Some([192, 168, 71, 5]));

    observed[3] = None;
    let changed = svc.update_clients(&observed).expect("right door gone");
    assert_eq!(changed, ClientsList::new());
    assert_eq!(svc.update_clients(&observed), None);
}

#[test]
fn app_state_snapshot() {
    let state = AppState { last_request: RequestType::PowerWindowsOpen, is_current: true, last_debug: 0 };
    assert_eq!(state.describe(), "(last_request: PowerWindowsOpen, is_current: true)");
    let state = AppState { last_request: RequestType::PowerWindowsCloseFully, is_current: false, last_debug: 0 };
    assert_eq!(state.describe(), "(last_request: PowerWindowsCloseFully, is_current: false)");
    assert_eq!(RequestType::PowerWindowsStop.name(), "PowerWindowsStop");
    assert_eq!(RequestType::PowerWindowsClose.name(), "PowerWindowsClose");
    assert_eq!(RequestType::PowerWindowsOpenFully.name(), "PowerWindowsOpenFully");
}

#[test]
fn debug_notifications_are_throttled() {
    let state = AppState { last_request: RequestType::PowerWindowsStop, is_current: false, last_debug: 1000 };
    assert!(!state.debug_due(1199));
    assert!(state.debug_due(1200));
    assert!(!state.debug_due(500));
}
