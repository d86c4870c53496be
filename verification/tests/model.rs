use vm_agent::addr::Ipv4Address;
use vm_agent::config::{BootstrapConfig, INTERFACE_NAME, LISTENER_PORT, PREFIX_LENGTH};
use vm_agent::error::BootstrapError;
use vm_agent::model::{AddressAssignment, LinkRecord, RouteEntry, MAX_PREFIX_LENGTH};
use vm_agent::resolver::resolve;
use vm_agent::vsock::{ChannelEndpoint, WILDCARD_CONTEXT};

fn links(entries: &[(&str, u32)]) -> Vec<LinkRecord> {
    let mut records = Vec::new();
    for (name, index) in entries {
        records.push(LinkRecord::new(name.to_string(), *index));
    }
    records
}

#[test]
fn address_keeps_its_octets() {
    let address = Ipv4Address::new(172, 16, 0, 2);
    assert_eq!(address.octets(), [172, 16, 0, 2]);
    assert_eq!(address, Ipv4Address { a: 172, b: 16, c: 0, d: 2 });
}

#[test]
fn unspecified_address_is_all_zero() {
    assert_eq!(Ipv4Address::unspecified().octets(), [0, 0, 0, 0]);
    assert!(Ipv4Address::unspecified().is_unspecified());
    assert!(!Ipv4Address::new(0, 0, 0, 1).is_unspecified());
    assert!(!Ipv4Address::new(1, 0, 0, 0).is_unspecified());
}

#[test]
fn fixed_config_holds_the_constants() {
    let config = BootstrapConfig::fixed();
    assert_eq!(config.interface_name(), "eth0");
    assert_eq!(config.address(), Ipv4Address::new(172, 16, 0, 2));
    assert_eq!(config.prefix_length(), 24);
    assert_eq!(config.gateway(), Ipv4Address::new(172, 16, 0, 1));
    assert_eq!(config.listener_port(), 8000);
    assert_eq!(INTERFACE_NAME, "eth0");
    assert_eq!(PREFIX_LENGTH, 24);
    assert_eq!(LISTENER_PORT, 8000);
}

#[test]
fn config_keeps_what_it_is_given() {
    let config = BootstrapConfig::new(
        "ens3".to_string(),
        Ipv4Address::new(10, 0, 0, 7),
        16,
        Ipv4Address::new(10, 0, 0, 1),
        9000,
    )
    .unwrap();
    assert_eq!(config.interface_name(), "ens3");
    assert_eq!(config.address(), Ipv4Address::new(10, 0, 0, 7));
    assert_eq!(config.prefix_length(), 16);
    assert_eq!(config.gateway(), Ipv4Address::new(10, 0, 0, 1));
    assert_eq!(config.listener_port(), 9000);
    assert_eq!(config.clone(), config);
}

#[test]
fn config_refuses_an_empty_interface_name() {
    let config = BootstrapConfig::new(
        String::new(),
        Ipv4Address::new(10, 0, 0, 7),
        16,
        Ipv4Address::new(10, 0, 0, 1),
        9000,
    );
    assert_eq!(config, None);
}

#[test]
fn config_accepts_prefix_lengths_up_to_32() {
    let address = Ipv4Address::new(10, 0, 0, 7);
    let gateway = Ipv4Address::new(10, 0, 0, 1);
    assert!(BootstrapConfig::new("eth0".to_string(), address, 0, gateway, 1).is_some());
    assert!(BootstrapConfig::new("eth0".to_string(), address, 32, gateway, 1).is_some());
    assert!(BootstrapConfig::new("eth0".to_string(), address, 33, gateway, 1).is_none());
    assert!(BootstrapConfig::new("eth0".to_string(), address, 255, gateway, 1).is_none());
    assert_eq!(MAX_PREFIX_LENGTH, 32);
}

#[test]
fn resolve_finds_the_named_link() {
    let found = resolve(&links(&[("lo", 1), ("eth0", 2)]), &"eth0".to_string()).unwrap();
    assert_eq!(found.index(), 2);
    assert_eq!(found.name(), "eth0");
}

#[test]
fn resolve_takes_the_first_match() {
    let all = links(&[("eth1", 5), ("eth0", 9), ("eth0", 3), ("lo", 1)]);
    let found = resolve(&all, &"eth0".to_string()).unwrap();
    assert_eq!(found.index(), 9);
}

#[test]
fn resolve_matches_the_whole_name() {
    let all = links(&[("eth", 1), ("eth00", 2), ("ETH0", 3), (" eth0", 4)]);
    assert_eq!(resolve(&all, &"eth0".to_string()), Err(BootstrapError::ResourceNotFound));
}

#[test]
fn resolve_of_absent_interface_is_resource_not_found() {
    assert_eq!(
        resolve(&links(&[("lo", 1)]), &"eth0".to_string()),
        Err(BootstrapError::ResourceNotFound)
    );
    assert_eq!(resolve(&Vec::new(), &"eth0".to_string()), Err(BootstrapError::ResourceNotFound));
}

#[test]
fn assignment_refers_to_the_resolved_interface() {
    let handle = resolve(&links(&[("eth0", 7)]), &"eth0".to_string()).unwrap();
    let assignment = AddressAssignment::for_interface(&handle, Ipv4Address::new(172, 16, 0, 2), 24);
    assert_eq!(
        assignment,
        AddressAssignment { index: 7, address: Ipv4Address::new(172, 16, 0, 2), prefix_length: 24 }
    );
}

#[test]
fn default_route_matches_everything() {
    let handle = resolve(&links(&[("eth0", 7)]), &"eth0".to_string()).unwrap();
    let route = RouteEntry::default_via(&handle, Ipv4Address::new(172, 16, 0, 1));
    assert_eq!(
        route,
        RouteEntry {
            destination: Ipv4Address::new(0, 0, 0, 0),
            destination_prefix_length: 0,
            gateway: Ipv4Address::new(172, 16, 0, 1),
            input_interface_index: 7,
        }
    );
    assert!(route.is_default());
    let narrower = RouteEntry { destination_prefix_length: 8, ..route };
    assert!(!narrower.is_default());
    let elsewhere = RouteEntry { destination: Ipv4Address::new(10, 0, 0, 0), ..route };
    assert!(!elsewhere.is_default());
}

#[test]
fn wildcard_endpoint_is_the_any_context() {
    let endpoint = ChannelEndpoint::wildcard(8000);
    assert_eq!(endpoint.context_id, libc::VMADDR_CID_ANY);
    assert_eq!(endpoint.context_id, 0xFFFF_FFFF);
    assert_eq!(endpoint.port, 8000);
    assert_eq!(WILDCARD_CONTEXT, libc::VMADDR_CID_ANY);
    assert!(endpoint.is_wildcard());
    assert!(!ChannelEndpoint { context_id: 3, port: 8000 }.is_wildcard());
}
