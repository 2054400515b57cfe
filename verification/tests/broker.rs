use session_manager_wrapper::broker::{build_broker_call, BrokerCall, Parameter};
use session_manager_wrapper::host::RemoteHost;
use session_manager_wrapper::mode::{SessionMode, ValidationError};
use session_manager_wrapper::port::AllocationError;
use session_manager_wrapper::request::SessionManagerProp;
use session_manager_wrapper::session::{
    plan_session, plan_with_allocation, tunnel_endpoint, SessionError, TunnelEndpoint,
};

fn request(
    target: &str,
    local: Option<u16>,
    remote: Option<u16>,
    host: Option<&str>,
) -> SessionManagerProp {
    SessionManagerProp::new(
        "us-east-1".to_string(),
        target.to_string(),
        local,
        remote,
        host.map(|h| RemoteHost::parse(h).unwrap()),
    )
}

fn one(value: &str) -> Vec<String> {
    vec![value.to_string()]
}

#[test]
fn direct_call_has_no_document_and_no_parameters() {
    let mut prop = request("i-abc", None, None, None);
    let call = plan_session(&mut prop).unwrap();
    assert_eq!(
        call,
        BrokerCall { target_id: "i-abc".to_string(), document: None, parameters: vec![] }
    );
    assert_eq!(prop, request("i-abc", None, None, None));
    assert_eq!(call.values_of("portNumber"), None);
}

#[test]
fn port_forwarding_call_names_both_ports() {
    let prop = request("i-abc", Some(1234), Some(5678), None);
    let call = build_broker_call(SessionMode::PortForwarding, &prop);
    assert_eq!(call.target_id, "i-abc");
    assert_eq!(call.document, Some("port-forwarding".to_string()));
    assert_eq!(call.parameters.len(), 2);
    assert_eq!(call.values_of("portNumber"), Some(&one("5678")));
    assert_eq!(call.values_of("localPortNumber"), Some(&one("1234")));
    assert_eq!(call.values_of("host"), None);
}

#[test]
fn remote_host_call_names_host_and_ports() {
    let prop = request("i-abc", Some(8080), Some(443), Some("Example.COM"));
    let call = build_broker_call(SessionMode::PortForwardingToRemoteHost, &prop);
    assert_eq!(call.document, Some("port-forwarding-to-remote-host".to_string()));
    assert_eq!(
        call.parameters,
        vec![
            Parameter { name: "host".to_string(), values: one("example.com") },
            Parameter { name: "portNumber".to_string(), values: one("443") },
            Parameter { name: "localPortNumber".to_string(), values: one("8080") },
        ]
    );
    assert_eq!(call.values_of("host"), Some(&one("example.com")));
}

#[test]
fn building_twice_gives_the_same_call() {
    let prop = request("i-abc", Some(1234), Some(5678), None);
    let first = build_broker_call(SessionMode::PortForwarding, &prop);
    let second = build_broker_call(SessionMode::PortForwarding, &prop.clone());
    assert_eq!(first, second);
}

#[test]
fn lookup_takes_the_later_of_two_equal_names() {
    let call = BrokerCall {
        target_id: "i-abc".to_string(),
        document: None,
        parameters: vec![
            Parameter { name: "portNumber".to_string(), values: one("1") },
            Parameter { name: "portNumber".to_string(), values: one("2") },
        ],
    };
    assert_eq!(call.values_of("portNumber"), Some(&one("2")));
}

#[test]
fn allocated_port_is_written_back_and_named() {
    let mut prop = request("i-abc", Some(0), Some(22), None);
    let call = plan_session(&mut prop).unwrap();
    let port = prop.get_local_port().unwrap();
    assert_ne!(port, 0);
    assert_eq!(call.values_of("localPortNumber"), Some(&vec![port.to_string()]));
    assert_eq!(call.values_of("portNumber"), Some(&one("22")));
    assert_eq!(prop, request("i-abc", Some(port), Some(22), None));
}

#[test]
fn plan_with_a_given_port() {
    let mut prop = request("i-abc", Some(0), Some(22), None);
    let call = plan_with_allocation(&mut prop, SessionMode::PortForwarding, Ok(15001)).unwrap();
    assert_eq!(prop.get_local_port(), &Some(15001));
    assert_eq!(call.values_of("localPortNumber"), Some(&one("15001")));
}

#[test]
fn port_in_use_stops_the_plan() {
    let mut prop = request("i-abc", Some(80), Some(22), None);
    let r = plan_with_allocation(
        &mut prop,
        SessionMode::PortForwarding,
        Err(AllocationError::PortInUse(80)),
    );
    assert_eq!(r, Err(SessionError::Allocation(AllocationError::PortInUse(80))));
    assert_eq!(prop, request("i-abc", Some(80), Some(22), None));
}

#[test]
fn no_free_port_stops_the_plan() {
    let mut prop = request("i-abc", Some(0), Some(22), Some("example.com"));
    let r = plan_with_allocation(
        &mut prop,
        SessionMode::PortForwardingToRemoteHost,
        Err(AllocationError::NoFreePort),
    );
    assert_eq!(r, Err(SessionError::Allocation(AllocationError::NoFreePort)));
    assert_eq!(prop.get_local_port(), &Some(0));
}

#[test]
fn invalid_request_is_not_planned() {
    let mut prop = request("i-abc", Some(1234), None, None);
    assert_eq!(
        plan_session(&mut prop),
        Err(SessionError::Validation(ValidationError::InvalidCombination))
    );
    assert_eq!(prop, request("i-abc", Some(1234), None, None));
}

#[test]
fn endpoint_follows_the_mode() {
    assert_eq!(
        tunnel_endpoint(&request("i-abc", None, None, None)),
        Ok(TunnelEndpoint::StandardStreams)
    );
    assert_eq!(
        tunnel_endpoint(&request("i-abc", Some(8080), Some(80), None)),
        Ok(TunnelEndpoint::LocalPort(8080))
    );
    assert_eq!(
        tunnel_endpoint(&request("i-abc", Some(8081), Some(80), Some("example.com"))),
        Ok(TunnelEndpoint::LocalPort(8081))
    );
    assert_eq!(
        tunnel_endpoint(&request("i-abc", None, Some(80), None)),
        Err(ValidationError::InvalidCombination)
    );
}
