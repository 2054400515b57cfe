use session_manager_wrapper::host::RemoteHost;
use session_manager_wrapper::mode::SessionMode;
use session_manager_wrapper::plugin::{
    plugin_arguments, render_credentials, render_request, BrokerCredentials,
    SESSION_MANAGER_BIN_NAME,
};
use session_manager_wrapper::request::SessionManagerProp;

fn credentials() -> BrokerCredentials {
    BrokerCredentials {
        session_id: "user-0123".to_string(),
        token: "token-value".to_string(),
        stream_url: "wss://stream.example/v1/data-channel/user-0123".to_string(),
    }
}

#[test]
fn helper_name() {
    assert_eq!(SESSION_MANAGER_BIN_NAME, "session-manager-plugin");
}

#[test]
fn credentials_render_as_json() {
    assert_eq!(
        render_credentials(&credentials()),
        "{\"SessionId\":\"user-0123\",\
         \"StreamUrl\":\"wss://stream.example/v1/data-channel/user-0123\",\
         \"TokenValue\":\"token-value\"}"
    );
}

#[test]
fn credentials_are_escaped() {
    let c = BrokerCredentials {
        session_id: "a\"b\\c\n".to_string(),
        token: "t".to_string(),
        stream_url: "u".to_string(),
    };
    let json = render_credentials(&c);
    assert_eq!(json, "{\"SessionId\":\"a\\\"b\\\\c\\n\",\"StreamUrl\":\"u\",\"TokenValue\":\"t\"}");
    let value: serde_json::Value = serde_json::from_str(&json).unwrap();
    assert_eq!(value["SessionId"], serde_json::Value::String("a\"b\\c\n".to_string()));
    assert_eq!(value["TokenValue"], serde_json::Value::String("t".to_string()));
}

#[test]
fn direct_request_renders_the_target() {
    let prop = SessionManagerProp::new("us-east-1".into(), "i-abc".into(), None, None, None);
    assert_eq!(render_request(SessionMode::Direct, &prop), "{\"Target\":\"i-abc\"}");
}

#[test]
fn forwarding_request_renders_document_and_ports() {
    let prop =
        SessionManagerProp::new("us-east-1".into(), "i-abc".into(), Some(1234), Some(5678), None);
    assert_eq!(
        render_request(SessionMode::PortForwarding, &prop),
        "{\"DocumentName\":\"port-forwarding\",\"Target\":\"i-abc\",\
         \"parameters\":{\"localPortNumber\":[\"1234\"],\"portNumber\":[\"5678\"]}}"
    );
}

#[test]
fn remote_host_request_renders_the_host() {
    let prop = SessionManagerProp::new(
        "us-east-1".into(),
        "i-abc".into(),
        Some(1234),
        Some(5678),
        Some(RemoteHost::parse("example.com").unwrap()),
    );
    let json = render_request(SessionMode::PortForwardingToRemoteHost, &prop);
    assert_eq!(
        json,
        "{\"DocumentName\":\"port-forwarding-to-remote-host\",\"Target\":\"i-abc\",\
         \"parameters\":{\"host\":[\"example.com\"],\"localPortNumber\":[\"1234\"],\
         \"portNumber\":[\"5678\"]}}"
    );
    let value: serde_json::Value = serde_json::from_str(&json).unwrap();
    assert_eq!(value["parameters"]["host"][0], serde_json::Value::String("example.com".into()));
}

#[test]
fn helper_gets_six_arguments() {
    let prop = SessionManagerProp::new("eu-west-1".into(), "i-abc".into(), None, None, None);
    let arguments = plugin_arguments(credentials(), SessionMode::Direct, &prop);
    assert_eq!(
        arguments,
        vec![
            render_credentials(&credentials()),
            "eu-west-1".to_string(),
            "StartSession".to_string(),
            "".to_string(),
            "{\"Target\":\"i-abc\"}".to_string(),
            "https://ssm.eu-west-1.amazonaws.com".to_string(),
        ]
    );
}
