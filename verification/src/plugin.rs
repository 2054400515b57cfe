//! The arguments of the helper process that carries the stream of a session
//! once the broker has issued credentials.

use vstd::prelude::*;
use vstd::string::StringExecFns;
use crate::broker::texts;
use crate::decimal::{decimal, port_text};
use crate::mode::SessionMode;
use crate::request::{SessionManagerProp, SessionRequest};

verus! {

/// The name of the helper executable.
pub const SESSION_MANAGER_BIN_NAME: &'static str = "session-manager-plugin";

/// What the broker issues for one session. The token is a bearer secret,
/// and the credentials are good for one relay: they cannot be copied, and
/// building the helper's arguments uses them up.
#[derive(PartialEq, Eq, Debug)]
pub struct BrokerCredentials {
    pub session_id: String,
    pub token: String,
    pub stream_url: String,
}

/// The JSON string literal that `serde_json` writes for `text`: the text
/// between double quotes, with its escapes.
pub uninterp spec fn json_text(text: Seq<char>) -> Seq<char>;

/// Serialises a `serde_json::Value::String` that holds `text`, in compact
/// form, through the `Display` impl of `serde_json::Value`. The contract only
/// names the result: the escaping rules are not restated.
#[verifier::external_body]
fn json_string(text: &str) -> (json: String)
    ensures
        json@ == json_text(text@),
{
    serde_json::Value::String(text.to_owned()).to_string()
}

/// The JSON object that describes the issued credentials.
pub open spec fn credentials_json(
    session_id: Seq<char>,
    token: Seq<char>,
    stream_url: Seq<char>,
) -> Seq<char> {
    "{\"SessionId\":"@ + json_text(session_id) + ",\"StreamUrl\":"@ + json_text(stream_url)
        + ",\"TokenValue\":"@ + json_text(token) + "}"@
}

/// The JSON object that describes the session asked for: the target alone
/// for a direct session, else also the document and the parameters, each
/// parameter an array of one string.
pub open spec fn request_json(mode: SessionMode, request: SessionRequest) -> Seq<char>
    recommends
        request.mode() == Some(mode),
{
    match mode {
        SessionMode::Direct => "{\"Target\":"@ + json_text(request.target_id) + "}"@,
        SessionMode::PortForwarding => "{\"DocumentName\":"@ + json_text(
            mode.document_name().unwrap(),
        ) + ",\"Target\":"@ + json_text(request.target_id) + ",\"parameters\":{"@
            + "\"localPortNumber\":["@ + json_text(decimal(request.local_port.unwrap() as nat))
            + "],\"portNumber\":["@ + json_text(decimal(request.remote_port.unwrap() as nat))
            + "]}}"@,
        SessionMode::PortForwardingToRemoteHost => "{\"DocumentName\":"@ + json_text(
            mode.document_name().unwrap(),
        ) + ",\"Target\":"@ + json_text(request.target_id) + ",\"parameters\":{"@
            + "\"host\":["@ + json_text(request.remote_host.unwrap()) + "],"@
            + "\"localPortNumber\":["@ + json_text(decimal(request.local_port.unwrap() as nat))
            + "],\"portNumber\":["@ + json_text(decimal(request.remote_port.unwrap() as nat))
            + "]}}"@,
    }
}

/// The address of the broker's endpoint in a region.
pub open spec fn endpoint_url(region: Seq<char>) -> Seq<char> {
    "https://ssm."@ + region + ".amazonaws.com"@
}

/// The six arguments of the helper, in order: the credentials, the region,
/// the operation, an empty profile, the request, and the endpoint.
pub open spec fn helper_arguments(
    credentials: BrokerCredentials,
    mode: SessionMode,
    request: SessionRequest,
) -> Seq<Seq<char>> {
    seq![
        credentials_json(credentials.session_id@, credentials.token@, credentials.stream_url@),
        request.region,
        "StartSession"@,
        ""@,
        request_json(mode, request),
        endpoint_url(request.region),
    ]
}

/// Renders the credentials as a JSON object.
pub fn render_credentials(credentials: &BrokerCredentials) -> (json: String)
    ensures
        json@ == credentials_json(
            credentials.session_id@,
            credentials.token@,
            credentials.stream_url@,
        ),
{
    let mut json = String::from_str("{\"SessionId\":");
    json.append(json_string(credentials.session_id.as_str()).as_str());
    json.append(",\"StreamUrl\":");
    json.append(json_string(credentials.stream_url.as_str()).as_str());
    json.append(",\"TokenValue\":");
    json.append(json_string(credentials.token.as_str()).as_str());
    json.append("}");
    json
}

fn append_ports(json: &mut String, prop: &SessionManagerProp)
    requires
        prop@.local_port is Some,
        prop@.remote_port is Some,
    ensures
        final(json)@ == old(json)@ + "\"localPortNumber\":["@ + json_text(
            decimal(prop@.local_port.unwrap() as nat),
        ) + "],\"portNumber\":["@ + json_text(decimal(prop@.remote_port.unwrap() as nat))
            + "]}}"@,
{
    let local = port_text(prop.get_local_port().unwrap());
    let remote = port_text(prop.get_remote_port().unwrap());
    json.append("\"localPortNumber\":[");
    json.append(json_string(local.as_str()).as_str());
    json.append("],\"portNumber\":[");
    json.append(json_string(remote.as_str()).as_str());
    json.append("]}}");
}

/// Renders the request as a JSON object, in the given mode, which must be
/// the mode of the request.
pub fn render_request(mode: SessionMode, prop: &SessionManagerProp) -> (json: String)
    requires
        prop@.mode() == Some(mode),
    ensures
        json@ == request_json(mode, prop@),
{
    match mode.get_document_name() {
        None => {
            let mut json = String::from_str("{\"Target\":");
            json.append(json_string(prop.get_instance_id()).as_str());
            json.append("}");
            json
        },
        Some(document) => {
            let mut json = String::from_str("{\"DocumentName\":");
            json.append(json_string(document.as_str()).as_str());
            json.append(",\"Target\":");
            json.append(json_string(prop.get_instance_id()).as_str());
            json.append(",\"parameters\":{");
            match prop.get_remote_host() {
                Some(host) => {
                    json.append("\"host\":[");
                    json.append(json_string(host.as_str()).as_str());
                    json.append("],");
                },
                None => {},
            }
            append_ports(&mut json, prop);
            json
        },
    }
}

/// Builds the arguments with which the helper is launched.
pub fn plugin_arguments(
    credentials: BrokerCredentials,
    mode: SessionMode,
    prop: &SessionManagerProp,
) -> (arguments: Vec<String>)
    requires
        prop@.mode() == Some(mode),
    ensures
        texts(arguments@) == helper_arguments(credentials, mode, prop@),
{
    let mut endpoint = String::from_str("https://ssm.");
    endpoint.append(prop.get_region());
    endpoint.append(".amazonaws.com");
    let mut arguments: Vec<String> = Vec::new();
    arguments.push(render_credentials(&credentials));
    arguments.push(String::from_str(prop.get_region()));
    arguments.push(String::from_str("StartSession"));
    arguments.push(String::from_str(""));
    arguments.push(render_request(mode, prop));
    arguments.push(endpoint);
    assert(texts(arguments@) =~= helper_arguments(credentials, mode, prop@));
    arguments
}

} // verus!
