//! The call that opens a session at the broker.

use vstd::prelude::*;
use vstd::string::StringExecFns;
use crate::decimal::{decimal, port_text};
use crate::mode::SessionMode;
use crate::request::{SessionManagerProp, SessionRequest};

verus! {

/// One named parameter of a broker call, with its values.
#[derive(PartialEq, Eq, Debug, Clone)]
pub struct Parameter {
    pub name: String,
    pub values: Vec<String>,
}

/// The request handed to the broker.
#[derive(PartialEq, Eq, Debug, Clone)]
pub struct BrokerCall {
    pub target_id: String,
    pub document: Option<String>,
    pub parameters: Vec<Parameter>,
}

/// The mathematical value of a broker call: its parameters are a mapping
/// from names to sequences of values.
pub struct BrokerCallView {
    pub target_id: Seq<char>,
    pub document: Option<Seq<char>>,
    pub parameters: Map<Seq<char>, Seq<Seq<char>>>,
}

/// The texts of a sequence of strings.
pub open spec fn texts(strings: Seq<String>) -> Seq<Seq<char>> {
    Seq::new(strings.len(), |i: int| strings[i]@)
}

/// The mapping that a list of parameters stands for. Where a name occurs
/// twice the later entry counts.
pub open spec fn parameter_map(parameters: Seq<Parameter>) -> Map<Seq<char>, Seq<Seq<char>>>
    decreases parameters.len(),
{
    if parameters.len() == 0 {
        Map::empty()
    } else {
        parameter_map(parameters.drop_last()).insert(
            parameters.last().name@,
            texts(parameters.last().values@),
        )
    }
}

/// Whether no name occurs twice in a list of parameters.
pub open spec fn names_distinct(parameters: Seq<Parameter>) -> bool {
    forall|i: int, j: int|
        0 <= i < j < parameters.len() ==> parameters[i].name@ != parameters[j].name@
}

impl View for BrokerCall {
    type V = BrokerCallView;

    open spec fn view(&self) -> BrokerCallView {
        BrokerCallView {
            target_id: self.target_id@,
            document: match self.document {
                Some(name) => Some(name@),
                None => None,
            },
            parameters: parameter_map(self.parameters@),
        }
    }
}

/// The broker call of a request whose mode is `mode`. Every parameter value
/// is a sequence of one text.
pub open spec fn planned_call(mode: SessionMode, request: SessionRequest) -> BrokerCallView
    recommends
        request.mode() == Some(mode),
{
    BrokerCallView {
        target_id: request.target_id,
        document: mode.document_name(),
        parameters: match mode {
            SessionMode::Direct => Map::empty(),
            SessionMode::PortForwarding => map![
                "portNumber"@ => seq![decimal(request.remote_port.unwrap() as nat)],
                "localPortNumber"@ => seq![decimal(request.local_port.unwrap() as nat)],
            ],
            SessionMode::PortForwardingToRemoteHost => map![
                "host"@ => seq![request.remote_host.unwrap()],
                "portNumber"@ => seq![decimal(request.remote_port.unwrap() as nat)],
                "localPortNumber"@ => seq![decimal(request.local_port.unwrap() as nat)],
            ],
        },
    }
}

proof fn lemma_parameter_map_push(parameters: Seq<Parameter>, last: Parameter)
    ensures
        parameter_map(parameters.push(last)) == parameter_map(parameters).insert(
            last.name@,
            texts(last.values@),
        ),
{
    assert(parameters.push(last).drop_last() =~= parameters);
}

proof fn lemma_lookup_last(parameters: Seq<Parameter>, at: int, name: Seq<char>)
    requires
        0 <= at < parameters.len(),
        parameters[at].name@ == name,
        forall|j: int| at < j < parameters.len() ==> parameters[j].name@ != name,
    ensures
        parameter_map(parameters).dom().contains(name),
        parameter_map(parameters)[name] == texts(parameters[at].values@),
    decreases parameters.len(),
{
    if at < parameters.len() - 1 {
        lemma_lookup_last(parameters.drop_last(), at, name);
    }
}

proof fn lemma_lookup_absent(parameters: Seq<Parameter>, name: Seq<char>)
    requires
        forall|j: int| 0 <= j < parameters.len() ==> parameters[j].name@ != name,
    ensures
        !parameter_map(parameters).dom().contains(name),
    decreases parameters.len(),
{
    if parameters.len() > 0 {
        lemma_lookup_absent(parameters.drop_last(), name);
    }
}

fn single_valued(name: &str, value: String) -> (parameter: Parameter)
    ensures
        parameter.name@ == name@,
        texts(parameter.values@) == seq![value@],
{
    let mut values: Vec<String> = Vec::new();
    values.push(value);
    assert(texts(values@) =~= seq![value@]);
    Parameter { name: String::from_str(name), values }
}

impl BrokerCall {
    /// Whether the call is well formed: no parameter name occurs twice.
    pub open spec fn wf(&self) -> bool {
        names_distinct(self.parameters@)
    }

    /// Looks a parameter up by name.
    pub fn values_of(&self, name: &str) -> (values: Option<&Vec<String>>)
        ensures
            values is Some <==> self@.parameters.dom().contains(name@),
            values is Some ==> texts(values.unwrap()@) == self@.parameters[name@],
    {
        let wanted = String::from_str(name);
        let mut at: usize = self.parameters.len();
        while at > 0
            invariant
                at <= self.parameters.len(),
                wanted@ == name@,
                forall|j: int| at <= j < self.parameters.len() ==> self.parameters[j].name@ != name@,
            decreases at,
        {
            at = at - 1;
            if self.parameters[at].name == wanted {
                proof {
                    lemma_lookup_last(self.parameters@, at as int, name@);
                }
                return Some(&self.parameters[at].values);
            }
        }
        proof {
            lemma_lookup_absent(self.parameters@, name@);
        }
        None
    }
}

/// Builds the broker call of a request in the given mode, which must be the
/// mode of the request.
pub fn build_broker_call(mode: SessionMode, prop: &SessionManagerProp) -> (call: BrokerCall)
    requires
        prop@.mode() == Some(mode),
    ensures
        call@ == planned_call(mode, prop@),
        call.wf(),
{
    let target_id = String::from_str(prop.get_instance_id());
    let document = mode.get_document_name();
    let mut parameters: Vec<Parameter> = Vec::new();
    match mode {
        SessionMode::Direct => {},
        SessionMode::PortForwarding => {
            let remote = single_valued("portNumber", port_text(prop.get_remote_port().unwrap()));
            let local = single_valued("localPortNumber", port_text(prop.get_local_port().unwrap()));
            proof {
                reveal_strlit("portNumber");
                reveal_strlit("localPortNumber");
                lemma_parameter_map_push(parameters@, remote);
                lemma_parameter_map_push(parameters@.push(remote), local);
            }
            parameters.push(remote);
            parameters.push(local);
            assert(parameters@[0].name@.len() == 10 && parameters@[1].name@.len() == 15);
        },
        SessionMode::PortForwardingToRemoteHost => {
            let host = single_valued("host", prop.get_remote_host().as_ref().unwrap().to_string());
            let remote = single_valued("portNumber", port_text(prop.get_remote_port().unwrap()));
            let local = single_valued("localPortNumber", port_text(prop.get_local_port().unwrap()));
            proof {
                reveal_strlit("host");
                reveal_strlit("portNumber");
                reveal_strlit("localPortNumber");
                lemma_parameter_map_push(parameters@, host);
                lemma_parameter_map_push(parameters@.push(host), remote);
                lemma_parameter_map_push(parameters@.push(host).push(remote), local);
            }
            parameters.push(host);
            parameters.push(remote);
            parameters.push(local);
            assert(parameters@[0].name@.len() == 4 && parameters@[1].name@.len() == 10
                && parameters@[2].name@.len() == 15);
        },
    }
    BrokerCall { target_id, document, parameters }
}

/// Building is a function of its input: two calls built in the same mode
/// from requests of equal value are equal in value, text for text.
pub proof fn build_is_deterministic(
    mode: SessionMode,
    first_prop: SessionManagerProp,
    second_prop: SessionManagerProp,
    first: BrokerCall,
    second: BrokerCall,
)
    requires
        first_prop@ == second_prop@,
        first@ == planned_call(mode, first_prop@),
        second@ == planned_call(mode, second_prop@),
    ensures
        first@ == second@,
{
}

} // verus!
