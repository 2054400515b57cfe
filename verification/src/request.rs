//! The session request and its classification.

use vstd::prelude::*;
use crate::host::RemoteHost;
use crate::mode::{mode_of_presence, resolve_presence, SessionMode, ValidationError};

verus! {

/// What the caller asks for: a target in a region and, for a forwarding
/// session, the ports and the remote host.
#[derive(PartialEq, Debug, Clone)]
pub struct SessionManagerProp {
    region: String,
    instance_id: String,
    local_port: Option<u16>,
    remote_port: Option<u16>,
    remote_host: Option<RemoteHost>,
}

/// The mathematical value of a request.
pub struct SessionRequest {
    pub region: Seq<char>,
    pub target_id: Seq<char>,
    pub local_port: Option<u16>,
    pub remote_port: Option<u16>,
    pub remote_host: Option<Seq<char>>,
}

impl SessionRequest {
    /// The mode of the request, by the classification table.
    pub open spec fn mode(self) -> Option<SessionMode> {
        mode_of_presence(
            self.local_port is Some,
            self.remote_port is Some,
            self.remote_host is Some,
        )
    }

    /// The request with its local port replaced.
    pub open spec fn with_local_port(self, port: u16) -> SessionRequest {
        SessionRequest { local_port: Some(port), ..self }
    }
}

impl View for SessionManagerProp {
    type V = SessionRequest;

    closed spec fn view(&self) -> SessionRequest {
        SessionRequest {
            region: self.region@,
            target_id: self.instance_id@,
            local_port: self.local_port,
            remote_port: self.remote_port,
            remote_host: match self.remote_host {
                Some(host) => Some(host@),
                None => None,
            },
        }
    }
}

impl SessionManagerProp {
    /// Makes a request from its five fields.
    pub fn new(
        region: String,
        instance_id: String,
        local_port: Option<u16>,
        remote_port: Option<u16>,
        remote_host: Option<RemoteHost>,
    ) -> (prop: Self)
        ensures
            prop@ == (SessionRequest {
                region: region@,
                target_id: instance_id@,
                local_port,
                remote_port,
                remote_host: match remote_host {
                    Some(host) => Some(host@),
                    None => None,
                },
            }),
    {
        Self { region, instance_id, local_port, remote_port, remote_host }
    }

    /// The region of the target.
    pub fn get_region(&self) -> (region: &str)
        ensures
            region@ == self@.region,
    {
        self.region.as_str()
    }

    /// The identifier of the target.
    pub fn get_instance_id(&self) -> (id: &str)
        ensures
            id@ == self@.target_id,
    {
        self.instance_id.as_str()
    }

    /// The local port, where one is set.
    pub fn get_local_port(&self) -> (port: &Option<u16>)
        ensures
            *port == self@.local_port,
    {
        &self.local_port
    }

    /// The remote port, where one is set.
    pub fn get_remote_port(&self) -> (port: &Option<u16>)
        ensures
            *port == self@.remote_port,
    {
        &self.remote_port
    }

    /// The remote host, where one is set.
    pub fn get_remote_host(&self) -> (host: &Option<RemoteHost>)
        ensures
            host is Some <==> self@.remote_host is Some,
            host is Some ==> host.unwrap()@ == self@.remote_host.unwrap(),
    {
        &self.remote_host
    }

    /// Replaces the local port and leaves every other field as it was.
    pub fn set_local_port(&mut self, port: u16)
        ensures
            final(self)@ == old(self)@.with_local_port(port),
    {
        self.local_port = Some(port);
    }
}

/// Classifies a request: the mode of its row in the table, or
/// `InvalidCombination` for every other combination of populated fields.
pub fn get_mode(prop: &SessionManagerProp) -> (r: Result<SessionMode, ValidationError>)
    ensures
        match prop@.mode() {
            Some(mode) => r == Ok::<SessionMode, ValidationError>(mode),
            None => r == Err::<SessionMode, ValidationError>(ValidationError::InvalidCombination),
        },
{
    resolve_presence(
        prop.get_local_port().is_some(),
        prop.get_remote_port().is_some(),
        prop.get_remote_host().is_some(),
    )
}

} // verus!
