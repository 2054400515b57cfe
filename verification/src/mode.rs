//! Session modes and the table that selects one from the optional fields of
//! a request.

use vstd::prelude::*;

verus! {

/// The three kinds of session that the broker can open.
#[derive(PartialEq, Eq, Structural, Debug, Clone, Copy)]
pub enum SessionMode {
    /// An interactive shell on the target.
    Direct,
    /// A local port forwarded to a port of the target.
    PortForwarding,
    /// A local port forwarded, through the target, to a port of another host.
    PortForwardingToRemoteHost,
}

/// Why a request names no session mode.
#[derive(PartialEq, Eq, Structural, Debug, Clone, Copy)]
pub enum ValidationError {
    /// The populated fields match no row of the classification table.
    InvalidCombination,
}

/// The classification table, over which of the three optional fields are
/// present. Every combination outside the three listed rows has no mode.
pub open spec fn mode_of_presence(local_port: bool, remote_port: bool, remote_host: bool) -> Option<
    SessionMode,
> {
    if !local_port && !remote_port && !remote_host {
        Some(SessionMode::Direct)
    } else if local_port && remote_port && !remote_host {
        Some(SessionMode::PortForwarding)
    } else if local_port && remote_port && remote_host {
        Some(SessionMode::PortForwardingToRemoteHost)
    } else {
        None
    }
}

/// Executable form of the classification table.
pub fn resolve_presence(local_port: bool, remote_port: bool, remote_host: bool) -> (r: Result<
    SessionMode,
    ValidationError,
>)
    ensures
        match mode_of_presence(local_port, remote_port, remote_host) {
            Some(mode) => r == Ok::<SessionMode, ValidationError>(mode),
            None => r == Err::<SessionMode, ValidationError>(ValidationError::InvalidCombination),
        },
{
    if !local_port && !remote_port && !remote_host {
        Ok(SessionMode::Direct)
    } else if local_port && remote_port && !remote_host {
        Ok(SessionMode::PortForwarding)
    } else if local_port && remote_port && remote_host {
        Ok(SessionMode::PortForwardingToRemoteHost)
    } else {
        Err(ValidationError::InvalidCombination)
    }
}

impl SessionMode {
    /// The broker-side document identifier of the mode, as text; a direct
    /// session names none.
    pub open spec fn document_name(self) -> Option<Seq<char>> {
        match self {
            SessionMode::Direct => None,
            SessionMode::PortForwarding => Some("port-forwarding"@),
            SessionMode::PortForwardingToRemoteHost => Some("port-forwarding-to-remote-host"@),
        }
    }

    /// Whether the mode forwards a local port, and so needs one allocated.
    pub open spec fn is_forwarding(self) -> bool {
        self != SessionMode::Direct
    }

    /// Returns the document identifier that selects this mode at the broker.
    pub fn get_document_name(&self) -> (name: Option<String>)
        ensures
            name is Some <==> self.document_name() is Some,
            name is Some ==> name.unwrap()@ == self.document_name().unwrap(),
    {
        match self {
            SessionMode::Direct => None,
            SessionMode::PortForwarding => Some(String::from_str("port-forwarding")),
            SessionMode::PortForwardingToRemoteHost => Some(
                String::from_str("port-forwarding-to-remote-host"),
            ),
        }
    }
}

/// Every one of the eight presence combinations has either the mode of its
/// row or none, and exactly the three listed rows have one.
pub proof fn mode_table_is_exhaustive(local_port: bool, remote_port: bool, remote_host: bool)
    ensures
        mode_of_presence(local_port, remote_port, remote_host) == Some(SessionMode::Direct) <==> (
        !local_port && !remote_port && !remote_host),
        mode_of_presence(local_port, remote_port, remote_host) == Some(
            SessionMode::PortForwarding,
        ) <==> (local_port && remote_port && !remote_host),
        mode_of_presence(local_port, remote_port, remote_host) == Some(
            SessionMode::PortForwardingToRemoteHost,
        ) <==> (local_port && remote_port && remote_host),
        mode_of_presence(local_port, remote_port, remote_host) is None <==> (local_port
            != remote_port || (remote_host && !local_port)),
{
}

/// The document identifiers of two modes agree only where the modes do.
pub proof fn document_names_are_distinct(a: SessionMode, b: SessionMode)
    ensures
        a.document_name() == b.document_name() <==> a == b,
{
    reveal_strlit("port-forwarding");
    reveal_strlit("port-forwarding-to-remote-host");
    if a != b && a.document_name() is Some && b.document_name() is Some {
        assert(a.document_name().unwrap().len() != b.document_name().unwrap().len());
    }
}

} // verus!
