//! Allocation of the local port of a forwarding session.

use vstd::prelude::*;

verus! {

/// Why no local port could be allocated.
#[derive(PartialEq, Eq, Structural, Debug, Clone, Copy)]
pub enum AllocationError {
    /// Any port was asked for and the bounded search found none.
    NoFreePort,
    /// The port asked for is bound already.
    PortInUse(u16),
}

/// Calls `portpicker::pick_unused_port`, which tries a handful of random
/// ports and then asks the operating system a bounded number of times. The
/// answer depends on chance and on the machine, so nothing is claimed of it.
#[verifier::external_body]
fn probe_unused_port() -> (probed: Option<u16>) {
    portpicker::pick_unused_port()
}

/// Calls `portpicker::is_free`, which tries to bind the port for TCP and UDP
/// on all local interfaces. The answer depends on the machine, so nothing is
/// claimed of it.
#[verifier::external_body]
fn port_is_free(port: u16) -> (free: bool) {
    portpicker::is_free(port)
}

/// The allocation policy. A request for port 0 takes whatever the search
/// found; a request for a concrete port takes that port if it is free.
pub open spec fn allocation(requested: u16, probed: Option<u16>, free: bool) -> Result<
    u16,
    AllocationError,
> {
    if requested == 0 {
        match probed {
            Some(port) => Ok(port),
            None => Err(AllocationError::NoFreePort),
        }
    } else if free {
        Ok(requested)
    } else {
        Err(AllocationError::PortInUse(requested))
    }
}

/// Decides an allocation from what the machine answered: `probed` is the
/// outcome of the search for any free port, `free` says whether `requested`
/// itself is unbound. Only the answer that the request calls for is read.
pub fn allocation_outcome(requested: u16, probed: Option<u16>, free: bool) -> (r: Result<
    u16,
    AllocationError,
>)
    ensures
        r == allocation(requested, probed, free),
{
    if requested == 0 {
        match probed {
            Some(port) => Ok(port),
            None => Err(AllocationError::NoFreePort),
        }
    } else if free {
        Ok(requested)
    } else {
        Err(AllocationError::PortInUse(requested))
    }
}

/// Allocates a local port. With `port` 0 it searches for any free port and
/// fails with `NoFreePort` if there is none; otherwise it checks that `port`
/// is free and returns it unchanged, or fails with `PortInUse`.
pub fn pick_port(port: &u16) -> (r: Result<u16, AllocationError>)
    ensures
        exists|probed: Option<u16>, free: bool| r == allocation(*port, probed, free),
        *port != 0 ==> r == Ok::<u16, AllocationError>(*port) || r == Err::<u16, AllocationError>(
            AllocationError::PortInUse(*port),
        ),
        *port == 0 ==> r is Ok || r == Err::<u16, AllocationError>(AllocationError::NoFreePort),
{
    if *port == 0 {
        let probed = probe_unused_port();
        allocation_outcome(0, probed, false)
    } else {
        let free = port_is_free(*port);
        allocation_outcome(*port, None, free)
    }
}

/// A concrete port that is bound is always refused with `PortInUse` of that
/// very port, whatever a search would have found.
pub proof fn bound_port_is_refused(port: u16, probed: Option<u16>)
    requires
        port != 0,
    ensures
        allocation(port, probed, false) == Err::<u16, AllocationError>(
            AllocationError::PortInUse(port),
        ),
{
}

/// A concrete port that is free is returned unchanged, so allocating the
/// result of an allocation again asks for that same port.
pub proof fn free_port_is_kept(port: u16, probed: Option<u16>)
    requires
        port != 0,
    ensures
        allocation(port, probed, true) == Ok::<u16, AllocationError>(port),
{
}

} // verus!
