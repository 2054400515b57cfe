//! Planning a session: classify the request, allocate the local port of a
//! forwarding session, write it back, and build the broker call.

use vstd::prelude::*;
use crate::broker::{build_broker_call, planned_call, BrokerCall};
use crate::mode::{SessionMode, ValidationError};
use crate::port::{allocation, pick_port, AllocationError};
use crate::request::{get_mode, SessionManagerProp, SessionRequest};

verus! {

/// Why no broker call was planned. Both kinds arise before any network
/// activity.
#[derive(PartialEq, Eq, Structural, Debug, Clone, Copy)]
pub enum SessionError {
    /// The request names no session mode.
    Validation(ValidationError),
    /// No local port could be allocated.
    Allocation(AllocationError),
}

/// Where the local bytes of a session come from and go to.
#[derive(PartialEq, Eq, Structural, Debug, Clone, Copy)]
pub enum TunnelEndpoint {
    /// The standard input and output of the process.
    StandardStreams,
    /// A local TCP listener on the given port, which takes one connection at
    /// a time.
    LocalPort(u16),
}

/// The local endpoint of a request: the standard streams for a direct
/// session, the local port for a forwarding one.
pub open spec fn endpoint_of(request: SessionRequest) -> Option<TunnelEndpoint> {
    match request.mode() {
        None => None,
        Some(SessionMode::Direct) => Some(TunnelEndpoint::StandardStreams),
        Some(_) => Some(TunnelEndpoint::LocalPort(request.local_port.unwrap())),
    }
}

/// Chooses the local endpoint of a request, or fails with
/// `InvalidCombination` where the request names no mode.
pub fn tunnel_endpoint(prop: &SessionManagerProp) -> (r: Result<TunnelEndpoint, ValidationError>)
    ensures
        match endpoint_of(prop@) {
            Some(endpoint) => r == Ok::<TunnelEndpoint, ValidationError>(endpoint),
            None => r == Err::<TunnelEndpoint, ValidationError>(
                ValidationError::InvalidCombination,
            ),
        },
{
    match get_mode(prop) {
        Err(e) => Err(e),
        Ok(SessionMode::Direct) => Ok(TunnelEndpoint::StandardStreams),
        Ok(_) => Ok(TunnelEndpoint::LocalPort(prop.get_local_port().unwrap())),
    }
}

/// Whether a forwarding request `before` with allocation outcome
/// `allocated` leads to the request `after` and the result `r`: an allocated
/// port is written into the request and the call is built from the request
/// so changed; a failed allocation leaves the request alone.
pub open spec fn forwarding_plan(
    mode: SessionMode,
    before: SessionRequest,
    allocated: Result<u16, AllocationError>,
    after: SessionRequest,
    r: Result<BrokerCall, SessionError>,
) -> bool {
    match allocated {
        Ok(port) => {
            &&& after == before.with_local_port(port)
            &&& r is Ok
            &&& r.unwrap()@ == planned_call(mode, after)
            &&& r.unwrap().wf()
        },
        Err(e) => {
            &&& after == before
            &&& r == Err::<BrokerCall, SessionError>(SessionError::Allocation(e))
        },
    }
}

/// Finishes the plan of a forwarding session from the outcome of the port
/// allocation.
pub fn plan_with_allocation(
    prop: &mut SessionManagerProp,
    mode: SessionMode,
    allocated: Result<u16, AllocationError>,
) -> (r: Result<BrokerCall, SessionError>)
    requires
        old(prop)@.mode() == Some(mode),
        mode.is_forwarding(),
    ensures
        forwarding_plan(mode, old(prop)@, allocated, final(prop)@, r),
{
    match allocated {
        Ok(port) => {
            prop.set_local_port(port);
            Ok(build_broker_call(mode, prop))
        },
        Err(e) => Err(SessionError::Allocation(e)),
    }
}

/// Plans a session. An invalid request fails with `InvalidCombination`. A
/// direct session allocates nothing, and its call has no document and no
/// parameters. A forwarding session allocates the requested local port (any
/// free port for 0), stores the port in the request, and names it in the
/// call; if the allocation fails, so does the plan.
pub fn plan_session(prop: &mut SessionManagerProp) -> (r: Result<BrokerCall, SessionError>)
    ensures
        match old(prop)@.mode() {
            None => {
                &&& final(prop)@ == old(prop)@
                &&& r == Err::<BrokerCall, SessionError>(
                    SessionError::Validation(ValidationError::InvalidCombination),
                )
            },
            Some(SessionMode::Direct) => {
                &&& final(prop)@ == old(prop)@
                &&& r is Ok
                &&& r.unwrap()@ == planned_call(SessionMode::Direct, old(prop)@)
                &&& r.unwrap().wf()
            },
            Some(mode) => exists|probed: Option<u16>, free: bool|
                forwarding_plan(
                    mode,
                    old(prop)@,
                    #[trigger] allocation(old(prop)@.local_port.unwrap(), probed, free),
                    final(prop)@,
                    r,
                ),
        },
{
    match get_mode(prop) {
        Err(e) => Err(SessionError::Validation(e)),
        Ok(SessionMode::Direct) => Ok(build_broker_call(SessionMode::Direct, prop)),
        Ok(mode) => {
            let requested: u16 = prop.get_local_port().unwrap();
            let allocated = pick_port(&requested);
            plan_with_allocation(prop, mode, allocated)
        },
    }
}

} // verus!
