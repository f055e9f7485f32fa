//! Status codes for device errors, and the check that every service does
//! before it reaches into a device.

use vstd::prelude::*;
use crate::capabilities::CapabilityId;
use crate::device::{Address, DeviceDriver, DeviceError, DeviceServer};

verus! {

/// The status of an RPC that did not succeed.
#[derive(Debug, Clone, Copy, PartialEq, Eq, Structural)]
pub enum StatusCode {
    NotFound,
    Unavailable,
    AlreadyExists,
    Internal,
    FailedPrecondition,
    InvalidArgument,
    Unimplemented,
    Unknown,
}

/// The status for a device error.
pub open spec fn status_of(err: DeviceError) -> StatusCode {
    match err {
        DeviceError::NotFound(_) => StatusCode::NotFound,
        DeviceError::MissingController(_) => StatusCode::Unavailable,
        DeviceError::DuplicateController => StatusCode::AlreadyExists,
        DeviceError::DuplicateDevice(_) => StatusCode::AlreadyExists,
        DeviceError::HardwareError(_) => StatusCode::Internal,
        DeviceError::InvalidOperation(_) => StatusCode::FailedPrecondition,
        DeviceError::InvalidConfig(_) => StatusCode::InvalidArgument,
        DeviceError::NotSupported => StatusCode::Unimplemented,
        DeviceError::Internal => StatusCode::Internal,
        DeviceError::Other(_) => StatusCode::Unknown,
    }
}

/// The status and the message that a device error is reported with.
pub fn map_device_error(err: &DeviceError) -> (status: (StatusCode, String))
    ensures
        status.0 == status_of(*err),
        status.1@ == err.message(),
{
    let code = match err {
        DeviceError::NotFound(_) => StatusCode::NotFound,
        DeviceError::MissingController(_) => StatusCode::Unavailable,
        DeviceError::DuplicateController => StatusCode::AlreadyExists,
        DeviceError::DuplicateDevice(_) => StatusCode::AlreadyExists,
        DeviceError::HardwareError(_) => StatusCode::Internal,
        DeviceError::InvalidOperation(_) => StatusCode::FailedPrecondition,
        DeviceError::InvalidConfig(_) => StatusCode::InvalidArgument,
        DeviceError::NotSupported => StatusCode::Unimplemented,
        DeviceError::Internal => StatusCode::Internal,
        DeviceError::Other(_) => StatusCode::Unknown,
    };
    (code, err.to_string())
}

/// Why a request cannot be handed to a device.
#[derive(Debug, Clone, Copy, PartialEq, Eq, Structural)]
pub enum RequestRefusal {
    /// The address did not parse.
    BadAddress,
    /// No device is registered at the address.
    NoDevice,
    /// The device does not offer the capability.
    NoCapability,
}

impl RequestRefusal {
    /// The status that the refusal is reported with.
    pub fn status(&self) -> (code: StatusCode)
        ensures
            code == match *self {
                RequestRefusal::BadAddress => StatusCode::InvalidArgument,
                RequestRefusal::NoDevice => StatusCode::NotFound,
                RequestRefusal::NoCapability => StatusCode::InvalidArgument,
            },
    {
        match self {
            RequestRefusal::BadAddress => StatusCode::InvalidArgument,
            RequestRefusal::NoDevice => StatusCode::NotFound,
            RequestRefusal::NoCapability => StatusCode::InvalidArgument,
        }
    }
}

/// Whether a request for `capability` at `address` can be served.
/// `address` is `None` where the request's address did not parse.
pub fn check_request<D: DeviceDriver>(
    server: &DeviceServer<D>,
    address: Option<Address>,
    capability: CapabilityId,
) -> (r: Result<Address, RequestRefusal>)
    ensures
        match address {
            None => r == Err::<Address, RequestRefusal>(RequestRefusal::BadAddress),
            Some(a) => if !server@.has_device(a.value) {
                r == Err::<Address, RequestRefusal>(RequestRefusal::NoDevice)
            } else {
                forall|i: int| #[trigger]
                    server@.is_first(a.value, i) ==> (if server@.devices[i].capabilities.contains(
                        capability,
                    ) {
                        r == Ok::<Address, RequestRefusal>(a)
                    } else {
                        r == Err::<Address, RequestRefusal>(RequestRefusal::NoCapability)
                    })
            },
        },
{
    broadcast use DeviceServer::lemma_device_view;

    let a = match address {
        Some(a) => a,
        None => return Err(RequestRefusal::BadAddress),
    };
    let device = match server.get_device(&a) {
        Some(d) => d,
        None => return Err(RequestRefusal::NoDevice),
    };
    proof {
        let i = choose|i: int| #[trigger] server@.is_first(a.value, i) && *device == server.device(i);
        assert forall|k: int| #[trigger] server@.is_first(a.value, k) implies k == i by {
            if k < i {
                assert(server@.devices[k].address != a.value);
            } else if i < k {
                assert(server@.devices[i].address != a.value);
            }
        }
    }
    if device.has_capability(capability) {
        Ok(a)
    } else {
        Err(RequestRefusal::NoCapability)
    }
}

} // verus!
