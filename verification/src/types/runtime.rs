//! Values of the hosting runtime.

use vstd::prelude::*;
use windows_core::HSTRING;
use crate::strings::hstring_units;
use crate::types::node::{copy_raw_string, raw_string_fits, raw_string_units, RawWideString};

verus! {

/// Endpoint resource as the foreign side holds it.
pub struct RawEndpointResourceDescription {
    pub name: RawWideString,
    pub protocol: RawWideString,
    pub endpoint_type: RawWideString,
    pub port: u32,
    pub certificate_name: RawWideString,
}

impl RawEndpointResourceDescription {
    /// Every string is short enough to be copied.
    pub open spec fn convertible(&self) -> bool {
        &&& raw_string_fits(self.name)
        &&& raw_string_fits(self.protocol)
        &&& raw_string_fits(self.endpoint_type)
        &&& raw_string_fits(self.certificate_name)
    }
}

/// Endpoint that the service declares for itself.
#[derive(Debug)]
pub struct EndpointResourceDescription {
    pub name: HSTRING,
    pub protocol: HSTRING,
    pub endpoint_type: HSTRING,
    pub port: u32,
    pub certificate_name: HSTRING,
}

impl EndpointResourceDescription {
    /// Copies a raw endpoint resource.
    pub fn from_raw(e: &RawEndpointResourceDescription) -> (d: Self)
        requires
            e.convertible(),
        ensures
            hstring_units(d.name) == raw_string_units(e.name),
            hstring_units(d.protocol) == raw_string_units(e.protocol),
            hstring_units(d.endpoint_type) == raw_string_units(e.endpoint_type),
            d.port == e.port,
            hstring_units(d.certificate_name) == raw_string_units(e.certificate_name),
    {
        EndpointResourceDescription {
            name: copy_raw_string(&e.name),
            protocol: copy_raw_string(&e.protocol),
            endpoint_type: copy_raw_string(&e.endpoint_type),
            port: e.port,
            certificate_name: copy_raw_string(&e.certificate_name),
        }
    }
}

} // verus!
