//! What a stateless service implements.

use vstd::prelude::*;
use windows_core::{GUID, HSTRING};

verus! {

#[verifier::external_type_specification]
#[verifier::external_body]
pub struct ExGuid(windows_core::GUID);

/// A stateless service instance, as far as the bridge calls it directly.
/// Open and close run as tasks of the host scheduler.
pub trait StatelessServiceInstance {
    /// Ends the instance at once. It must not block and may be called more
    /// than once, also while an open or a close is in flight.
    fn abort(&self);
}

/// Creates the instances of one service type.
pub trait StatelessServiceFactory {
    /// The instances that the factory creates.
    type Instance: StatelessServiceInstance;

    /// Creates an instance, or reports the failure code of the service.
    fn create_instance(
        &self,
        servicetypename: &HSTRING,
        servicename: &HSTRING,
        initializationdata: &[u8],
        partitionid: &GUID,
        instanceid: i64,
    ) -> Result<Self::Instance, i32>;
}

} // verus!
