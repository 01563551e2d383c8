//! The platform precision query: how precisely each operation can be allowed
//! by the confinement mechanism of the platform this library is built for.

use vstd::prelude::*;
use crate::profile::{AddressPattern, OperationSupport, OperationSupportLevel};

verus! {

/// A platform-specific operation, identified by a raw code whose meaning is
/// defined entirely by the platform's enforcement backend. The core does not
/// interpret the code.
#[derive(Clone, Debug)]
pub struct Operation {
    /// The backend-defined code of the operation.
    pub raw_code: u32,
}

/// The support level this platform's confinement mechanism assigns to each
/// operation. The mapping is total and deterministic: it depends on the
/// operation alone.
///
/// The confinement mechanism grants path-indexed file access precisely, for
/// full reads as well as metadata-only reads, and can grant unrestricted
/// outbound network access; a single TCP port or a local socket can only be
/// granted by granting a strictly larger set (all outbound network access);
/// system-information reads cannot be blocked at all; and platform-specific
/// codes the backend does not interpret can always be blocked.
pub open spec fn operation_support_level(
    operation: crate::profile::Operation,
) -> OperationSupportLevel {
    match operation {
        crate::profile::Operation::FileReadAll(_) => OperationSupportLevel::CanBeAllowed,
        crate::profile::Operation::FileReadMetadata(_) => OperationSupportLevel::CanBeAllowed,
        crate::profile::Operation::NetworkOutbound(AddressPattern::All) => OperationSupportLevel::CanBeAllowed,
        crate::profile::Operation::NetworkOutbound(AddressPattern::Tcp(_)) => OperationSupportLevel::CannotBeAllowedPrecisely,
        crate::profile::Operation::NetworkOutbound(AddressPattern::LocalSocket(_)) => OperationSupportLevel::CannotBeAllowedPrecisely,
        crate::profile::Operation::SystemInfoRead => OperationSupportLevel::AlwaysAllowed,
        crate::profile::Operation::PlatformSpecific(_) => OperationSupportLevel::NeverAllowed,
    }
}

impl OperationSupport for crate::profile::Operation {
    open spec fn support_spec(&self) -> OperationSupportLevel {
        operation_support_level(*self)
    }

    fn support(&self) -> (level: OperationSupportLevel) {
        match self {
            crate::profile::Operation::FileReadAll(_) => OperationSupportLevel::CanBeAllowed,
            crate::profile::Operation::FileReadMetadata(_) => OperationSupportLevel::CanBeAllowed,
            crate::profile::Operation::NetworkOutbound(AddressPattern::All) => OperationSupportLevel::CanBeAllowed,
            crate::profile::Operation::NetworkOutbound(AddressPattern::Tcp(_)) => OperationSupportLevel::CannotBeAllowedPrecisely,
            crate::profile::Operation::NetworkOutbound(AddressPattern::LocalSocket(_)) => OperationSupportLevel::CannotBeAllowedPrecisely,
            crate::profile::Operation::SystemInfoRead => OperationSupportLevel::AlwaysAllowed,
            crate::profile::Operation::PlatformSpecific(_) => OperationSupportLevel::NeverAllowed,
        }
    }
}

} // verus!
