//! Identity and version of this runtime.
use vstd::prelude::*;

verus! {

/// Versions that nodes compare to decide whether they run the same runtime.
#[derive(Clone, Copy, Debug, PartialEq, Eq)]
pub struct RuntimeVersion {
    pub spec_name: &'static str,
    pub impl_name: &'static str,
    pub authoring_version: u32,
    pub spec_version: u32,
    pub impl_version: u32,
    pub transaction_version: u32,
    pub system_version: u8,
}

/// Version of the runtime as compiled into a node.
#[derive(Clone, Debug)]
pub struct NativeVersion {
    pub runtime_version: RuntimeVersion,
    /// Spec versions that this native runtime may author blocks for besides its own.
    pub can_author_with: Vec<u32>,
}

pub const SPEC_VERSION: u32 = 1;

pub const TRANSACTION_VERSION: u32 = 1;

pub open spec fn version_spec(r: RuntimeVersion) -> bool {
    &&& r.spec_name@ == "fintradex-runtime"@
    &&& r.impl_name@ == "fintradex-runtime"@
    &&& r.authoring_version == 1
    &&& r.spec_version == SPEC_VERSION
    &&& r.impl_version == 0
    &&& r.transaction_version == TRANSACTION_VERSION
    &&& r.system_version == 1
}

fn runtime_version() -> (r: RuntimeVersion)
    ensures
        version_spec(r),
{
    RuntimeVersion {
        spec_name: "fintradex-runtime",
        impl_name: "fintradex-runtime",
        authoring_version: 1,
        spec_version: SPEC_VERSION,
        impl_version: 0,
        transaction_version: TRANSACTION_VERSION,
        system_version: 1,
    }
}

/// The runtime composed of all its modules.
pub struct Runtime;

impl Runtime {
    /// This runtime's version.
    pub fn get() -> (r: RuntimeVersion)
        ensures
            version_spec(r),
    {
        runtime_version()
    }
}

/// The version used to identify this runtime when compiled natively.
pub fn native_version() -> (r: NativeVersion)
    ensures
        version_spec(r.runtime_version),
        r.can_author_with@.len() == 0,
{
    NativeVersion { runtime_version: runtime_version(), can_author_with: Vec::new() }
}

} // verus!
