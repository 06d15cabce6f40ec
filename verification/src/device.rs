//! Adapter selection and logical-device acquisition.
//!
//! The host enumerates adapters in an implementation-defined order and
//! reports, for each, whether it is a software fallback and whether it
//! supports the minimum required feature level. The shell gathers those
//! reports into plain [`AdapterInfo`] records; the selection rule here
//! is proved to pick the first qualifying adapter and to fail — fatally,
//! with no retry — exactly when none qualifies.

use vstd::prelude::*;
use crate::error::RenderError;

verus! {

/// What the host reports of one enumerable GPU adapter.
#[derive(Clone, Copy, PartialEq, Eq, Structural, Debug)]
pub struct AdapterInfo {
    /// The adapter is flagged as a software / fallback renderer.
    pub software: bool,
    /// The adapter reports support for the minimum required feature level.
    pub supports_feature_level: bool,
}

/// An adapter qualifies when it is a hardware adapter that supports the
/// minimum required feature level.
pub open spec fn suitable(a: AdapterInfo) -> bool {
    !a.software && a.supports_feature_level
}

/// Select the first suitable adapter in enumeration order, skipping
/// software renderers. Fails with `NoSuitableAdapter` exactly when no
/// enumerated adapter qualifies.
pub fn get_hardware_adapter(adapters: &Vec<AdapterInfo>) -> (r: Result<usize, RenderError>)
    ensures
        match r {
            Ok(i) => {
                &&& i < adapters@.len()
                &&& suitable(adapters@[i as int])
                &&& forall|j: int| 0 <= j < i ==> !suitable(adapters@[j])
            },
            Err(e) => {
                &&& e == RenderError::NoSuitableAdapter
                &&& forall|j: int| 0 <= j < adapters@.len() ==> !suitable(adapters@[j])
            },
        },
{
    let n = adapters.len();
    let mut i: usize = 0;
    while i < n
        invariant
            i <= n,
            n == adapters@.len(),
            forall|j: int| 0 <= j < i ==> !suitable(adapters@[j]),
        decreases n - i,
    {
        let a = adapters[i];
        if !a.software && a.supports_feature_level {
            return Ok(i);
        }
        i = i + 1;
    }
    Err(RenderError::NoSuitableAdapter)
}

/// The process-lifetime GPU context: which adapter the logical device
/// was created on. Created once, immutable afterwards.
#[derive(Clone, Copy, PartialEq, Eq, Structural, Debug)]
pub struct DeviceContext {
    /// Index of the selected adapter in the enumeration the host reported.
    pub adapter_index: usize,
}

/// Acquire the device: select the first suitable hardware adapter and
/// create the logical device on it. Fails permanently when no adapter
/// qualifies — a fatal startup condition, not a transient error.
pub fn create_device(adapters: &Vec<AdapterInfo>) -> (r: Result<DeviceContext, RenderError>)
    ensures
        match r {
            Ok(d) => {
                &&& d.adapter_index < adapters@.len()
                &&& suitable(adapters@[d.adapter_index as int])
                &&& forall|j: int| 0 <= j < d.adapter_index ==> !suitable(adapters@[j])
            },
            Err(e) => {
                &&& e == RenderError::NoSuitableAdapter
                &&& forall|j: int| 0 <= j < adapters@.len() ==> !suitable(adapters@[j])
            },
        },
{
    match get_hardware_adapter(adapters) {
        Ok(i) => Ok(DeviceContext { adapter_index: i }),
        Err(e) => Err(e),
    }
}

} // verus!
