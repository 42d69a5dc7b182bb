//! Cross-platform geolocation: one permission request and one "last known
//! location" query over four platform backends, together with the registry of
//! capability declarations that packaging tools read.
//!
//! The facade links the registry and selects the backend of the target; the
//! backends hold the decisions of each platform, while the platform calls
//! themselves are made by the caller.

use vstd::prelude::*;

pub mod android;
pub mod coordinates;
pub mod darwin;
pub mod error;
pub mod registry;
pub mod unsupported;
pub mod web;

use registry::{PermissionRegistry, Target};

verus! {

/// The four backend variants.
#[derive(Clone, Copy, Debug, PartialEq, Eq, Structural)]
pub enum Backend {
    /// Android, through JNI.
    ManagedRuntime,
    /// iOS and macOS, through the native location manager.
    NativeBlocking,
    /// The browser's callback-driven geolocation API.
    CallbackAsync,
    /// Targets without location services.
    Stub,
}

/// The backend that serves `target`.
pub open spec fn backend_of(target: Target) -> Backend {
    match target {
        Target::Android => Backend::ManagedRuntime,
        Target::Ios | Target::Macos => Backend::NativeBlocking,
        Target::Web => Backend::CallbackAsync,
        Target::Windows | Target::Linux => Backend::Stub,
    }
}

/// The platform plugin metadata that the native-blocking targets embed: the
/// plugin's name and the frameworks it links.
pub struct PluginMetadata {
    pub plugin: String,
    pub frameworks: Vec<String>,
}

impl PluginMetadata {
    /// The plugin is the geolocation plugin, linking CoreLocation and
    /// Foundation.
    pub open spec fn is_geolocation(&self) -> bool {
        &&& self.plugin@ == "geolocation"@
        &&& self.frameworks@.len() == 2
        &&& self.frameworks@[0]@ == "CoreLocation"@
        &&& self.frameworks@[1]@ == "Foundation"@
    }
}

/// Reads the plugin metadata of `target`, so that it is kept in the build:
/// present for the native-blocking targets only.
pub fn __ensure_metadata_linked(target: Target) -> (r: Option<PluginMetadata>)
    ensures
        r is Some <==> backend_of(target) == Backend::NativeBlocking,
        r matches Some(m) ==> m.is_geolocation(),
{
    match target {
        Target::Ios | Target::Macos => {
            let mut frameworks: Vec<String> = Vec::new();
            frameworks.push("CoreLocation".to_owned());
            frameworks.push("Foundation".to_owned());
            Some(PluginMetadata { plugin: "geolocation".to_owned(), frameworks })
        },
        _ => None,
    }
}

/// The backend of `target`, after reading every declaration of `registry`
/// and the plugin metadata so that they are kept in the build.
fn dispatch(registry: &PermissionRegistry, target: Target) -> (r: Backend)
    ensures
        r == backend_of(target),
{
    let _declarations = registry::__ensure_permissions_linked(registry);
    let _metadata = __ensure_metadata_linked(target);
    match target {
        Target::Android => Backend::ManagedRuntime,
        Target::Ios | Target::Macos => Backend::NativeBlocking,
        Target::Web => Backend::CallbackAsync,
        Target::Windows | Target::Linux => Backend::Stub,
    }
}

/// Links the registry and the plugin metadata, then selects the backend that
/// serves a permission request on `target`.
pub fn request_location_permission(registry: &PermissionRegistry, target: Target) -> (r: Backend)
    ensures
        r == backend_of(target),
{
    dispatch(registry, target)
}

/// Links the registry and the plugin metadata, then selects the backend that
/// answers a last-known-location query on `target`.
pub fn last_known_location(registry: &PermissionRegistry, target: Target) -> (r: Backend)
    ensures
        r == backend_of(target),
{
    dispatch(registry, target)
}

} // verus!
