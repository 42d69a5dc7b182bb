//! The registry of capability declarations.
//!
//! Each enabled capability contributes one declaration that carries a
//! description and one identifier per target platform. The declarations are
//! inert data for packaging tools that write platform manifests; this layer
//! never interprets them.

use vstd::prelude::*;

verus! {

/// A capability that an application may declare.
#[derive(Clone, Copy, Debug, PartialEq, Eq, Structural)]
pub enum Capability {
    LocationCoarse,
    LocationFine,
    BackgroundLocation,
}

/// A platform the application can be packaged for.
#[derive(Clone, Copy, Debug, PartialEq, Eq, Structural)]
pub enum Target {
    Android,
    Ios,
    Macos,
    Windows,
    Linux,
    Web,
}

/// Whether `target` has a notion of the capability `c`.
pub open spec fn supports(c: Capability, target: Target) -> bool {
    match target {
        Target::Linux | Target::Web => false,
        _ => true,
    }
}

/// The identifier under which `target` knows the capability `c`: a native
/// permission name on Android, an Info.plist key on Apple platforms, and the
/// empty string where the platform has no such notion.
pub open spec fn identifier_of(c: Capability, target: Target) -> Seq<char> {
    match (c, target) {
        (Capability::LocationCoarse, Target::Android) => "android.permission.ACCESS_COARSE_LOCATION"@,
        (Capability::LocationFine, Target::Android) => "android.permission.ACCESS_FINE_LOCATION"@,
        (Capability::BackgroundLocation, Target::Android) => "android.permission.ACCESS_BACKGROUND_LOCATION"@,
        (Capability::BackgroundLocation, Target::Ios) => "NSLocationAlwaysAndWhenInUseUsageDescription"@,
        (_, Target::Ios) => "NSLocationWhenInUseUsageDescription"@,
        (_, Target::Macos) => "NSLocationUsageDescription"@,
        (_, Target::Windows) => "location"@,
        (_, _) => ""@,
    }
}

/// The human-readable description of the capability `c`.
pub open spec fn description_of(c: Capability) -> Seq<char> {
    match c {
        Capability::LocationCoarse => "Approximate location for geolocation features"@,
        Capability::LocationFine => "Precise location for geolocation features"@,
        Capability::BackgroundLocation => "Background location access"@,
    }
}

/// One declared capability, with its identifier for every target.
pub struct CapabilityDeclaration {
    pub capability: Capability,
    pub description: String,
    pub android: String,
    pub ios: String,
    pub macos: String,
    pub windows: String,
    pub linux: String,
    pub web: String,
}

impl CapabilityDeclaration {
    /// The identifier this declaration carries for `target`.
    pub open spec fn identifier_view(&self, target: Target) -> Seq<char> {
        match target {
            Target::Android => self.android@,
            Target::Ios => self.ios@,
            Target::Macos => self.macos@,
            Target::Windows => self.windows@,
            Target::Linux => self.linux@,
            Target::Web => self.web@,
        }
    }

    /// The declaration is the fixed one for its capability.
    pub open spec fn is_canonical(&self) -> bool {
        &&& self.description@ == description_of(self.capability)
        &&& forall|t: Target| #[trigger] self.identifier_view(t) == identifier_of(self.capability, t)
    }

    /// The declaration of the capability `c`.
    pub fn declare(c: Capability) -> (r: CapabilityDeclaration)
        ensures
            r.capability == c,
            r.is_canonical(),
    {
        let r = match c {
            Capability::LocationCoarse => CapabilityDeclaration {
                capability: c,
                description: "Approximate location for geolocation features".to_owned(),
                android: "android.permission.ACCESS_COARSE_LOCATION".to_owned(),
                ios: "NSLocationWhenInUseUsageDescription".to_owned(),
                macos: "NSLocationUsageDescription".to_owned(),
                windows: "location".to_owned(),
                linux: "".to_owned(),
                web: "".to_owned(),
            },
            Capability::LocationFine => CapabilityDeclaration {
                capability: c,
                description: "Precise location for geolocation features".to_owned(),
                android: "android.permission.ACCESS_FINE_LOCATION".to_owned(),
                ios: "NSLocationWhenInUseUsageDescription".to_owned(),
                macos: "NSLocationUsageDescription".to_owned(),
                windows: "location".to_owned(),
                linux: "".to_owned(),
                web: "".to_owned(),
            },
            Capability::BackgroundLocation => CapabilityDeclaration {
                capability: c,
                description: "Background location access".to_owned(),
                android: "android.permission.ACCESS_BACKGROUND_LOCATION".to_owned(),
                ios: "NSLocationAlwaysAndWhenInUseUsageDescription".to_owned(),
                macos: "NSLocationUsageDescription".to_owned(),
                windows: "location".to_owned(),
                linux: "".to_owned(),
                web: "".to_owned(),
            },
        };
        assert forall|t: Target| #[trigger] r.identifier_view(t) == identifier_of(c, t) by {
        }
        r
    }

    /// The identifier this declaration carries for `target`.
    pub fn identifier(&self, target: Target) -> (r: &String)
        ensures
            r@ == self.identifier_view(target),
    {
        match target {
            Target::Android => &self.android,
            Target::Ios => &self.ios,
            Target::Macos => &self.macos,
            Target::Windows => &self.windows,
            Target::Linux => &self.linux,
            Target::Web => &self.web,
        }
    }
}

/// The three independent capability switches of a build.
#[derive(Clone, Copy, Debug, PartialEq, Eq, Structural)]
pub struct CapabilityToggles {
    pub location_coarse: bool,
    pub location_fine: bool,
    pub background_location: bool,
}

/// `[c]` when `on`, else nothing.
pub open spec fn when(on: bool, c: Capability) -> Seq<Capability> {
    if on {
        seq![c]
    } else {
        Seq::empty()
    }
}

/// The capabilities that `t` enables, fine location first, then coarse
/// location, then background location.
pub open spec fn enabled(t: CapabilityToggles) -> Seq<Capability> {
    when(t.location_fine, Capability::LocationFine) + when(t.location_coarse, Capability::LocationCoarse)
        + when(t.background_location, Capability::BackgroundLocation)
}

/// Whether `t` switches on the capability `c`.
pub open spec fn is_enabled(t: CapabilityToggles, c: Capability) -> bool {
    match c {
        Capability::LocationCoarse => t.location_coarse,
        Capability::LocationFine => t.location_fine,
        Capability::BackgroundLocation => t.background_location,
    }
}

/// The number of switches that are on.
pub open spec fn toggle_count(t: CapabilityToggles) -> nat {
    (if t.location_coarse { 1nat } else { 0nat }) + (if t.location_fine { 1nat } else { 0nat }) + (
    if t.background_location { 1nat } else { 0nat })
}

/// The declarations of one build, in the order of `enabled`.
pub struct PermissionRegistry {
    pub declarations: Vec<CapabilityDeclaration>,
}

impl PermissionRegistry {
    /// Every declaration is the fixed one for its capability.
    pub open spec fn well_formed(&self) -> bool {
        forall|i: int|
            0 <= i < self.declarations@.len() ==> (#[trigger] self.declarations@[i]).is_canonical()
    }

    /// The declared capabilities, in order.
    pub open spec fn capabilities(&self) -> Seq<Capability> {
        self.declarations@.map_values(|d: CapabilityDeclaration| d.capability)
    }

    /// The registry of the capabilities that `toggles` enables.
    pub fn from_toggles(toggles: CapabilityToggles) -> (r: PermissionRegistry)
        ensures
            r.well_formed(),
            r.capabilities() == enabled(toggles),
    {
        let mut declarations: Vec<CapabilityDeclaration> = Vec::new();
        if toggles.location_fine {
            declarations.push(CapabilityDeclaration::declare(Capability::LocationFine));
        }
        if toggles.location_coarse {
            declarations.push(CapabilityDeclaration::declare(Capability::LocationCoarse));
        }
        if toggles.background_location {
            declarations.push(CapabilityDeclaration::declare(Capability::BackgroundLocation));
        }
        let r = PermissionRegistry { declarations };
        assert(r.capabilities() =~= enabled(toggles));
        r
    }

    /// The number of declarations.
    pub fn len(&self) -> (r: usize)
        ensures
            r == self.declarations@.len(),
    {
        self.declarations.len()
    }

    /// The declaration at position `i`.
    pub fn get(&self, i: usize) -> (r: &CapabilityDeclaration)
        requires
            i < self.declarations@.len(),
        ensures
            *r == self.declarations@[i as int],
    {
        &self.declarations[i]
    }
}

/// Visits every declaration of `registry`, so that each one is read at run
/// time, and returns how many were visited.
pub fn __ensure_permissions_linked(registry: &PermissionRegistry) -> (r: usize)
    ensures
        r == registry.declarations@.len(),
{
    let mut visited: usize = 0;
    let n = registry.declarations.len();
    while visited < n
        invariant
            n == registry.declarations@.len(),
            visited <= n,
        decreases n - visited,
    {
        let _declaration: &CapabilityDeclaration = &registry.declarations[visited];
        visited = visited + 1;
    }
    visited
}

/// Enabling any number of the three switches yields exactly that many
/// declarations, one for each enabled capability, and each of them carries a
/// non-empty identifier for every target that knows its capability.
pub proof fn lemma_declarations_follow_toggles(toggles: CapabilityToggles, registry: PermissionRegistry)
    requires
        registry.well_formed(),
        registry.capabilities() == enabled(toggles),
    ensures
        registry.declarations@.len() == toggle_count(toggles),
        forall|c: Capability| registry.capabilities().contains(c) <==> is_enabled(toggles, c),
        forall|i: int, j: int|
            0 <= i < j < registry.declarations@.len() ==> registry.declarations@[i].capability
                != registry.declarations@[j].capability,
        forall|i: int, t: Target|
            0 <= i < registry.declarations@.len() && supports(
                #[trigger] registry.declarations@[i].capability,
                t,
            ) ==> #[trigger] registry.declarations@[i].identifier_view(t).len() > 0,
{
    let e = enabled(toggles);
    assert(registry.capabilities().len() == registry.declarations@.len());
    assert(e.len() == toggle_count(toggles));
    assert forall|c: Capability| registry.capabilities().contains(c) <==> is_enabled(toggles, c) by {
        if is_enabled(toggles, c) {
            let k: int = if c == Capability::LocationFine {
                0
            } else if c == Capability::LocationCoarse {
                if toggles.location_fine { 1 } else { 0 }
            } else {
                e.len() - 1
            };
            assert(e[k] == c);
        }
        if e.contains(c) {
            let k = choose|k: int| 0 <= k < e.len() && e[k] == c;
            assert(is_enabled(toggles, e[k]));
        }
    }
    assert forall|i: int, j: int| 0 <= i < j < registry.declarations@.len() implies registry.declarations@[i].capability
        != registry.declarations@[j].capability by {
        assert(registry.capabilities()[i] == registry.declarations@[i].capability);
        assert(registry.capabilities()[j] == registry.declarations@[j].capability);
    }
    assert forall|i: int, t: Target|
        0 <= i < registry.declarations@.len() && supports(
            #[trigger] registry.declarations@[i].capability,
            t,
        ) implies #[trigger] registry.declarations@[i].identifier_view(t).len() > 0 by {
        lemma_supported_identifiers_non_empty(registry.declarations@[i].capability, t);
    }
}

/// Every target that knows a capability names it by a non-empty identifier.
pub proof fn lemma_supported_identifiers_non_empty(c: Capability, t: Target)
    requires
        supports(c, t),
    ensures
        identifier_of(c, t).len() > 0,
{
    reveal_strlit("android.permission.ACCESS_COARSE_LOCATION");
    reveal_strlit("android.permission.ACCESS_FINE_LOCATION");
    reveal_strlit("android.permission.ACCESS_BACKGROUND_LOCATION");
    reveal_strlit("NSLocationAlwaysAndWhenInUseUsageDescription");
    reveal_strlit("NSLocationWhenInUseUsageDescription");
    reveal_strlit("NSLocationUsageDescription");
    reveal_strlit("location");
}

} // verus!
