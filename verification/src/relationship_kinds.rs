use vstd::prelude::*;

verus! {

/// Type key reserved for the built-in "has-component" relationship kind.
pub const HAS_COMPONENT_TYPE_KEY: u64 = 0xEC5_0001;

/// Type key reserved for the built-in "has-resource" relationship kind.
pub const HAS_RESOURCE_TYPE_KEY: u64 = 0xEC5_0002;

/// Marker for the built-in "has-component" relationship kind.
///
/// Its category id is allocated at registry construction under
/// [`HAS_COMPONENT_TYPE_KEY`].
pub struct HasComponent;

/// Marker for the built-in "has-resource" relationship kind.
///
/// Its category id is allocated at registry construction under
/// [`HAS_RESOURCE_TYPE_KEY`].
pub struct HasResource;

} // verus!
