//! Placement of startup and shutdown hooks: the ordering key a numeric
//! priority becomes, and the linker section (plus exit-callback bridging)
//! that each target platform needs for a hook.
pub mod order_key;
pub mod placement;
pub mod platform;
pub mod text;
