//! Per-view atmospheric-scattering lookup tables, and what a renderer needs
//! around them.
//!
//! The core is the atmosphere: the pool of reusable textures
//! ([`texture_cache`], with the laws of its leases in [`lease_order`]), the
//! binding layouts ([`layout`]), the pipeline cache ([`pipeline`]), the
//! resources of a view ([`resources`]), and the pass sequencer that records
//! the four lookup-table passes and the sky compositing pass in dependency
//! order ([`command`], [`node`]), switched on or off once at start-up
//! ([`plugin`]).
//!
//! Beside it stand temporal anti-aliasing ([`taa`], [`view_target`]), frame
//! pacing ([`frame_pacing`]), Bezier curves ([`bezier`]) and the visibility
//! of entities ([`visibility`]).
//!
//! Nothing here touches a graphics device, a clock or a thread: every
//! function takes plain values and gives plain values back, and says in its
//! contract which.

pub mod bezier;
pub mod command;
pub mod frame_pacing;
pub mod layout;
pub mod lease_order;
pub mod math;
pub mod node;
pub mod pipeline;
pub mod plugin;
pub mod resources;
pub mod settings;
pub mod taa;
pub mod texture;
pub mod texture_cache;
pub mod view_target;
pub mod visibility;
