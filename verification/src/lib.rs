//! The state behind a shader-driven tile and the two buttons that step its seed.
//!
//! A host draws one tile whose look depends on a single number, the seed, and
//! offers a "previous" and a "next" button beside a label that shows the seed.
//! This crate holds everything about that arrangement that can be said without
//! a window: how a press moves the seed, what the label reads, what the tile's
//! shader parameter is, and which shade a button takes while it is idle,
//! hovered or pressed. The host reports interaction changes and paints what
//! the controls hold afterwards.

pub mod button;
pub mod controls;
pub mod label;
pub mod laws;
pub mod layout;
pub mod material;
pub mod seed;

pub use button::{Gray, Interaction, SeedButton};
pub use controls::SeedControls;
pub use label::{decimal_text, seed_label};
pub use material::TileMaterial;
pub use seed::CurrentSeed;
