//! Safe, borrow-scoped access to the SoundFont objects of a native synthesizer,
//! and translation of its return codes into typed results.
use vstd::prelude::*;

pub mod font;
pub mod raw;
pub mod synth;
pub mod text;

verus! {

/// Identifier that the native library gives a loaded SoundFont.
pub type FontId = u32;

/// Bank number.
pub type Bank = u32;

/// Preset number within a bank.
pub type PresetId = u32;

} // verus!

pub use font::{FontRef, HasHandle, IsFont, IsPreset, PresetRef};
pub use synth::{Error, Status, Synth};
