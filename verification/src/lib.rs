//! Verified core of the SimCity 4 plugin bindings.
//!
//! The game exposes its objects through C++ vtables; calling through them is
//! done by the surrounding application. This crate holds the decisions that
//! sit around those calls: the value types of the city interface, the status
//! codes the game reports and how they become `Result`s, the director's
//! reference counting, interface queries and class-factory registry, and the
//! handles that wrap the game's string objects.

pub mod base_types;
pub mod city_ffi;
pub mod city_safe;
pub mod director;
pub mod director_ffi;
pub mod string_types;
pub mod string_types_v2;

pub use base_types::GZIID_IGZUNKNOWN;
pub use city_ffi::GZIID_ISC4CITY;
pub use city_safe::{CellCoord, City, CityError, DifficultyLevel};
pub use director::{DirectorHooks, RustDirector};
pub use director_ffi::{IGZFrameWork, IGZCOM};
