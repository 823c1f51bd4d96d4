//! Inventory of 3D-printing filament rolls: validated roll records, a store
//! keyed by roll id, and a repository over that store whose every operation
//! is stated over the rolls it holds.
//!
//! Masses are whole milligrams and diameters whole micrometres, so every
//! quantity the rules compare is an exact integer.

pub mod error;
pub mod filament;
pub mod laws;
pub mod memory;
pub mod repository;
pub mod service;
pub mod store;

pub use error::FilamentError;
pub use filament::{FilamentRoll, FilamentRollBuilder};
pub use memory::InMemoryFilamentRepository;
pub use repository::FilamentRepository;
pub use service::{low_inventory, FilamentService};
pub use store::FilamentStore;
