//! Core of an interactive application runtime: a typed event model, an
//! ordered stack of pluggable layers, and the dispatch protocol that routes
//! each event through the stack.
//!
//! Platform window creation, GPU surface setup, UI rendering and log output
//! are external collaborators: they live in the surrounding application
//! shell, which feeds this library plain notification values and performs
//! the actions the dispatcher decides on.
pub mod application;
pub mod events;
pub mod layers;
pub mod text;
pub mod window;
